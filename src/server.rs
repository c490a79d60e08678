use vstd::prelude::*;

use crate::request::{parse_model, parse_request, ParseError};
use crate::routes::{resolve, resolves_to, uri_path, uri_path_of, Resolution, Routes};

verus! {

/// Why a connection's bytes got no answer.
#[derive(Clone, Copy, Debug, PartialEq, Eq, Structural)]
pub enum HandleError {
    /// The bytes are no well-formed request.
    Parse(ParseError),
    /// The request target is no valid URI.
    InvalidTarget,
}

/// A multi-threaded web server with static routing. The routes cannot change
/// once the server is made.
pub struct WebServer {
    thread_limit: usize,
    routes: Routes,
}

impl WebServer {
    pub closed spec fn spec_thread_limit(&self) -> usize {
        self.thread_limit
    }

    pub closed spec fn spec_routes(&self) -> Routes {
        self.routes
    }

    /// Creates a server that will run `thread_limit` workers over `routes`.
    /// The worker count is checked when the pool is made.
    pub fn new(thread_limit: usize, routes: Routes) -> (r: WebServer)
        ensures
            r.spec_thread_limit() == thread_limit,
            r.spec_routes() == routes,
    {
        WebServer { thread_limit, routes }
    }

    /// The number of workers the server runs.
    pub fn thread_limit(&self) -> (r: usize)
        ensures
            r == self.spec_thread_limit(),
    {
        self.thread_limit
    }

    /// The route table.
    pub fn routes(&self) -> (r: &Routes)
        ensures
            *r == self.spec_routes(),
    {
        &self.routes
    }

    /// Decides the answer to the bytes read from one connection: parse them,
    /// take the path of the target, and resolve it against the routes.
    pub fn handle(&self, buffer: &[u8]) -> (r: Result<Resolution, HandleError>)
        ensures
            match parse_model(buffer@) {
                Err(e) => r == Err::<Resolution, HandleError>(HandleError::Parse(e)),
                Ok(req) => match uri_path_of(req.1) {
                    None => r == Err::<Resolution, HandleError>(HandleError::InvalidTarget),
                    Some(path) => r matches Ok(res) && resolves_to(
                        res,
                        self.spec_routes(),
                        req.0,
                        path,
                    ),
                },
            },
    {
        let request = match parse_request(buffer) {
            Ok(req) => req,
            Err(e) => {
                return Err(HandleError::Parse(e));
            },
        };
        match uri_path(request.target.as_slice()) {
            Some(path) => Ok(resolve(&self.routes, request.method, path.as_slice())),
            None => Err(HandleError::InvalidTarget),
        }
    }
}

} // verus!
