use vstd::prelude::*;
use vstd::string::StringExecFns;
use vstd::utf8::encode_utf8;

use crate::request::{bytes_eq, method_name, Method};

verus! {

/// The path of a request target, as `http::Uri` reads it; `None` where the
/// target is no valid URI.
pub uninterp spec fn uri_path_of(target: Seq<u8>) -> Option<Seq<u8>>;

/// Relies on `http::Uri`'s `TryFrom<&[u8]>` and `Uri::path`: the path part of
/// a request target.
#[verifier::external_body]
pub(crate) fn uri_path(target: &[u8]) -> (r: Option<Vec<u8>>)
    ensures
        r is None <==> uri_path_of(target@) is None,
        r matches Some(p) ==> uri_path_of(target@) == Some(p@),
{
    match http::Uri::try_from(target) {
        Ok(uri) => Some(uri.path().as_bytes().to_vec()),
        Err(_) => None,
    }
}

/// The bytes of a route's URL path.
pub open spec fn key_bytes(s: String) -> Seq<u8> {
    encode_utf8(s@)
}

/// The file bound to `path` in a list of entries: the first entry whose key is `path`.
pub open spec fn lookup_in(entries: Seq<(String, String)>, path: Seq<u8>) -> Option<String>
    decreases entries.len(),
{
    if entries.len() == 0 {
        None
    } else if key_bytes(entries[0].0) == path {
        Some(entries[0].1)
    } else {
        lookup_in(entries.drop_first(), path)
    }
}

/// A static route table, from URL path to the file served for it.
pub struct Routes {
    entries: Vec<(String, String)>,
}

impl Routes {
    /// The file bound to a URL path, if any.
    pub closed spec fn lookup(&self, path: Seq<u8>) -> Option<String> {
        lookup_in(self.entries@, path)
    }

    /// A table with no routes.
    pub fn new() -> (r: Routes)
        ensures
            forall|p: Seq<u8>| #[trigger] r.lookup(p) is None,
    {
        Routes { entries: Vec::new() }
    }

    /// Binds `path` to `file`, replacing an earlier binding of `path`.
    pub fn insert(&mut self, path: String, file: String)
        ensures
            forall|p: Seq<u8>|
                #[trigger] final(self).lookup(p) == if p == key_bytes(path) {
                    Some(file)
                } else {
                    old(self).lookup(p)
                },
    {
        let ghost old_entries = self.entries@;
        self.entries.insert(0, (path, file));
        assert(self.entries@.drop_first() =~= old_entries);
    }

    /// The file bound to a URL path, if any.
    pub fn get(&self, path: &[u8]) -> (r: Option<String>)
        ensures
            r == self.lookup(path@),
    {
        let mut i: usize = 0;
        assert(self.entries@.subrange(0, self.entries@.len() as int) =~= self.entries@);
        while i < self.entries.len()
            invariant
                i <= self.entries@.len(),
                lookup_in(self.entries@, path@) == lookup_in(
                    self.entries@.subrange(i as int, self.entries@.len() as int),
                    path@,
                ),
            decreases self.entries@.len() - i,
        {
            let key = self.entries[i].0.as_str().as_bytes();
            let ghost rest = self.entries@.subrange(i as int, self.entries@.len() as int);
            assert(rest.drop_first() =~= self.entries@.subrange(i + 1, self.entries@.len() as int));
            if bytes_eq(key, path) {
                return Some(self.entries[i].1.clone());
            }
            i = i + 1;
        }
        None
    }
}

/// The file served where no route matches.
pub open spec fn fallback_file() -> Seq<char> {
    seq!['4', '0', '4', '.', 'h', 't', 'm', 'l']
}

pub open spec fn unsupported_message(m: Method) -> Seq<u8> {
    seq![83u8, 101, 114, 118, 101, 114, 32, 100, 111, 101, 115, 32, 110, 111, 116, 32, 115, 117, 112, 112, 111, 114, 116, 32]
        + method_name(m) + seq![32u8, 114, 101, 113, 117, 101, 115, 116, 115]
}

pub open spec fn disallowed_message(m: Method) -> Seq<u8> {
    seq![83u8, 101, 114, 118, 101, 114, 32, 100, 111, 101, 115, 32, 110, 111, 116, 32, 97, 108, 108, 111, 119, 32]
        + method_name(m) + seq![32u8, 114, 101, 113, 117, 101, 115, 116, 115]
}

/// What the server answers to a request.
pub enum Resolution {
    /// Send the contents of `file` with `status`.
    File { status: u16, file: String },
    /// Send `body` with `status`.
    Message { status: u16, body: Vec<u8> },
}

/// How a request with method `m` for URL path `path` is answered: GET and POST
/// serve the routed file with 200, or the fallback file with 404; HEAD and
/// OPTIONS get 501; every other method gets 405.
pub open spec fn resolves_to(r: Resolution, routes: Routes, m: Method, path: Seq<u8>) -> bool {
    match m {
        Method::Get | Method::Post => match routes.lookup(path) {
            Some(f) => r == Resolution::File { status: 200, file: f },
            None => r matches Resolution::File { status, file } && status == 404 && file@
                == fallback_file(),
        },
        Method::Head | Method::Options => r matches Resolution::Message { status, body }
            && status == 501 && body@ == unsupported_message(m),
        _ => r matches Resolution::Message { status, body } && status == 405 && body@
            == disallowed_message(m),
    }
}

/// A HEAD request is answered with 501, whatever the path and the routes.
pub proof fn lemma_head_not_implemented(r: Resolution, routes: Routes, path: Seq<u8>)
    requires
        resolves_to(r, routes, Method::Head, path),
    ensures
        r matches Resolution::Message { status, .. } && status == 501,
{
}

/// A DELETE request is answered with 405, routed path or not.
pub proof fn lemma_delete_not_allowed(r: Resolution, routes: Routes, path: Seq<u8>)
    requires
        resolves_to(r, routes, Method::Delete, path),
    ensures
        r matches Resolution::Message { status, .. } && status == 405,
{
}

fn method_message(prefix: Vec<u8>, m: Method) -> (r: Vec<u8>)
    ensures
        r@ == prefix@ + method_name(m) + seq![32u8, 114, 101, 113, 117, 101, 115, 116, 115],
{
    let mut r = prefix;
    let mut name = m.name();
    let mut tail = vec![32u8, 114, 101, 113, 117, 101, 115, 116, 115];
    r.append(&mut name);
    r.append(&mut tail);
    r
}

/// Decides the answer to a request with method `m` for URL path `path`.
pub fn resolve(routes: &Routes, m: Method, path: &[u8]) -> (r: Resolution)
    ensures
        resolves_to(r, *routes, m, path@),
{
    match m {
        Method::Get | Method::Post => match routes.get(path) {
            Some(file) => Resolution::File { status: 200, file },
            None => {
                let file = String::from_str("404.html");
                proof {
                    reveal_strlit("404.html");
                }
                assert(file@ =~= fallback_file());
                Resolution::File { status: 404, file }
            },
        },
        Method::Head | Method::Options => {
            let prefix = vec![83u8, 101, 114, 118, 101, 114, 32, 100, 111, 101, 115, 32, 110, 111, 116, 32, 115, 117, 112, 112, 111, 114, 116, 32];
            Resolution::Message { status: 501, body: method_message(prefix, m) }
        },
        _ => {
            let prefix = vec![83u8, 101, 114, 118, 101, 114, 32, 100, 111, 101, 115, 32, 110, 111, 116, 32, 97, 108, 108, 111, 119, 32];
            Resolution::Message { status: 405, body: method_message(prefix, m) }
        },
    }
}

} // verus!
