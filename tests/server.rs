use server::cacher::Cacher;
use server::pool::{Message, PoolCreationError, TaskQueue};
use server::request::{parse_request, Method, ParseError, Version};
use server::response::Response;
use server::routes::{resolve, Resolution, Routes};
use server::server::{HandleError, WebServer};

#[test]
fn call_with_different_values() {
    let mut c = Cacher::new(|a| a);

    let _v1 = c.value(1);
    let v2 = c.value(2);

    assert_eq!(*v2, 2);
}

#[test]
fn cacher_keeps_first_value() {
    let mut c = Cacher::new(|a: u32| a * 10);
    assert_eq!(*c.value(3), 30);
    assert_eq!(*c.value(3), 30);
    assert_eq!(c.values.len(), 1);
}

fn hello_server() -> WebServer {
    let mut routes = Routes::new();
    routes.insert(String::from("/"), String::from("hello.html"));
    WebServer::new(4, routes)
}

fn file_of(r: Resolution) -> (u16, String) {
    match r {
        Resolution::File { status, file } => (status, file),
        Resolution::Message { .. } => panic!("expected a file"),
    }
}

fn message_of(r: Resolution) -> (u16, Vec<u8>) {
    match r {
        Resolution::Message { status, body } => (status, body),
        Resolution::File { .. } => panic!("expected a message"),
    }
}

#[test]
fn pool_of_zero_is_refused() {
    assert_eq!(TaskQueue::<u32>::new(0).err(), Some(PoolCreationError));
    assert_eq!(PoolCreationError.message(), "Pool cannot be created with 0 threads");
}

#[test]
fn pool_has_requested_workers() {
    for n in [1usize, 2, 4, 17] {
        let q = TaskQueue::<u32>::new(n).ok().unwrap();
        assert_eq!(q.workers(), n);
    }
}

#[test]
fn every_task_taken_once() {
    let mut q = TaskQueue::<u32>::new(2).ok().unwrap();
    for j in 0..7u32 {
        q.submit(j);
    }
    let mut seen = Vec::new();
    while let Some(m) = q.take() {
        match m {
            Message::NewJob(j) => seen.push(j),
            Message::Terminate => panic!("no shutdown was asked"),
        }
    }
    assert_eq!(seen, vec![0, 1, 2, 3, 4, 5, 6]);
}

#[test]
fn shutdown_follows_pending_tasks() {
    let mut q = TaskQueue::<u32>::new(3).ok().unwrap();
    q.submit(10);
    q.submit(11);
    q.shutdown();
    assert!(matches!(q.take(), Some(Message::NewJob(10))));
    assert!(matches!(q.take(), Some(Message::NewJob(11))));
    for _ in 0..3 {
        assert!(matches!(q.take(), Some(Message::Terminate)));
    }
    assert!(q.take().is_none());
}

#[test]
fn get_routed_path_serves_file() {
    let server = hello_server();
    let (status, file) = file_of(server.handle(b"GET / HTTP/1.1\r\n\r\n").ok().unwrap());
    assert_eq!(status, 200);
    assert_eq!(file, "hello.html");
    let bytes = Response::new(status, b"<html>Hi</html>".to_vec()).to_bytes();
    assert_eq!(bytes, b"HTTP/1.1 200 OK\r\n\r\n<html>Hi</html>".to_vec());
}

#[test]
fn post_unrouted_path_serves_fallback() {
    let server = hello_server();
    let (status, file) = file_of(server.handle(b"POST /missing HTTP/1.1\r\n\r\n").ok().unwrap());
    assert_eq!(status, 404);
    assert_eq!(file, "404.html");
    let bytes = Response::new(status, b"Not Found".to_vec()).to_bytes();
    assert_eq!(bytes, b"HTTP/1.1 404 Not Found\r\n\r\nNot Found".to_vec());
}

#[test]
fn head_is_not_implemented() {
    let server = hello_server();
    for req in [&b"HEAD / HTTP/1.1\r\n\r\n"[..], &b"HEAD /other HTTP/1.0\r\n\r\n"[..]] {
        let (status, body) = message_of(server.handle(req).ok().unwrap());
        assert_eq!(status, 501);
        assert_eq!(body, b"Server does not support HEAD requests".to_vec());
    }
    let (status, _) = message_of(resolve(&Routes::new(), Method::Head, b"/"));
    assert_eq!(status, 501);
}

#[test]
fn options_is_not_implemented() {
    let (status, body) = message_of(resolve(&Routes::new(), Method::Options, b"/"));
    assert_eq!(status, 501);
    assert_eq!(body, b"Server does not support OPTIONS requests".to_vec());
    let bytes = Response::new(status, body).to_bytes();
    assert_eq!(bytes, b"HTTP/1.1 501 Not Implemented\r\n\r\nServer does not support OPTIONS requests".to_vec());
}

#[test]
fn short_request_line_is_rejected() {
    assert_eq!(parse_request(b"GET /\r\n").err(), Some(ParseError::MalformedRequestLine));
    let server = hello_server();
    assert_eq!(
        server.handle(b"GET /\r\n").err(),
        Some(HandleError::Parse(ParseError::MalformedRequestLine))
    );
}

#[test]
fn request_line_edge_cases() {
    assert_eq!(parse_request(b"").err(), Some(ParseError::MalformedRequestLine));
    assert_eq!(parse_request(b"GET / HTTP/1.1").err(), Some(ParseError::MalformedRequestLine));
    assert_eq!(parse_request(b"GET / HTTP/1.1 x\r\n").err(), Some(ParseError::MalformedRequestLine));
    assert_eq!(parse_request(b"FETCH / HTTP/1.1\r\n").err(), Some(ParseError::UnknownMethod));
    assert_eq!(parse_request(b"GET / HTTP/4.0\r\n").err(), Some(ParseError::UnsupportedVersion));
    assert_eq!(parse_request(b"GET / HTTP/1.1\r\nno colon\r\n\r\n").err(), Some(ParseError::MalformedHeader));
}

#[test]
fn delete_is_not_allowed() {
    let server = hello_server();
    let (status, body) = message_of(server.handle(b"DELETE / HTTP/1.1\r\n\r\n").ok().unwrap());
    assert_eq!(status, 405);
    assert_eq!(body, b"Server does not allow DELETE requests".to_vec());
    let bytes = Response::new(status, body).to_bytes();
    assert_eq!(bytes, b"HTTP/1.1 405 Method Not Allowed\r\n\r\nServer does not allow DELETE requests".to_vec());
}

#[test]
fn parses_headers_and_body() {
    let req = parse_request(b"POST /form HTTP/1.0\r\nHost: a:b\nX-Empty:\r\n\r\nname=v\r\nmore").ok().unwrap();
    assert_eq!(req.method, Method::Post);
    assert_eq!(req.target, b"/form".to_vec());
    assert_eq!(req.version, Version::Http10);
    assert_eq!(req.headers.len(), 2);
    assert_eq!(req.headers[0].key, b"Host".to_vec());
    assert_eq!(req.headers[0].value, b" a:b".to_vec());
    assert_eq!(req.headers[1].key, b"X-Empty".to_vec());
    assert_eq!(req.headers[1].value, Vec::<u8>::new());
    assert_eq!(req.body, b"name=v\r\nmore".to_vec());
}

#[test]
fn no_blank_line_means_no_body() {
    let req = parse_request(b"GET  /x \tHTTP/2.0 \r\nA:1\r\ntrailing").ok().unwrap();
    assert_eq!(req.method, Method::Get);
    assert_eq!(req.target, b"/x".to_vec());
    assert_eq!(req.version, Version::Http2);
    assert_eq!(req.headers.len(), 1);
    assert!(req.body.is_empty());
}

#[test]
fn query_is_not_part_of_route() {
    let server = hello_server();
    let (status, file) = file_of(server.handle(b"GET /?lang=en HTTP/1.1\r\n\r\n").ok().unwrap());
    assert_eq!(status, 200);
    assert_eq!(file, "hello.html");
}

#[test]
fn invalid_target_is_reported() {
    let server = hello_server();
    assert_eq!(server.handle(b"GET /a\x7fb HTTP/1.1\r\n\r\n").err(), Some(HandleError::InvalidTarget));
}

#[test]
fn later_route_replaces_earlier() {
    let mut routes = Routes::new();
    routes.insert(String::from("/"), String::from("a.html"));
    routes.insert(String::from("/b"), String::from("b.html"));
    routes.insert(String::from("/"), String::from("c.html"));
    assert_eq!(routes.get(b"/"), Some(String::from("c.html")));
    assert_eq!(routes.get(b"/b"), Some(String::from("b.html")));
    assert_eq!(routes.get(b"/c"), None);
    let server = WebServer::new(2, routes);
    assert_eq!(server.thread_limit(), 2);
}

#[test]
fn unknown_status_reason() {
    let bytes = Response::new(299, b"x".to_vec()).to_bytes();
    assert_eq!(bytes, b"HTTP/1.1 299 <unknown status code>\r\n\r\nx".to_vec());
}
