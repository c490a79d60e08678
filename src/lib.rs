//! A small multi-threaded web server with static routing: a request parser,
//! a route resolver, a response serializer, and the task queue that its
//! worker pool shares, with a memoizing cache beside them.

pub mod cacher;
pub mod pool;
pub mod request;
pub mod response;
pub mod routes;
pub mod server;
