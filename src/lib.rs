//! A minimal HTTP responder's core: the method, version and status vocabulary
//! read from request lines, and a dispatcher that routes each request to its
//! handler under admission control (a fixed number of slots, a bounded
//! first-in first-out backlog, and immediate `503` answers beyond it).
pub mod text;
pub mod method;
pub mod http_method;
pub mod version;
pub mod status;
pub mod pool;
pub mod schedule;
pub mod request;
pub mod response;
pub mod job;
pub mod server;
