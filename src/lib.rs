//! A small concurrent request server: request-line parsing, first-match
//! routing, response framing and the per-connection and accept-loop decisions,
//! all verified. The sockets, timers and file reads live with the caller.
pub mod request;
pub mod router;
pub mod response;
pub mod handler;
pub mod acceptor;
pub mod wrapper;
pub mod vector;
pub mod error;
