//! The core of an HTTP client: the connection pool that arbitrates idle and
//! shared connections, the request model with ordered headers, and the rules
//! by which a request is prepared, redirected and retried.
//!
//! Everything here computes on plain values. Sockets, timers and tasks live
//! with the caller, which feeds the pool the current time and performs what
//! the library decides.

pub mod auth;
pub mod body;
pub mod bytes;
pub mod client;
pub mod config;
pub mod connect;
pub mod connector;
pub mod dns;
pub mod encode;
pub mod error;
pub mod ext;
pub mod header;
pub mod method;
pub mod middleware;
pub mod pool;
pub mod proto;
pub mod proxy;
pub mod redirect;
pub mod response;
pub mod retry;
pub mod rt;
pub mod sync;
pub mod time;
pub mod timeout;
pub mod url;
