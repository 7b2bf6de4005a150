//! The message envelope, the router and the request/response correlator.

pub mod protocol;
pub mod server;
pub mod client;
