//! A client for a device-scoped HTTP API: log in once for a token, then
//! address authenticated POST requests to endpoints under one device.
//!
//! The library decides what is sent and what a reply means; the caller
//! moves the bytes over the network.

pub mod client;
pub mod headers;
pub mod laws;
pub mod login;
pub mod status;
pub mod url;
