//! Middleware rules for server requests and for client calls.
pub mod client;
pub mod logging;
pub mod reqwest_retry;
