//! Middleware for client calls.
pub mod metrics;
