//! Route handlers.
pub mod fallback;
