//! Request extractors.
pub mod json;
