//! Header maps and header values.
pub mod header;
