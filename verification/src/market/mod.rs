//! Market domain types and the instrument catalog lookup.

pub mod types;
pub mod universe;
