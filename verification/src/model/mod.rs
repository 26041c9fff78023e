//! Typed values that the client hands to its callers.

pub mod board;
pub mod common;
