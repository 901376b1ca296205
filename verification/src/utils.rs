//! Helpers that are not about logging itself.

pub mod path;
