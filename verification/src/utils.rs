//! Helpers that are not part of the language itself.

pub mod poly;
pub mod text;
