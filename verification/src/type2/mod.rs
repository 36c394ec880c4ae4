//! The type-2 char-string format.

pub mod number;
