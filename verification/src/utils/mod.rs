//! Small helpers on text that the rest of the crate shares.

pub mod numbers;
pub mod parsing;
pub mod text;
