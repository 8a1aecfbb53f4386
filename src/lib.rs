//! Decoding of 8086 `mov` machine code into assembly text.

pub mod addressing;
pub mod cursor;
pub mod decoder;
pub mod emit;
pub mod laws;
pub mod register;
pub mod text;
