//! A verified interpreter for a small word-oriented virtual machine: 16-bit
//! words, eight registers, an unbounded stack and a flat word memory.

pub mod word;
pub mod machine;
pub mod session;
pub mod laws;
