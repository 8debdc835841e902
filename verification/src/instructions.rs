//! The instruction set: its values, the decoder, what each instruction does,
//! and its text.

pub mod decode;
pub mod display;
pub mod laws;
pub mod semantics;
pub mod type_def;
