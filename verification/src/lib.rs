//! A cycle-stepped model of an 8-bit handheld console: CPU, timer, interrupt
//! controller, banked address space and pixel pipeline, advanced together one
//! instruction at a time.

pub mod application_state;
pub mod conditions;
pub mod cpu;
pub mod fault;
pub mod inputs;
pub mod instructions;
pub mod machine;
pub mod memory;
pub mod message;
pub mod pixel_fetcher;
pub mod ppu;
pub mod registers;
pub mod text;
pub mod utils;
