//! An interpreter for the CHIP-8 virtual machine: a 4 KiB byte-addressable
//! memory with a built-in hexadecimal font, and a fetch-decode-execute core
//! that drives sixteen registers, a call stack, two timers, a sixteen-key
//! keypad and a 64x32 one-bit framebuffer.
//!
//! Every executable function carries a contract over a mathematical model of
//! the machine, and the contracts are proved.

pub mod cpu;
pub mod display;
pub mod error;
pub mod laws;
pub mod machine;
pub mod mmu;
pub mod opcode;
mod random;
pub mod term_gfx;

pub use crate::cpu::Cpu;
pub use crate::error::Chip8Error;
pub use crate::mmu::Mmu;
pub use crate::opcode::{decode, Opcode};
pub use crate::term_gfx::TermGfx;
