//! A functional emulator for the ZKTC 16-bit instruction-set architecture:
//! the memory map, the register file and the fetch-decode-execute engine.
pub mod command;
pub mod cpu;
pub mod image;
pub mod isa;
pub mod machine;
pub mod memory;
pub mod theorems;

pub use cpu::Cpu;
pub use isa::{InstInfo, Instruction};
pub use machine::{Error, RunExit, Zktc};
pub use memory::{Memory, MemoryError};
