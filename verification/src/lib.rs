//! A verified core of a MOS 6502 CPU emulator, suitable as the execution
//! engine of a Nintendo Entertainment System.
//!
//! The crate models the machine state (registers, status flags and the
//! 64 KiB address space) as a mathematical value and specifies every
//! instruction as a pure function on that model.  The executable
//! interpreter is proved to follow that specification step by step,
//! including the documented quirks of the processor: the indirect-JMP
//! page-wrap bug, flag masking during status push/pop, page-crossing
//! cycle penalties, and stack behaviour.

pub mod bus;
pub mod cpu;
pub mod flags;
pub mod instructions;
pub mod laws;
pub mod machine;
pub mod memory;
pub mod opcodes;
pub mod ppu;
pub mod rom;
pub mod semantics;
pub mod vectors;

pub use machine::Machine;
