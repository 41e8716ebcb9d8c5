//! Instruction-execution core of a 6502-family CPU emulator.
//!
//! The processor fetches opcodes from a flat 64 KiB address space, resolves
//! operand addresses by addressing mode, executes the instruction against its
//! registers and keeps the condition flags up to date.
//!
//! * [`cpu`] holds the executable processor, [`CPU`].
//! * [`machine`] holds its mathematical model, [`Machine`], over which every
//!   contract of the processor is stated, and the laws of stepping and
//!   running.
//! * [`flags`], [`memory`], [`addressing`] and [`opcodes`] hold the parts:
//!   the status register, the address space, the addressing modes and the
//!   opcode table.

pub mod addressing;
pub mod arith;
pub mod cpu;
pub mod error;
pub mod flags;
pub mod machine;
pub mod memory;
pub mod opcodes;

pub use crate::addressing::AddressingMode;
pub use crate::cpu::CPU;
pub use crate::error::CpuError;
pub use crate::flags::{Flag, FlagRegister};
pub use crate::machine::{Machine, StepOutcome};
pub use crate::memory::Memory;
pub use crate::opcodes::{Mnemonic, OpcodeDescriptor};
