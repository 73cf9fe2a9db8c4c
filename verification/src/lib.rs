//! Decode-and-dispatch core of a small RISC-V style emulator.
//!
//! [`instruction::parse`] turns a raw 32-bit instruction word into a typed
//! [`instruction::Instruction`] or reports which field was not recognised;
//! the functions [`instruction::add`], [`instruction::sub`],
//! [`instruction::sll`] and [`instruction::addi`] apply one instruction to
//! the register file of a [`cpu::Cpu`].

pub mod cpu;
pub mod instruction;
