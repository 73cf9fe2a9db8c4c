//! The processor context: its register file, and the ways in which decoding
//! an instruction word can fail.

use vstd::prelude::*;

verus! {

/// Number of general-purpose registers.
pub const REGISTER_COUNT: usize = 32;

/// The processor context. Its only state is the register file: 32 registers
/// of 32 bits each, none of which is treated specially.
#[derive(Debug, Clone, Copy, PartialEq, Eq)]
pub struct Cpu {
    pub register: [u32; 32],
}

impl View for Cpu {
    type V = Seq<u32>;

    /// The register file as a sequence of 32 values, register 0 first.
    open spec fn view(&self) -> Seq<u32> {
        self.register@
    }
}

impl Cpu {
    /// A processor whose registers all hold zero.
    pub fn new() -> (cpu: Cpu)
        ensures
            cpu@.len() == REGISTER_COUNT,
            forall|i: int| 0 <= i < REGISTER_COUNT ==> cpu@[i] == 0,
    {
        Cpu { register: [0u32; 32] }
    }

    /// The value of register `index`.
    pub fn read(&self, index: u8) -> (value: u32)
        requires
            index < REGISTER_COUNT,
        ensures
            value == self@[index as int],
    {
        self.register[index as usize]
    }

    /// Stores `value` in register `index` and leaves every other register as
    /// it was.
    pub fn write(&mut self, index: u8, value: u32)
        requires
            index < REGISTER_COUNT,
        ensures
            final(self)@ == old(self)@.update(index as int, value),
    {
        self.register[index as usize] = value;
    }
}

/// Why an instruction word could not be decoded. Each variant carries the
/// value of the field that was not recognised.
#[derive(Debug, Clone, Copy, PartialEq, Eq, Structural)]
pub enum DecodeError {
    /// No instruction format is known for this opcode.
    OpcodeError(u8),
    /// The opcode is known, but this `funct3` selects no operation in it.
    Funct3Error(u8),
    /// Opcode and `funct3` are known, but this `funct7` selects no operation.
    Funct7Error(u8),
}

} // verus!
