//! Instruction words: how their bit fields are laid out, which operation a
//! word selects, and what each operation does to the register file.

use crate::cpu::{Cpu, DecodeError};
use vstd::arithmetic::power2::{lemma2_to64, lemma_pow2_strictly_increases, pow2};
use vstd::bits::lemma_u32_shl_is_mul;
use vstd::prelude::*;

verus! {

/// Opcode shared by the register-register operations.
pub const OPCODE_REGISTER: u8 = 0x33;

/// Opcode shared by the register-immediate operations.
pub const OPCODE_IMMEDIATE: u8 = 0x13;

/// The unsigned number written in the `width` bits of `raw` that start at
/// bit `low`, bit 0 being the least significant one.
pub open spec fn bit_field(raw: u32, low: nat, width: nat) -> nat {
    (raw as nat / pow2(low)) % pow2(width)
}

/// Bits 0 to 6 of an instruction word: the opcode, in every format.
pub open spec fn opcode_of(raw: u32) -> nat {
    bit_field(raw, 0, 7)
}

/// Bits 7 to 11: the destination register.
pub open spec fn rd_of(raw: u32) -> nat {
    bit_field(raw, 7, 5)
}

/// Bits 12 to 14: the first operation selector.
pub open spec fn funct3_of(raw: u32) -> nat {
    bit_field(raw, 12, 3)
}

/// Bits 15 to 19: the first source register.
pub open spec fn rs1_of(raw: u32) -> nat {
    bit_field(raw, 15, 5)
}

/// Bits 20 to 24: the second source register of a register-register word.
pub open spec fn rs2_of(raw: u32) -> nat {
    bit_field(raw, 20, 5)
}

/// Bits 25 to 31: the second operation selector of a register-register word.
pub open spec fn funct7_of(raw: u32) -> nat {
    bit_field(raw, 25, 7)
}

/// Bits 20 to 31: the immediate of a register-immediate word, read as an
/// unsigned number. The sign is not extended.
pub open spec fn imm_of(raw: u32) -> nat {
    bit_field(raw, 20, 12)
}

/// Every field of a word, written with the shifts and masks that compute it.
pub proof fn lemma_fields_by_shift_and_mask(raw: u32)
    ensures
        opcode_of(raw) == raw & 0b1111111,
        rd_of(raw) == (raw >> 7) & 0b11111,
        funct3_of(raw) == (raw >> 12) & 0b111,
        rs1_of(raw) == (raw >> 15) & 0b11111,
        rs2_of(raw) == (raw >> 20) & 0b11111,
        funct7_of(raw) == raw >> 25,
        imm_of(raw) == raw >> 20,
{
    lemma2_to64();
    assert(raw & 0b1111111 == (raw / 1) % 128) by (bit_vector);
    assert((raw >> 7) & 0b11111 == (raw / 128) % 32) by (bit_vector);
    assert((raw >> 12) & 0b111 == (raw / 4096) % 8) by (bit_vector);
    assert((raw >> 15) & 0b11111 == (raw / 32768) % 32) by (bit_vector);
    assert((raw >> 20) & 0b11111 == (raw / 1048576) % 32) by (bit_vector);
    assert(raw >> 25 == (raw / 33554432) % 128) by (bit_vector);
    assert(raw >> 20 == (raw / 1048576) % 4096) by (bit_vector);
}

/// Decodes an instruction word. The opcode selects the format, `funct3` and,
/// for register-register words, `funct7` select the operation in it. The
/// first of these fields that selects nothing is reported with its value; no
/// word is decoded to a default operation.
pub fn parse(raw: u32) -> (result: Decoded)
    ensures
        opcode_of(raw) == OPCODE_REGISTER && funct3_of(raw) == 0 && funct7_of(raw) == 0
            ==> result == Decoded::Ok(Instruction::Add(RTypeInstruction::from_word(raw))),
        opcode_of(raw) == OPCODE_REGISTER && funct3_of(raw) == 0 && funct7_of(raw) == 32
            ==> result == Decoded::Ok(Instruction::Sub(RTypeInstruction::from_word(raw))),
        opcode_of(raw) == OPCODE_REGISTER && funct3_of(raw) == 1 && funct7_of(raw) == 0
            ==> result == Decoded::Ok(Instruction::Sll(RTypeInstruction::from_word(raw))),
        opcode_of(raw) == OPCODE_REGISTER && funct3_of(raw) > 1
            ==> result == Decoded::Err(DecodeError::Funct3Error(funct3_of(raw) as u8)),
        opcode_of(raw) == OPCODE_REGISTER && funct3_of(raw) == 0 && funct7_of(raw) != 0
            && funct7_of(raw) != 32
            ==> result == Decoded::Err(DecodeError::Funct7Error(funct7_of(raw) as u8)),
        opcode_of(raw) == OPCODE_REGISTER && funct3_of(raw) == 1 && funct7_of(raw) != 0
            ==> result == Decoded::Err(DecodeError::Funct7Error(funct7_of(raw) as u8)),
        opcode_of(raw) == OPCODE_IMMEDIATE && funct3_of(raw) == 0
            ==> result == Decoded::Ok(Instruction::Addi(ITypeInstruction::from_word(raw))),
        opcode_of(raw) == OPCODE_IMMEDIATE && funct3_of(raw) != 0
            ==> result == Decoded::Err(DecodeError::Funct3Error(funct3_of(raw) as u8)),
        opcode_of(raw) != OPCODE_REGISTER && opcode_of(raw) != OPCODE_IMMEDIATE
            ==> result == Decoded::Err(DecodeError::OpcodeError(opcode_of(raw) as u8)),
        result matches Ok(inst) ==> inst.well_formed() && inst.registers_exist(),
{
    proof {
        lemma_fields_by_shift_and_mask(raw);
        assert(raw & 0b1111111 < 128) by (bit_vector);
    }
    let opcode: u8 = (raw & 0b1111111) as u8;

    match opcode {
        OPCODE_REGISTER => {
            let inst = RTypeInstruction::new(raw);
            inst.parse()
        },
        OPCODE_IMMEDIATE => {
            let inst = ITypeInstruction::new(raw);
            inst.parse()
        },
        _ => Err(DecodeError::OpcodeError(opcode)),
    }
}

/// What decoding gives: the operation, or the field that selected none.
pub type Decoded = Result<Instruction, DecodeError>;

/// A decoded operation together with the fields of the word it came from.
#[derive(Debug, Clone, Copy, PartialEq, Eq, Structural)]
pub enum Instruction {
    /// `rd = rs1 + rs2`, modulo 2^32.
    Add(RTypeInstruction),
    /// `rd = rs1 - rs2`, modulo 2^32.
    Sub(RTypeInstruction),
    /// `rd = rs1 << (rs2 mod 32)`.
    Sll(RTypeInstruction),
    /// `rd = rs1 + imm`, modulo 2^32.
    Addi(ITypeInstruction),
}

/// The fields of a register-register word.
#[derive(Debug, Clone, Copy, PartialEq, Eq, Structural)]
pub struct RTypeInstruction {
    pub opcode: u8,
    pub funct3: u8,
    pub funct7: u8,
    pub rd: u8,
    pub rs1: u8,
    pub rs2: u8,
}

/// The fields of a register-immediate word.
#[derive(Debug, Clone, Copy, PartialEq, Eq, Structural)]
pub struct ITypeInstruction {
    pub opcode: u8,
    pub funct3: u8,
    pub rd: u8,
    pub rs1: u8,
    pub imm: u32,
}

impl Instruction {
    /// Every field of the record inside fits the number of bits it has in a
    /// word, and its opcode, `funct3` and `funct7` are those that select the
    /// operation.
    pub open spec fn well_formed(&self) -> bool {
        match *self {
            Instruction::Add(i) => {
                &&& i.well_formed()
                &&& i.opcode == OPCODE_REGISTER
                &&& i.funct3 == 0
                &&& i.funct7 == 0
            },
            Instruction::Sub(i) => {
                &&& i.well_formed()
                &&& i.opcode == OPCODE_REGISTER
                &&& i.funct3 == 0
                &&& i.funct7 == 32
            },
            Instruction::Sll(i) => {
                &&& i.well_formed()
                &&& i.opcode == OPCODE_REGISTER
                &&& i.funct3 == 1
                &&& i.funct7 == 0
            },
            Instruction::Addi(i) => {
                &&& i.well_formed()
                &&& i.opcode == OPCODE_IMMEDIATE
                &&& i.funct3 == 0
            },
        }
    }

    /// The register fields of the record inside name registers that exist.
    pub open spec fn registers_exist(&self) -> bool {
        match *self {
            Instruction::Add(i) => i.registers_exist(),
            Instruction::Sub(i) => i.registers_exist(),
            Instruction::Sll(i) => i.registers_exist(),
            Instruction::Addi(i) => i.registers_exist(),
        }
    }

    /// The register file that is left when the operation has run on
    /// `registers`. The sources are read in `registers`, so an operation
    /// whose destination is one of its sources works on the value from
    /// before the write. One register changes, the destination.
    pub open spec fn effect(&self, registers: Seq<u32>) -> Seq<u32> {
        match *self {
            Instruction::Add(i) => registers.update(
                i.rd as int,
                sum_mod_word(registers[i.rs1 as int], registers[i.rs2 as int]),
            ),
            Instruction::Sub(i) => registers.update(
                i.rd as int,
                difference_mod_word(registers[i.rs1 as int], registers[i.rs2 as int]),
            ),
            Instruction::Sll(i) => registers.update(
                i.rd as int,
                shifted_left(registers[i.rs1 as int], registers[i.rs2 as int]),
            ),
            Instruction::Addi(i) => registers.update(
                i.rd as int,
                sum_mod_word(registers[i.rs1 as int], i.imm),
            ),
        }
    }

    /// Runs the operation on the register file of `cpu`.
    pub fn execute(self, cpu: &mut Cpu)
        requires
            self.registers_exist(),
        ensures
            final(cpu)@ == self.effect(old(cpu)@),
    {
        match self {
            Instruction::Add(i) => self::add(cpu, i),
            Instruction::Sub(i) => self::sub(cpu, i),
            Instruction::Sll(i) => self::sll(cpu, i),
            Instruction::Addi(i) => self::addi(cpu, i),
        }
    }
}

impl RTypeInstruction {
    /// The record that holds the fields of `raw`, read as a
    /// register-register word.
    pub open spec fn from_word(raw: u32) -> RTypeInstruction {
        RTypeInstruction {
            opcode: opcode_of(raw) as u8,
            funct3: funct3_of(raw) as u8,
            funct7: funct7_of(raw) as u8,
            rd: rd_of(raw) as u8,
            rs1: rs1_of(raw) as u8,
            rs2: rs2_of(raw) as u8,
        }
    }

    /// Every field fits the number of bits it has in a word.
    pub open spec fn well_formed(&self) -> bool {
        &&& self.opcode < 128
        &&& self.funct3 < 8
        &&& self.funct7 < 128
        &&& self.rd < 32
        &&& self.rs1 < 32
        &&& self.rs2 < 32
    }

    /// The three register fields name registers that exist.
    pub open spec fn registers_exist(&self) -> bool {
        &&& self.rd < 32
        &&& self.rs1 < 32
        &&& self.rs2 < 32
    }

    /// Reads the fields of a register-register word. Nothing is checked:
    /// whether the fields select an operation is for [`Self::parse`] to say.
    pub fn new(raw: u32) -> (inst: Self)
        ensures
            inst == Self::from_word(raw),
            inst.opcode == opcode_of(raw),
            inst.funct3 == funct3_of(raw),
            inst.funct7 == funct7_of(raw),
            inst.rd == rd_of(raw),
            inst.rs1 == rs1_of(raw),
            inst.rs2 == rs2_of(raw),
            inst.well_formed(),
    {
        proof {
            lemma_fields_by_shift_and_mask(raw);
            assert(raw & 0b1111111 < 128) by (bit_vector);
            assert((raw >> 7) & 0b11111 < 32) by (bit_vector);
            assert((raw >> 12) & 0b111 < 8) by (bit_vector);
            assert((raw >> 15) & 0b11111 < 32) by (bit_vector);
            assert((raw >> 20) & 0b11111 < 32) by (bit_vector);
            assert(raw >> 25 < 128) by (bit_vector);
        }
        let opcode: u8 = (raw & 0b1111111) as u8;
        let rd: u8 = ((raw >> 7) & 0b11111) as u8;
        let funct3: u8 = ((raw >> 12) & 0b111) as u8;
        let rs1: u8 = ((raw >> 15) & 0b11111) as u8;
        let rs2: u8 = ((raw >> 20) & 0b11111) as u8;
        let funct7: u8 = (raw >> 25) as u8;

        Self { opcode, funct3, funct7, rd, rs1, rs2 }
    }

    /// Selects the operation of a register-register record by `funct3`, then
    /// by `funct7`. The record is kept as it is inside the operation; a
    /// selector that names no operation is handed back in the error.
    pub fn parse(self) -> (result: Decoded)
        ensures
            self.funct3 == 0 && self.funct7 == 0 ==> result == Decoded::Ok(Instruction::Add(self)),
            self.funct3 == 0 && self.funct7 == 32 ==> result == Decoded::Ok(Instruction::Sub(self)),
            self.funct3 == 1 && self.funct7 == 0 ==> result == Decoded::Ok(Instruction::Sll(self)),
            self.funct3 == 0 && self.funct7 != 0 && self.funct7 != 32
                ==> result == Decoded::Err(DecodeError::Funct7Error(self.funct7)),
            self.funct3 == 1 && self.funct7 != 0
                ==> result == Decoded::Err(DecodeError::Funct7Error(self.funct7)),
            self.funct3 > 1 ==> result == Decoded::Err(DecodeError::Funct3Error(self.funct3)),
    {
        match self.funct3 {
            0 => match self.funct7 {
                0 => Ok(Instruction::Add(self)),
                32 => Ok(Instruction::Sub(self)),
                _ => Err(DecodeError::Funct7Error(self.funct7)),
            },
            1 => match self.funct7 {
                0 => Ok(Instruction::Sll(self)),
                _ => Err(DecodeError::Funct7Error(self.funct7)),
            },
            _ => Err(DecodeError::Funct3Error(self.funct3)),
        }
    }
}

impl ITypeInstruction {
    /// The record that holds the fields of `raw`, read as a
    /// register-immediate word.
    pub open spec fn from_word(raw: u32) -> ITypeInstruction {
        ITypeInstruction {
            opcode: opcode_of(raw) as u8,
            funct3: funct3_of(raw) as u8,
            rd: rd_of(raw) as u8,
            rs1: rs1_of(raw) as u8,
            imm: imm_of(raw) as u32,
        }
    }

    /// Every field fits the number of bits it has in a word.
    pub open spec fn well_formed(&self) -> bool {
        &&& self.opcode < 128
        &&& self.funct3 < 8
        &&& self.rd < 32
        &&& self.rs1 < 32
        &&& self.imm < 4096
    }

    /// The two register fields name registers that exist.
    pub open spec fn registers_exist(&self) -> bool {
        &&& self.rd < 32
        &&& self.rs1 < 32
    }

    /// Reads the fields of a register-immediate word. The immediate is the
    /// unsigned value of the twelve high bits. Nothing is checked: whether
    /// the fields select an operation is for [`Self::parse`] to say.
    pub fn new(raw: u32) -> (inst: Self)
        ensures
            inst == Self::from_word(raw),
            inst.opcode == opcode_of(raw),
            inst.funct3 == funct3_of(raw),
            inst.rd == rd_of(raw),
            inst.rs1 == rs1_of(raw),
            inst.imm == imm_of(raw),
            inst.well_formed(),
    {
        proof {
            lemma_fields_by_shift_and_mask(raw);
            assert(raw & 0b1111111 < 128) by (bit_vector);
            assert((raw >> 7) & 0b11111 < 32) by (bit_vector);
            assert((raw >> 12) & 0b111 < 8) by (bit_vector);
            assert((raw >> 15) & 0b11111 < 32) by (bit_vector);
            assert(raw >> 20 < 4096) by (bit_vector);
        }
        let opcode: u8 = (raw & 0b1111111) as u8;
        let rd: u8 = ((raw >> 7) & 0b11111) as u8;
        let funct3: u8 = ((raw >> 12) & 0b111) as u8;
        let rs1: u8 = ((raw >> 15) & 0b11111) as u8;
        let imm: u32 = raw >> 20;

        Self { opcode, funct3, rd, rs1, imm }
    }

    /// Selects the operation of a register-immediate record by `funct3`. The
    /// record is kept as it is inside the operation; a selector that names
    /// no operation is handed back in the error.
    pub fn parse(self) -> (result: Decoded)
        ensures
            self.funct3 == 0 ==> result == Decoded::Ok(Instruction::Addi(self)),
            self.funct3 != 0 ==> result == Decoded::Err(DecodeError::Funct3Error(self.funct3)),
    {
        match self.funct3 {
            0 => Ok(Instruction::Addi(self)),
            _ => Err(DecodeError::Funct3Error(self.funct3)),
        }
    }
}

/// Number of values that a register can hold: 2^32.
pub open spec fn word_modulus() -> int {
    0x1_0000_0000
}

/// `a + b`, reduced modulo 2^32.
pub open spec fn sum_mod_word(a: u32, b: u32) -> u32 {
    ((a + b) % word_modulus()) as u32
}

/// `a - b`, reduced modulo 2^32 to a value that is not negative.
pub open spec fn difference_mod_word(a: u32, b: u32) -> u32 {
    ((a - b) % word_modulus()) as u32
}

/// `value` shifted left by the number in the five low bits of `amount`.
/// Bits shifted beyond bit 31 are lost.
pub open spec fn shifted_left(value: u32, amount: u32) -> u32 {
    value << (amount & 0b11111)
}

/// Shifting left is multiplying by a power of two modulo 2^32, and the
/// exponent is the shift amount modulo 32.
pub proof fn lemma_shift_is_multiplication(value: u32, amount: u32)
    ensures
        shifted_left(value, amount) == (value * pow2((amount % 32) as nat)) % word_modulus(),
{
    let shift: u32 = amount & 0b11111;
    assert(amount & 0b11111 == amount % 32) by (bit_vector);
    lemma2_to64();
    if shift < 31 {
        lemma_pow2_strictly_increases(shift as nat, 31);
    }
    lemma_u32_shl_is_mul(1, shift);
    let factor: u32 = 1u32 << shift;
    assert(value << shift == (value * factor) % 0x1_0000_0000) by (bit_vector)
        requires
            shift < 32,
            factor == 1u32 << shift,
    ;
}

/// `rd = rs1 + rs2`. A sum of 2^32 or more wraps round.
pub fn add(cpu: &mut Cpu, i: RTypeInstruction)
    requires
        i.registers_exist(),
    ensures
        final(cpu)@ == old(cpu)@.update(
            i.rd as int,
            sum_mod_word(old(cpu)@[i.rs1 as int], old(cpu)@[i.rs2 as int]),
        ),
{
    let rs1 = cpu.read(i.rs1);
    let rs2 = cpu.read(i.rs2);
    cpu.write(i.rd, rs1.wrapping_add(rs2));
}

/// `rd = rs1 - rs2`. A difference below zero wraps round.
pub fn sub(cpu: &mut Cpu, i: RTypeInstruction)
    requires
        i.registers_exist(),
    ensures
        final(cpu)@ == old(cpu)@.update(
            i.rd as int,
            difference_mod_word(old(cpu)@[i.rs1 as int], old(cpu)@[i.rs2 as int]),
        ),
{
    let rs1 = cpu.read(i.rs1);
    let rs2 = cpu.read(i.rs2);
    cpu.write(i.rd, rs1.wrapping_sub(rs2));
}

/// `rd = rs1 << (rs2 & 31)`. Only the five low bits of `rs2` count.
pub fn sll(cpu: &mut Cpu, i: RTypeInstruction)
    requires
        i.registers_exist(),
    ensures
        final(cpu)@ == old(cpu)@.update(
            i.rd as int,
            shifted_left(old(cpu)@[i.rs1 as int], old(cpu)@[i.rs2 as int]),
        ),
{
    let rs1 = cpu.read(i.rs1);
    let rs2 = cpu.read(i.rs2);
    assert(rs2 & 0b11111 < 32) by (bit_vector);
    cpu.write(i.rd, rs1 << (rs2 & 0b11111));
}

/// `rd = rs1 + imm`, with the immediate taken as it stands in the record.
/// A sum of 2^32 or more wraps round.
pub fn addi(cpu: &mut Cpu, i: ITypeInstruction)
    requires
        i.registers_exist(),
    ensures
        final(cpu)@ == old(cpu)@.update(
            i.rd as int,
            sum_mod_word(old(cpu)@[i.rs1 as int], i.imm),
        ),
{
    let rs1 = cpu.read(i.rs1);
    let imm = i.imm;
    cpu.write(i.rd, rs1.wrapping_add(imm));
}

} // verus!
