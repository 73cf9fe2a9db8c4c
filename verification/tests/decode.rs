use riscv_core::cpu::DecodeError;
use riscv_core::instruction::{parse, ITypeInstruction, Instruction, RTypeInstruction};

fn r_word(funct7: u32, rs2: u32, rs1: u32, funct3: u32, rd: u32, opcode: u32) -> u32 {
    (funct7 << 25) | (rs2 << 20) | (rs1 << 15) | (funct3 << 12) | (rd << 7) | opcode
}

fn i_word(imm: u32, rs1: u32, funct3: u32, rd: u32, opcode: u32) -> u32 {
    (imm << 20) | (rs1 << 15) | (funct3 << 12) | (rd << 7) | opcode
}

#[test]
fn decodes_add() {
    assert_eq!(r_word(0, 3, 2, 0, 1, 0x33), 0x0031_00b3);
    assert_eq!(
        parse(0x0031_00b3),
        Ok(Instruction::Add(RTypeInstruction {
            opcode: 0x33,
            funct3: 0,
            funct7: 0,
            rd: 1,
            rs1: 2,
            rs2: 3,
        }))
    );
}

#[test]
fn decodes_sub() {
    assert_eq!(
        parse(0x4031_0133),
        Ok(Instruction::Sub(RTypeInstruction {
            opcode: 0x33,
            funct3: 0,
            funct7: 32,
            rd: 2,
            rs1: 2,
            rs2: 3,
        }))
    );
}

#[test]
fn decodes_sll() {
    assert_eq!(
        parse(0x0031_10b3),
        Ok(Instruction::Sll(RTypeInstruction {
            opcode: 0x33,
            funct3: 1,
            funct7: 0,
            rd: 1,
            rs1: 2,
            rs2: 3,
        }))
    );
}

#[test]
fn decodes_addi() {
    assert_eq!(
        parse(0x02a1_0093),
        Ok(Instruction::Addi(ITypeInstruction {
            opcode: 0x13,
            funct3: 0,
            rd: 1,
            rs1: 2,
            imm: 42,
        }))
    );
}

#[test]
fn immediate_is_not_sign_extended() {
    assert_eq!(
        parse(0xfff1_0093),
        Ok(Instruction::Addi(ITypeInstruction {
            opcode: 0x13,
            funct3: 0,
            rd: 1,
            rs1: 2,
            imm: 4095,
        }))
    );
    assert_eq!(
        parse(0x8000_0013),
        Ok(Instruction::Addi(ITypeInstruction {
            opcode: 0x13,
            funct3: 0,
            rd: 0,
            rs1: 0,
            imm: 2048,
        }))
    );
}

#[test]
fn register_fields_of_every_register_word() {
    for rd in 0..32u32 {
        for rs1 in 0..32u32 {
            for rs2 in 0..32u32 {
                let fields = |funct3: u8, funct7: u8| RTypeInstruction {
                    opcode: 0x33,
                    funct3,
                    funct7,
                    rd: rd as u8,
                    rs1: rs1 as u8,
                    rs2: rs2 as u8,
                };
                assert_eq!(
                    parse(r_word(0, rs2, rs1, 0, rd, 0x33)),
                    Ok(Instruction::Add(fields(0, 0)))
                );
                assert_eq!(
                    parse(r_word(32, rs2, rs1, 0, rd, 0x33)),
                    Ok(Instruction::Sub(fields(0, 32)))
                );
                assert_eq!(
                    parse(r_word(0, rs2, rs1, 1, rd, 0x33)),
                    Ok(Instruction::Sll(fields(1, 0)))
                );
            }
        }
    }
}

#[test]
fn every_immediate_is_read_unsigned() {
    for imm in 0..4096u32 {
        assert_eq!(
            parse(i_word(imm, 31, 0, 17, 0x13)),
            Ok(Instruction::Addi(ITypeInstruction {
                opcode: 0x13,
                funct3: 0,
                rd: 17,
                rs1: 31,
                imm,
            }))
        );
    }
}

#[test]
fn unknown_opcode_is_reported_with_its_value() {
    for opcode in 0..128u32 {
        if opcode == 0x33 || opcode == 0x13 {
            continue;
        }
        assert_eq!(
            parse(r_word(0, 3, 2, 0, 1, opcode)),
            Err(DecodeError::OpcodeError(opcode as u8))
        );
        assert_eq!(
            parse(0xffff_ff80 | opcode),
            Err(DecodeError::OpcodeError(opcode as u8))
        );
    }
    assert_eq!(parse(0), Err(DecodeError::OpcodeError(0)));
    assert_eq!(parse(0xffff_ffff), Err(DecodeError::OpcodeError(0x7f)));
}

#[test]
fn unknown_funct3_of_register_word() {
    for funct3 in 2..8u32 {
        for funct7 in [0u32, 1, 32, 127] {
            assert_eq!(
                parse(r_word(funct7, 3, 2, funct3, 1, 0x33)),
                Err(DecodeError::Funct3Error(funct3 as u8))
            );
        }
    }
}

#[test]
fn unknown_funct7_of_add_and_sub() {
    for funct7 in 0..128u32 {
        if funct7 == 0 || funct7 == 32 {
            continue;
        }
        assert_eq!(
            parse(r_word(funct7, 3, 2, 0, 1, 0x33)),
            Err(DecodeError::Funct7Error(funct7 as u8))
        );
    }
}

#[test]
fn unknown_funct7_of_shift() {
    for funct7 in 1..128u32 {
        assert_eq!(
            parse(r_word(funct7, 3, 2, 1, 1, 0x33)),
            Err(DecodeError::Funct7Error(funct7 as u8))
        );
    }
}

#[test]
fn unknown_funct3_of_immediate_word() {
    for funct3 in 1..8u32 {
        assert_eq!(
            parse(i_word(42, 2, funct3, 1, 0x13)),
            Err(DecodeError::Funct3Error(funct3 as u8))
        );
    }
}

#[test]
fn register_record_of_all_ones() {
    assert_eq!(
        RTypeInstruction::new(0xffff_ffff),
        RTypeInstruction {
            opcode: 0x7f,
            funct3: 7,
            funct7: 0x7f,
            rd: 31,
            rs1: 31,
            rs2: 31,
        }
    );
}

#[test]
fn register_record_of_zero() {
    assert_eq!(
        RTypeInstruction::new(0),
        RTypeInstruction {
            opcode: 0,
            funct3: 0,
            funct7: 0,
            rd: 0,
            rs1: 0,
            rs2: 0,
        }
    );
}

#[test]
fn register_record_keeps_fields_apart() {
    // One field at a time holds all ones.
    let only = |word: u32| RTypeInstruction::new(word);
    assert_eq!(only(0x0000_007f).opcode, 0x7f);
    assert_eq!(only(0x0000_0f80).rd, 31);
    assert_eq!(only(0x0000_7000).funct3, 7);
    assert_eq!(only(0x000f_8000).rs1, 31);
    assert_eq!(only(0x01f0_0000).rs2, 31);
    assert_eq!(only(0xfe00_0000).funct7, 0x7f);
    assert_eq!(
        only(0x0000_0f80),
        RTypeInstruction {
            opcode: 0,
            funct3: 0,
            funct7: 0,
            rd: 31,
            rs1: 0,
            rs2: 0,
        }
    );
    assert_eq!(
        only(0xfe00_0000),
        RTypeInstruction {
            opcode: 0,
            funct3: 0,
            funct7: 0x7f,
            rd: 0,
            rs1: 0,
            rs2: 0,
        }
    );
}

#[test]
fn immediate_record_of_all_ones() {
    assert_eq!(
        ITypeInstruction::new(0xffff_ffff),
        ITypeInstruction {
            opcode: 0x7f,
            funct3: 7,
            rd: 31,
            rs1: 31,
            imm: 0xfff,
        }
    );
}

#[test]
fn immediate_record_keeps_fields_apart() {
    assert_eq!(
        ITypeInstruction::new(0xfff0_0000),
        ITypeInstruction {
            opcode: 0,
            funct3: 0,
            rd: 0,
            rs1: 0,
            imm: 4095,
        }
    );
    assert_eq!(
        ITypeInstruction::new(0x000f_8000),
        ITypeInstruction {
            opcode: 0,
            funct3: 0,
            rd: 0,
            rs1: 31,
            imm: 0,
        }
    );
}

#[test]
fn fields_agree_with_division_and_remainder() {
    let mut word: u32 = 0x1234_5678;
    for _ in 0..10_000 {
        word = word.wrapping_mul(1_664_525).wrapping_add(1_013_904_223);
        let r = RTypeInstruction::new(word);
        assert_eq!(u32::from(r.opcode), word % 128);
        assert_eq!(u32::from(r.rd), word / 128 % 32);
        assert_eq!(u32::from(r.funct3), word / 4096 % 8);
        assert_eq!(u32::from(r.rs1), word / 32_768 % 32);
        assert_eq!(u32::from(r.rs2), word / 1_048_576 % 32);
        assert_eq!(u32::from(r.funct7), word / 33_554_432);
        let i = ITypeInstruction::new(word);
        assert_eq!(u32::from(i.opcode), word % 128);
        assert_eq!(u32::from(i.rd), word / 128 % 32);
        assert_eq!(u32::from(i.funct3), word / 4096 % 8);
        assert_eq!(u32::from(i.rs1), word / 32_768 % 32);
        assert_eq!(i.imm, word / 1_048_576);
    }
}

#[test]
fn register_record_selects_its_operation() {
    let record = |funct3: u8, funct7: u8| RTypeInstruction {
        opcode: 0x33,
        funct3,
        funct7,
        rd: 4,
        rs1: 5,
        rs2: 6,
    };
    assert_eq!(record(0, 0).parse(), Ok(Instruction::Add(record(0, 0))));
    assert_eq!(record(0, 32).parse(), Ok(Instruction::Sub(record(0, 32))));
    assert_eq!(record(1, 0).parse(), Ok(Instruction::Sll(record(1, 0))));
    assert_eq!(record(0, 1).parse(), Err(DecodeError::Funct7Error(1)));
    assert_eq!(record(0, 200).parse(), Err(DecodeError::Funct7Error(200)));
    assert_eq!(record(1, 32).parse(), Err(DecodeError::Funct7Error(32)));
    assert_eq!(record(2, 0).parse(), Err(DecodeError::Funct3Error(2)));
    assert_eq!(record(7, 32).parse(), Err(DecodeError::Funct3Error(7)));
    assert_eq!(record(255, 0).parse(), Err(DecodeError::Funct3Error(255)));
}

#[test]
fn immediate_record_selects_its_operation() {
    let record = |funct3: u8| ITypeInstruction {
        opcode: 0x13,
        funct3,
        rd: 4,
        rs1: 5,
        imm: 77,
    };
    assert_eq!(record(0).parse(), Ok(Instruction::Addi(record(0))));
    assert_eq!(record(1).parse(), Err(DecodeError::Funct3Error(1)));
    assert_eq!(record(7).parse(), Err(DecodeError::Funct3Error(7)));
}

#[test]
fn decoding_twice_gives_the_same() {
    for word in [0x0031_00b3u32, 0x4031_0133, 0xfff1_0093, 0xffff_ffff, 0x0000_2033] {
        assert_eq!(parse(word), parse(word));
    }
}
