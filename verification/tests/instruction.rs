use mips_core::cpu::instruction::{opcode_from_lookup, Instruction};
use mips_core::error::CpuError;
use num::FromPrimitive;

#[derive(Debug, Clone, Copy, PartialEq, Eq)]
enum Op {
    Special,
    Addi,
    Ori,
    Lui,
    Lw,
    Sd,
}

impl FromPrimitive for Op {
    fn from_i64(n: i64) -> Option<Op> {
        if n < 0 {
            None
        } else {
            Op::from_u64(n as u64)
        }
    }

    fn from_u64(n: u64) -> Option<Op> {
        match n {
            0 => Some(Op::Special),
            8 => Some(Op::Addi),
            13 => Some(Op::Ori),
            15 => Some(Op::Lui),
            35 => Some(Op::Lw),
            63 => Some(Op::Sd),
            _ => None,
        }
    }
}

fn word(op: u32, rs: u32, rt: u32, low: u32) -> u32 {
    (op << 26) | (rs << 21) | (rt << 16) | low
}

#[test]
fn opcode_bits_are_the_top_six() {
    assert_eq!(Instruction(0xffff_ffff).opcode_bits(), 63);
    assert_eq!(Instruction(0x03ff_ffff).opcode_bits(), 0);
    assert_eq!(Instruction(0x3c08_1234).opcode_bits(), 15);
    assert_eq!(Instruction(0x0400_0000).opcode_bits(), 1);
    assert_eq!(Instruction(0x8000_0000).opcode_bits(), 32);
}

#[test]
fn opcode_is_looked_up_in_the_callers_table() {
    // lui $t0, 0x1234
    assert_eq!(Instruction(0x3c08_1234).opcode(Op::from_u32), Ok(Op::Lui));
    // ori $t0, $t0, 0x5678
    assert_eq!(Instruction(0x3508_5678).opcode(Op::from_u32), Ok(Op::Ori));
    // lw $t1, 4($sp)
    assert_eq!(Instruction(0x8fa9_0004).opcode(Op::from_u32), Ok(Op::Lw));
    assert_eq!(Instruction(0x0000_0000).opcode(Op::from_u32), Ok(Op::Special));
    assert_eq!(Instruction(0xffff_ffff).opcode(Op::from_u32), Ok(Op::Sd));
}

#[test]
fn opcode_lookup_sees_only_the_six_bit_code() {
    for code in 0u32..64 {
        let seen = Instruction(word(code, 31, 31, 0xffff)).opcode(|c| Some(c));
        assert_eq!(seen, Ok(code));
    }
}

#[test]
fn opcode_without_a_mnemonic_is_unrecognized() {
    // operation code 1 is not in the table
    assert_eq!(
        Instruction(0x0400_0000).opcode(Op::from_u32),
        Err(CpuError::UnrecognizedInstruction)
    );
    assert_eq!(
        Instruction(word(62, 1, 2, 3)).opcode(Op::from_u32),
        Err(CpuError::UnrecognizedInstruction)
    );
}

#[test]
fn opcode_from_lookup_passes_the_answer_on() {
    assert_eq!(opcode_from_lookup(Some(Op::Addi)), Ok(Op::Addi));
    assert_eq!(opcode_from_lookup(Some(7u8)), Ok(7u8));
    assert_eq!(
        opcode_from_lookup::<Op>(None),
        Err(CpuError::UnrecognizedInstruction)
    );
}

#[test]
fn register_fields_of_known_words() {
    // addu $v0, $a0, $a1: rs = 4, rt = 5, rd = 2
    let addu = Instruction(0x0085_1021);
    assert_eq!(addu.rs(), 4);
    assert_eq!(addu.rt(), 5);
    assert_eq!(addu.rd(), 2);
    // lw $t1, 4($sp): rs = 29, rt = 9
    let lw = Instruction(0x8fa9_0004);
    assert_eq!(lw.rs(), 29);
    assert_eq!(lw.rt(), 9);
    assert_eq!(lw.imm(), 4);
    assert_eq!(lw.offset(), 4);
}

#[test]
fn fields_at_their_limits() {
    let ones = Instruction(0xffff_ffff);
    assert_eq!(ones.rs(), 31);
    assert_eq!(ones.rt(), 31);
    assert_eq!(ones.rd(), 31);
    assert_eq!(ones.imm(), 0xffff);
    let zero = Instruction(0);
    assert_eq!(zero.rs(), 0);
    assert_eq!(zero.rt(), 0);
    assert_eq!(zero.rd(), 0);
    assert_eq!(zero.imm(), 0);
    // one field set at a time
    assert_eq!(Instruction(0x03e0_0000).rs(), 31);
    assert_eq!(Instruction(0x03e0_0000).rt(), 0);
    assert_eq!(Instruction(0x001f_0000).rt(), 31);
    assert_eq!(Instruction(0x001f_0000).rs(), 0);
    assert_eq!(Instruction(0x001f_0000).rd(), 0);
    assert_eq!(Instruction(0x0000_f800).rd(), 31);
    assert_eq!(Instruction(0x0000_f800).rt(), 0);
    assert_eq!(Instruction(0x0000_f800).imm(), 0xf800);
}

#[test]
fn immediate_format_round_trip() {
    let imms = [0u32, 1, 0x7ff, 0x800, 0x7fff, 0x8000, 0xabcd, 0xffff];
    for rs in 0u32..32 {
        for rt in 0u32..32 {
            for imm in imms {
                let i = Instruction(word(0x2b, rs, rt, imm));
                assert_eq!(i.rs(), rs as usize);
                assert_eq!(i.rt(), rt as usize);
                assert_eq!(i.imm(), imm);
                assert_eq!(i.offset(), imm);
                assert_eq!(i.rd(), imm >> 11);
                assert_eq!(i.opcode_bits(), 0x2b);
            }
        }
    }
}

#[test]
fn register_format_round_trip() {
    for rs in [0u32, 1, 17, 31] {
        for rt in [0u32, 2, 21, 31] {
            for rd in 0u32..32 {
                for low in [0u32, 0x21, 0x7ff] {
                    let i = Instruction(word(0, rs, rt, (rd << 11) | low));
                    assert_eq!(i.rs(), rs as usize);
                    assert_eq!(i.rt(), rt as usize);
                    assert_eq!(i.rd(), rd);
                    assert_eq!(i.imm(), (rd << 11) | low);
                }
            }
        }
    }
}

#[test]
fn destination_and_immediate_share_bits() {
    // rd = 1 placed over imm = 0: the immediate reads the register's bit
    let i = Instruction((1 << 11) | 0);
    assert_eq!(i.rd(), 1);
    assert_eq!(i.imm(), 0x0800);
    // rd = 0 placed over imm = 0xffff: the register reads the immediate's bits
    let j = Instruction(0xffff);
    assert_eq!(j.rd(), 31);
    assert_eq!(j.imm(), 0xffff);
}

#[test]
fn sign_extension_of_minus_one() {
    let i = Instruction(0x2408_ffff);
    assert_eq!(i.imm(), 0xffff);
    assert_eq!(i.imm_sign_extended(), 0xffff_ffff_ffff_ffff);
    assert_eq!(i.imm_sign_extended() as i64, -1);
    assert_eq!(i.offset_sign_extended(), u64::MAX);
}

#[test]
fn sign_extension_of_largest_positive() {
    let i = Instruction(0x2408_7fff);
    assert_eq!(i.imm_sign_extended(), 0x7fff);
    assert_eq!(i.offset_sign_extended(), 0x7fff);
}

#[test]
fn sign_extension_around_the_sign_bit() {
    assert_eq!(Instruction(0x0000_8000).imm_sign_extended(), 0xffff_ffff_ffff_8000);
    assert_eq!(Instruction(0x0000_8000).imm_sign_extended() as i64, -32768);
    assert_eq!(Instruction(0x0000_0000).imm_sign_extended(), 0);
    assert_eq!(Instruction(0x0000_0001).imm_sign_extended(), 1);
    assert_eq!(Instruction(0x0000_fffe).imm_sign_extended() as i64, -2);
    // bits above the immediate do not reach the result
    assert_eq!(Instruction(0xffff_0001).imm_sign_extended(), 1);
    assert_eq!(Instruction(0xffff_7fff).offset_sign_extended(), 0x7fff);
}

#[test]
fn sign_extension_agrees_with_i16_for_every_pattern() {
    for low in 0u32..=0xffff {
        let i = Instruction(0xac00_0000 | low);
        let expected = (low as u16 as i16) as i64;
        assert_eq!(i.imm_sign_extended() as i64, expected);
        assert_eq!(i.offset_sign_extended(), i.imm_sign_extended());
        assert_eq!(i.imm_sign_extended() & 0xffff, low as u64);
    }
}
