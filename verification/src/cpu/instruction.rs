use crate::bits::{extract, field};
use crate::error::CpuError;
use vstd::prelude::*;

verus! {

/// The operation code occupies bits 31:26.
pub const OPCODE_SHIFT: u32 = 26;

/// The operation code is six bits wide.
pub const OPCODE_MASK: u32 = 0x3f;

/// The first source register occupies bits 25:21.
pub const RS_SHIFT: u32 = 21;

/// The second source register occupies bits 20:16.
pub const RT_SHIFT: u32 = 16;

/// The destination register occupies bits 15:11.
pub const RD_SHIFT: u32 = 11;

/// A register index is five bits wide.
pub const REGISTER_MASK: u32 = 0x1f;

/// The immediate value occupies bits 15:0.
pub const IMM_SHIFT: u32 = 0;

/// The immediate value is sixteen bits wide.
pub const IMM_MASK: u32 = 0xffff;

/// A raw 32-bit instruction word.
///
/// The word is laid out, from the top bit down, as a 6-bit operation code,
/// two 5-bit register indices `rs` and `rt`, and 16 low bits that hold either
/// an immediate value or a third register index `rd` in their top 5 bits.
#[derive(Clone, Copy, Debug, PartialEq, Eq, Structural)]
pub struct Instruction(pub u32);

/// Bits 31:26 of an instruction word: the primary operation code.
pub open spec fn opcode_field(word: u32) -> u32 {
    field(word, OPCODE_SHIFT, OPCODE_MASK)
}

/// Bits 25:21 of an instruction word: the first source register.
pub open spec fn rs_field(word: u32) -> u32 {
    field(word, RS_SHIFT, REGISTER_MASK)
}

/// Bits 20:16 of an instruction word: the second source register.
pub open spec fn rt_field(word: u32) -> u32 {
    field(word, RT_SHIFT, REGISTER_MASK)
}

/// Bits 15:11 of an instruction word: the destination register.
pub open spec fn rd_field(word: u32) -> u32 {
    field(word, RD_SHIFT, REGISTER_MASK)
}

/// Bits 15:0 of an instruction word: the immediate value or offset.
pub open spec fn imm_field(word: u32) -> u32 {
    field(word, IMM_SHIFT, IMM_MASK)
}

/// The 64-bit two's-complement widening of a 16-bit pattern: patterns with
/// bit 15 clear keep their value, the others stand for `low - 65536`.
pub open spec fn sign_extend_16(low: u32) -> u64
    recommends
        low < 0x1_0000,
{
    if low < 0x8000 {
        low as u64
    } else {
        (0xffff_ffff_ffff_0000 + low) as u64
    }
}

/// The outcome of decoding an opcode, given what the opcode table answered.
pub open spec fn opcode_outcome<O>(found: Option<O>) -> Result<O, CpuError> {
    match found {
        Some(op) => Ok(op),
        None => Err(CpuError::UnrecognizedInstruction),
    }
}

/// Turns the opcode table's answer into the result of the decode: a known
/// operation is passed on, a missing one is an unrecognized instruction.
pub fn opcode_from_lookup<O>(found: Option<O>) -> (r: Result<O, CpuError>)
    ensures
        r == opcode_outcome(found),
{
    match found {
        Some(op) => Ok(op),
        None => Err(CpuError::UnrecognizedInstruction),
    }
}

impl Instruction {
    /// The primary operation code, bits 31:26, as a number below 64.
    pub fn opcode_bits(&self) -> (r: u32)
        ensures
            r == opcode_field(self.0),
            r < 64,
    {
        extract(self.0, OPCODE_SHIFT, OPCODE_MASK)
    }

    /// The operation named by bits 31:26.
    ///
    /// The table of operations belongs to the caller: `lookup` is asked once,
    /// with the 6-bit code, and answers with the operation or with `None`.
    /// A code without an operation is an `UnrecognizedInstruction`.
    pub fn opcode<O, F: Fn(u32) -> Option<O>>(&self, lookup: F) -> (r: Result<O, CpuError>)
        requires
            forall|code: u32| code < 64 ==> lookup.requires((code,)),
        ensures
            exists|found: Option<O>|
                lookup.ensures((opcode_field(self.0),), found) && r == opcode_outcome(found),
    {
        let found: Option<O> = lookup(self.opcode_bits());
        opcode_from_lookup(found)
    }

    /// The first source register, bits 25:21.
    pub fn rs(&self) -> (r: usize)
        ensures
            r == rs_field(self.0),
            r < 32,
    {
        extract(self.0, RS_SHIFT, REGISTER_MASK) as usize
    }

    /// The second source register, bits 20:16.
    pub fn rt(&self) -> (r: usize)
        ensures
            r == rt_field(self.0),
            r < 32,
    {
        extract(self.0, RT_SHIFT, REGISTER_MASK) as usize
    }

    /// The immediate value, bits 15:0, unsigned.
    pub fn imm(&self) -> (r: u32)
        ensures
            r == imm_field(self.0),
            r < 0x1_0000,
    {
        extract(self.0, IMM_SHIFT, IMM_MASK)
    }

    /// The branch or memory offset: the same 16 bits as the immediate value.
    pub fn offset(&self) -> (r: u32)
        ensures
            r == imm_field(self.0),
            r < 0x1_0000,
    {
        self.imm()
    }

    /// The immediate value read as a signed 16-bit number and widened to 64
    /// bits with its sign kept.
    pub fn imm_sign_extended(&self) -> (r: u64)
        ensures
            r == sign_extend_16(imm_field(self.0)),
    {
        let low: u32 = self.imm();
        assert((low as i16) as u64 == if low < 0x8000 {
            low as u64
        } else {
            (0xffff_ffff_ffff_0000 + low) as u64
        }) by (bit_vector)
            requires
                low < 0x1_0000,
        ;
        (low as i16) as u64
    }

    /// The offset read as a signed 16-bit number and widened to 64 bits.
    pub fn offset_sign_extended(&self) -> (r: u64)
        ensures
            r == sign_extend_16(imm_field(self.0)),
    {
        self.imm_sign_extended()
    }

    /// The destination register, bits 15:11.
    pub fn rd(&self) -> (r: u32)
        ensures
            r == rd_field(self.0),
            r < 32,
    {
        extract(self.0, RD_SHIFT, REGISTER_MASK)
    }
}

/// The word that holds `op` in the operation code, `rs` and `rt` in the two
/// source register fields, `rd` in the destination register field and `imm`
/// in the immediate field. The last two fields share bits 15:11.
pub open spec fn placed(op: u32, rs: u32, rt: u32, rd: u32, imm: u32) -> u32 {
    (op << OPCODE_SHIFT) | (rs << RS_SHIFT) | (rt << RT_SHIFT) | (rd << RD_SHIFT) | imm
}

/// Values placed into the fields of a word are read back unchanged: the
/// operation code and both source registers always, the destination register
/// and the immediate value exactly when they agree on the bits they share,
/// that is when `rd` is the top five bits of `imm`.
pub proof fn lemma_placed_fields_recovered(op: u32, rs: u32, rt: u32, rd: u32, imm: u32)
    by (bit_vector)
    requires
        op <= OPCODE_MASK,
        rs <= REGISTER_MASK,
        rt <= REGISTER_MASK,
        rd <= REGISTER_MASK,
        imm <= IMM_MASK,
    ensures
        opcode_field(placed(op, rs, rt, rd, imm)) == op,
        rs_field(placed(op, rs, rt, rd, imm)) == rs,
        rt_field(placed(op, rs, rt, rd, imm)) == rt,
        (rd_field(placed(op, rs, rt, rd, imm)) == rd && imm_field(placed(op, rs, rt, rd, imm))
            == imm) <==> rd == imm >> RD_SHIFT,
{
}

/// An instruction in immediate format, which leaves the destination register
/// field to the immediate value, gives back its immediate value whole.
pub proof fn lemma_immediate_format_recovered(op: u32, rs: u32, rt: u32, imm: u32)
    by (bit_vector)
    requires
        op <= OPCODE_MASK,
        rs <= REGISTER_MASK,
        rt <= REGISTER_MASK,
        imm <= IMM_MASK,
    ensures
        opcode_field(placed(op, rs, rt, 0, imm)) == op,
        rs_field(placed(op, rs, rt, 0, imm)) == rs,
        rt_field(placed(op, rs, rt, 0, imm)) == rt,
        imm_field(placed(op, rs, rt, 0, imm)) == imm,
{
}

/// An instruction in register format, which uses only the low eleven bits
/// below the destination register, gives back all three register indices.
pub proof fn lemma_register_format_recovered(op: u32, rs: u32, rt: u32, rd: u32, low: u32)
    by (bit_vector)
    requires
        op <= OPCODE_MASK,
        rs <= REGISTER_MASK,
        rt <= REGISTER_MASK,
        rd <= REGISTER_MASK,
        low < 0x800,
    ensures
        opcode_field(placed(op, rs, rt, rd, low)) == op,
        rs_field(placed(op, rs, rt, rd, low)) == rs,
        rt_field(placed(op, rs, rt, rd, low)) == rt,
        rd_field(placed(op, rs, rt, rd, low)) == rd,
{
}

/// Sign extension keeps the number: the low sixteen bits of the result are
/// the pattern itself, and the result read as a signed 64-bit number is the
/// pattern read as a signed 16-bit number.
pub proof fn lemma_sign_extension_keeps_value(low: u32)
    by (bit_vector)
    requires
        low <= IMM_MASK,
    ensures
        sign_extend_16(low) & 0xffff == low,
        low < 0x8000 ==> sign_extend_16(low) as i64 == low,
        low >= 0x8000 ==> sign_extend_16(low) as i64 == low - 0x1_0000,
{
}

} // verus!
