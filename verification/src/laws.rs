//! What holds of every word the packers produce, and of every recipe call.

use vstd::prelude::*;
use crate::encode::{
    funct3, funct7, i_word, opcode5, r_word, rshamt_word, sb_word, shamt_funct7, u_word,
};
use crate::ir::{Function, Inst, InstructionData, RegUnit};
use crate::recipes::{appended, outcome, sbzero_outcome, Emission, EncodeError, Recipe};
use crate::reloc::RelocKind;
use crate::sink::{le_bytes, CodeSink, Reloc, RelocRecord};

verus! {

/// Bits 0 and 1 of a word: `3` marks a full-width instruction.
pub open spec fn width_marker(word: int) -> int {
    word % 4
}

/// Bits 2 to 6 of a word: the opcode.
pub open spec fn opcode_field(word: int) -> int {
    word / 4 % 32
}

/// Bits 7 to 11 of a word: the destination register.
pub open spec fn rd_field(word: int) -> int {
    word / 0x80 % 32
}

/// Bits 12 to 14 of a word: funct3.
pub open spec fn funct3_field(word: int) -> int {
    word / 0x1000 % 8
}

/// Bits 15 to 19 of a word: the first source register.
pub open spec fn rs1_field(word: int) -> int {
    word / 0x8000 % 32
}

/// Bits 20 to 24 of a word: the second source register.
pub open spec fn rs2_field(word: int) -> int {
    word / 0x10_0000 % 32
}

/// Bits 25 to 31 of a word: funct7.
pub open spec fn funct7_field(word: int) -> int {
    word / 0x200_0000 % 128
}

/// Bits 20 to 25 of a word: the shift amount.
pub open spec fn shamt_field(word: int) -> int {
    word / 0x10_0000 % 64
}

/// Bits 20 to 31 of a word: the twelve-bit immediate.
pub open spec fn imm12_field(word: int) -> int {
    word / 0x10_0000 % 0x1000
}

/// Bits 12 to 31 of a word: the upper immediate.
pub open spec fn imm20_field(word: int) -> int {
    word / 0x1000 % 0x10_0000
}

/// A register-register word fits in 32 bits, carries the marker, and each of
/// its fields holds its operand reduced to the width of the field: registers
/// modulo 32.
pub proof fn lemma_r_fields(bits: u16, rs1: RegUnit, rs2: RegUnit, rd: RegUnit)
    ensures
        0 <= r_word(bits, rs1, rs2, rd) <= u32::MAX,
        width_marker(r_word(bits, rs1, rs2, rd)) == 3,
        opcode_field(r_word(bits, rs1, rs2, rd)) == opcode5(bits),
        rd_field(r_word(bits, rs1, rs2, rd)) == rd as int % 32,
        funct3_field(r_word(bits, rs1, rs2, rd)) == funct3(bits),
        rs1_field(r_word(bits, rs1, rs2, rd)) == rs1 as int % 32,
        rs2_field(r_word(bits, rs1, rs2, rd)) == rs2 as int % 32,
        funct7_field(r_word(bits, rs1, rs2, rd)) == funct7(bits),
{
    assert({
        &&& 0 <= r_word(bits, rs1, rs2, rd) <= u32::MAX
        &&& width_marker(r_word(bits, rs1, rs2, rd)) == 3
        &&& opcode_field(r_word(bits, rs1, rs2, rd)) == opcode5(bits)
        &&& rd_field(r_word(bits, rs1, rs2, rd)) == rd as int % 32
        &&& funct3_field(r_word(bits, rs1, rs2, rd)) == funct3(bits)
        &&& rs1_field(r_word(bits, rs1, rs2, rd)) == rs1 as int % 32
        &&& rs2_field(r_word(bits, rs1, rs2, rd)) == rs2 as int % 32
        &&& funct7_field(r_word(bits, rs1, rs2, rd)) == funct7(bits)
    }) by (bit_vector);
}

/// A register-shift word fits in 32 bits and carries the marker. Its fields but
/// two hold their operands reduced to the width of the field. Bits 20 to 25
/// hold the shift amount modulo 64, unless an odd funct7 sets bit 25 over a
/// remainder below 32; bits 25 to 31 hold funct7, unless a remainder of 32 or
/// more sets bit 25 over an even funct7.
pub proof fn lemma_rshamt_fields(bits: u16, rs1: RegUnit, shamt: i64, rd: RegUnit)
    ensures
        0 <= rshamt_word(bits, rs1, shamt, rd) <= u32::MAX,
        width_marker(rshamt_word(bits, rs1, shamt, rd)) == 3,
        opcode_field(rshamt_word(bits, rs1, shamt, rd)) == opcode5(bits),
        rd_field(rshamt_word(bits, rs1, shamt, rd)) == rd as int % 32,
        funct3_field(rshamt_word(bits, rs1, shamt, rd)) == funct3(bits),
        rs1_field(rshamt_word(bits, rs1, shamt, rd)) == rs1 as int % 32,
        rs2_field(rshamt_word(bits, rs1, shamt, rd)) == shamt as int % 32,
        funct7_field(rshamt_word(bits, rs1, shamt, rd)) == shamt_funct7(bits, shamt),
        shamt_field(rshamt_word(bits, rs1, shamt, rd)) == shamt as int % 64 <==> funct7(bits) % 2
            == 0 || shamt as int % 64 >= 32,
        funct7_field(rshamt_word(bits, rs1, shamt, rd)) == funct7(bits) <==> funct7(bits) % 2
            == 1 || shamt as int % 64 < 32,
{
    assert({
        &&& 0 <= rshamt_word(bits, rs1, shamt, rd) <= u32::MAX
        &&& width_marker(rshamt_word(bits, rs1, shamt, rd)) == 3
        &&& opcode_field(rshamt_word(bits, rs1, shamt, rd)) == opcode5(bits)
        &&& rd_field(rshamt_word(bits, rs1, shamt, rd)) == rd as int % 32
        &&& funct3_field(rshamt_word(bits, rs1, shamt, rd)) == funct3(bits)
        &&& rs1_field(rshamt_word(bits, rs1, shamt, rd)) == rs1 as int % 32
        &&& rs2_field(rshamt_word(bits, rs1, shamt, rd)) == shamt as int % 32
        &&& funct7_field(rshamt_word(bits, rs1, shamt, rd)) == shamt_funct7(bits, shamt)
    }) by (bit_vector);
    assert({
        &&& shamt_field(rshamt_word(bits, rs1, shamt, rd)) == shamt as int % 64 <==> funct7(bits)
            % 2 == 0 || shamt as int % 64 >= 32
        &&& funct7_field(rshamt_word(bits, rs1, shamt, rd)) == funct7(bits) <==> funct7(bits) % 2
            == 1 || shamt as int % 64 < 32
    }) by (bit_vector);
}

/// A register-immediate word fits in 32 bits, carries the marker, and each of
/// its fields holds its operand reduced to the width of the field: registers
/// modulo 32, the immediate modulo 4096.
pub proof fn lemma_i_fields(bits: u16, rs1: RegUnit, imm: i64, rd: RegUnit)
    ensures
        0 <= i_word(bits, rs1, imm, rd) <= u32::MAX,
        width_marker(i_word(bits, rs1, imm, rd)) == 3,
        opcode_field(i_word(bits, rs1, imm, rd)) == opcode5(bits),
        rd_field(i_word(bits, rs1, imm, rd)) == rd as int % 32,
        funct3_field(i_word(bits, rs1, imm, rd)) == funct3(bits),
        rs1_field(i_word(bits, rs1, imm, rd)) == rs1 as int % 32,
        imm12_field(i_word(bits, rs1, imm, rd)) == imm as int % 0x1000,
{
    assert({
        &&& 0 <= i_word(bits, rs1, imm, rd) <= u32::MAX
        &&& width_marker(i_word(bits, rs1, imm, rd)) == 3
        &&& opcode_field(i_word(bits, rs1, imm, rd)) == opcode5(bits)
        &&& rd_field(i_word(bits, rs1, imm, rd)) == rd as int % 32
        &&& funct3_field(i_word(bits, rs1, imm, rd)) == funct3(bits)
        &&& rs1_field(i_word(bits, rs1, imm, rd)) == rs1 as int % 32
        &&& imm12_field(i_word(bits, rs1, imm, rd)) == imm as int % 0x1000
    }) by (bit_vector);
}

/// An upper-immediate word fits in 32 bits and carries the marker. Its opcode
/// and register fields hold their operands reduced to the width of the field,
/// and bits 12 to 31 are bits 12 to 31 of the immediate. The low twelve bits
/// of the word come from the marker, the opcode and the register alone.
pub proof fn lemma_u_fields(bits: u16, imm: i64, rd: RegUnit)
    ensures
        0 <= u_word(bits, imm, rd) <= u32::MAX,
        width_marker(u_word(bits, imm, rd)) == 3,
        opcode_field(u_word(bits, imm, rd)) == opcode5(bits),
        rd_field(u_word(bits, imm, rd)) == rd as int % 32,
        imm20_field(u_word(bits, imm, rd)) == imm as int / 0x1000 % 0x10_0000,
        u_word(bits, imm, rd) % 0x1000 == 3 + 4 * opcode5(bits) + 0x80 * (rd as int % 32),
{
    assert({
        &&& 0 <= u_word(bits, imm, rd) <= u32::MAX
        &&& width_marker(u_word(bits, imm, rd)) == 3
        &&& opcode_field(u_word(bits, imm, rd)) == opcode5(bits)
        &&& rd_field(u_word(bits, imm, rd)) == rd as int % 32
        &&& imm20_field(u_word(bits, imm, rd)) == imm as int / 0x1000 % 0x10_0000
        &&& u_word(bits, imm, rd) % 0x1000 == 3 + 4 * opcode5(bits) + 0x80 * (rd as int % 32)
    }) by (bit_vector);
}

/// The low twelve bits of the immediate leave no trace in an upper-immediate
/// word: two immediates that agree above them give the same word.
pub proof fn lemma_u_drops_low_bits(bits: u16, imm: i64, other: i64, rd: RegUnit)
    requires
        imm as int / 0x1000 == other as int / 0x1000,
    ensures
        u_word(bits, imm, rd) == u_word(bits, other, rd),
{
}

/// A branch word fits in 32 bits, carries the marker, and each of its fields
/// holds its operand reduced to the width of the field: registers modulo 32.
/// The bits of the displacement are zero.
pub proof fn lemma_sb_fields(bits: u16, rs1: RegUnit, rs2: RegUnit)
    ensures
        0 <= sb_word(bits, rs1, rs2) <= u32::MAX,
        width_marker(sb_word(bits, rs1, rs2)) == 3,
        opcode_field(sb_word(bits, rs1, rs2)) == opcode5(bits),
        funct3_field(sb_word(bits, rs1, rs2)) == funct3(bits),
        rs1_field(sb_word(bits, rs1, rs2)) == rs1 as int % 32,
        rs2_field(sb_word(bits, rs1, rs2)) == rs2 as int % 32,
        rd_field(sb_word(bits, rs1, rs2)) == 0,
        funct7_field(sb_word(bits, rs1, rs2)) == 0,
{
    assert({
        &&& 0 <= sb_word(bits, rs1, rs2) <= u32::MAX
        &&& width_marker(sb_word(bits, rs1, rs2)) == 3
        &&& opcode_field(sb_word(bits, rs1, rs2)) == opcode5(bits)
        &&& funct3_field(sb_word(bits, rs1, rs2)) == funct3(bits)
        &&& rs1_field(sb_word(bits, rs1, rs2)) == rs1 as int % 32
        &&& rs2_field(sb_word(bits, rs1, rs2)) == rs2 as int % 32
        &&& rd_field(sb_word(bits, rs1, rs2)) == 0
        &&& funct7_field(sb_word(bits, rs1, rs2)) == 0
    }) by (bit_vector);
}

/// A register number counts modulo 32: two numbers that leave the same
/// remainder give the same word, in every format.
pub proof fn lemma_registers_wrap(
    bits: u16,
    imm: i64,
    rs1: RegUnit,
    rs2: RegUnit,
    rd: RegUnit,
    rs1_alt: RegUnit,
    rs2_alt: RegUnit,
    rd_alt: RegUnit,
)
    requires
        rs1 as int % 32 == rs1_alt as int % 32,
        rs2 as int % 32 == rs2_alt as int % 32,
        rd as int % 32 == rd_alt as int % 32,
    ensures
        r_word(bits, rs1, rs2, rd) == r_word(bits, rs1_alt, rs2_alt, rd_alt),
        rshamt_word(bits, rs1, imm, rd) == rshamt_word(bits, rs1_alt, imm, rd_alt),
        i_word(bits, rs1, imm, rd) == i_word(bits, rs1_alt, imm, rd_alt),
        u_word(bits, imm, rd) == u_word(bits, imm, rd_alt),
        sb_word(bits, rs1, rs2) == sb_word(bits, rs1_alt, rs2_alt),
{
}

/// Every word that a recipe emits fits in 32 bits and has its bits 0 and 1
/// set: it is a full-width instruction.
pub proof fn lemma_emitted_word_is_full_width(recipe: Recipe, func: &Function, inst: Inst)
    ensures
        outcome(recipe, func, inst) matches Ok(emission) ==> 0 <= emission.word <= u32::MAX
            && width_marker(emission.word) == 3,
{
    if let Ok(emission) = outcome(recipe, func, inst) {
        let bits = func.encoding(inst).bits;
        assert forall|rs1: RegUnit, rs2: RegUnit, rd: RegUnit, imm: i64|
            {
                &&& 0 <= #[trigger] r_word(bits, rs1, rs2, rd) <= u32::MAX
                &&& width_marker(r_word(bits, rs1, rs2, rd)) == 3
                &&& 0 <= #[trigger] rshamt_word(bits, rs1, imm, rd) <= u32::MAX
                &&& width_marker(rshamt_word(bits, rs1, imm, rd)) == 3
                &&& 0 <= #[trigger] i_word(bits, rs1, imm, rd) <= u32::MAX
                &&& width_marker(i_word(bits, rs1, imm, rd)) == 3
                &&& 0 <= #[trigger] u_word(bits, imm, rd) <= u32::MAX
                &&& width_marker(u_word(bits, imm, rd)) == 3
                &&& 0 <= #[trigger] sb_word(bits, rs1, rs2) <= u32::MAX
                &&& width_marker(sb_word(bits, rs1, rs2)) == 3
            } by {
            lemma_r_fields(bits, rs1, rs2, rd);
            lemma_rshamt_fields(bits, rs1, imm, rd);
            lemma_i_fields(bits, rs1, imm, rd);
            lemma_u_fields(bits, imm, rd);
            lemma_sb_fields(bits, rs1, rs2);
        }
    }
}

/// A recipe for branches records exactly one relocation for the word it
/// emits: of the kind `Branch`, against the destination of the instruction,
/// at the offset where the word starts. The other recipes record none.
pub proof fn lemma_branch_records_one_relocation<CS: CodeSink>(
    recipe: Recipe,
    func: &Function,
    inst: Inst,
    before: CS,
    after: CS,
)
    requires
        outcome(recipe, func, inst) matches Ok(emission) && appended(before, after, emission),
    ensures
        after.code().len() == before.code().len() + 4,
        before.code().is_prefix_of(after.code()),
        match func.data(inst) {
            InstructionData::BranchIcmp { destination, .. } | InstructionData::Branch {
                destination,
                ..
            } => {
                &&& after.relocs().len() == before.relocs().len() + 1
                &&& after.relocs().drop_last() == before.relocs()
                &&& after.relocs().last() == RelocRecord {
                    offset: before.code().len(),
                    reloc: Reloc(RelocKind::Branch.ordinal()),
                    ebb: destination,
                }
            },
            _ => after.relocs() == before.relocs(),
        },
{
}

/// The word of a branch on one operand has the zero register in its second
/// register field, whatever register the operand is in.
pub proof fn lemma_sbzero_second_register_is_zero(func: &Function, inst: Inst)
    ensures
        sbzero_outcome(func, inst) matches Ok(emission) ==> rs2_field(emission.word) == 0,
{
    if let Ok(emission) = sbzero_outcome(func, inst) {
        let bits = func.encoding(inst).bits;
        assert forall|rs1: RegUnit| rs2_field(#[trigger] sb_word(bits, rs1, 0)) == 0 by {
            lemma_sb_fields(bits, rs1, 0);
        }
    }
}

/// A recipe that is handed an instruction of another format than its own
/// fails with `FormatMismatch`, which holds the instruction as it was found.
pub proof fn lemma_mismatch_is_fatal(recipe: Recipe, func: &Function, inst: Inst)
    requires
        func.has_inst(inst),
        recipe.format() is Some,
        recipe.format() != Some(func.data(inst).format()),
    ensures
        outcome(recipe, func, inst) == Err::<Emission, EncodeError>(
            EncodeError::FormatMismatch {
                expected: recipe.format()->0,
                found: func.data(inst),
            },
        ),
{
}

/// The four bytes that a sink takes for a word hold the word, least
/// significant byte first: no two words have the same bytes.
pub proof fn lemma_le_bytes_hold_the_word(word: u32)
    ensures
        le_bytes(word as int).len() == 4,
        le_bytes(word as int)[0] + 0x100 * le_bytes(word as int)[1] + 0x1_0000 * le_bytes(
            word as int,
        )[2] + 0x100_0000 * le_bytes(word as int)[3] == word,
{
    assert(word % 256 + 0x100 * (word / 0x100 % 256) + 0x1_0000 * (word / 0x1_0000 % 256)
        + 0x100_0000 * (word / 0x100_0000 % 256) == word) by (bit_vector);
}

} // verus!
