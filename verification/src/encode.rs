//! The field packers: one per base instruction format of the target.
//!
//! Every packer lays the fields of one format out in a 32-bit word and hands the
//! word to the sink. An operand wider than its field wraps, as the hardware
//! field would.

use vstd::prelude::*;
use crate::ir::RegUnit;
use crate::sink::{code_with_word, CodeSink};

verus! {

/// The opcode field of an encoding descriptor: its bits 0 to 4.
pub open spec fn opcode5(bits: u16) -> int {
    bits as int % 32
}

/// The funct3 field of an encoding descriptor: its bits 5 to 7.
pub open spec fn funct3(bits: u16) -> int {
    bits as int / 32 % 8
}

/// The funct7 field of an encoding descriptor: its bits 8 to 14.
pub open spec fn funct7(bits: u16) -> int {
    bits as int / 256 % 128
}

/// The word of a register-register instruction.
///
/// ```text
///   31     24  19  14     11 6
///   funct7 rs2 rs1 funct3 rd opcode
///       25  20  15     12  7      0
/// ```
pub open spec fn r_word(bits: u16, rs1: RegUnit, rs2: RegUnit, rd: RegUnit) -> int {
    3 + 4 * opcode5(bits) + 0x80 * (rd as int % 32) + 0x1000 * funct3(bits) + 0x8000 * (rs1 as int
        % 32) + 0x10_0000 * (rs2 as int % 32) + 0x200_0000 * funct7(bits)
}

/// Emits a register-register instruction.
pub fn put_r<CS: CodeSink>(bits: u16, rs1: RegUnit, rs2: RegUnit, rd: RegUnit, sink: &mut CS)
    ensures
        final(sink).code() == code_with_word(old(sink).code(), r_word(bits, rs1, rs2, rd)),
        final(sink).relocs() == old(sink).relocs(),
{
    // Each operand is cut to the width of its field before it is shifted into place.
    let bits32: u32 = bits as u32;
    let opcode5: u32 = bits32 & 0x1f;
    let funct3: u32 = (bits32 >> 5) & 0x7;
    let funct7: u32 = (bits32 >> 8) & 0x7f;
    let rs1_5: u32 = rs1 as u32 & 0x1f;
    let rs2_5: u32 = rs2 as u32 & 0x1f;
    let rd_5: u32 = rd as u32 & 0x1f;

    // Bits 0 and 1: a full-width instruction.
    let mut i: u32 = 0x3;
    i |= opcode5 << 2;
    i |= rd_5 << 7;
    i |= funct3 << 12;
    i |= rs1_5 << 15;
    i |= rs2_5 << 20;
    i |= funct7 << 25;

    assert(i == r_word(bits, rs1, rs2, rd)) by (bit_vector)
        requires
            i == 0x3u32 | ((bits as u32 & 0x1f) << 2) | ((rd as u32 & 0x1f) << 7) | (((bits as u32
                >> 5) & 0x7) << 12) | ((rs1 as u32 & 0x1f) << 15) | ((rs2 as u32 & 0x1f) << 20) | (((
            bits as u32 >> 8) & 0x7f) << 25),
    ;
    sink.put4(i);
}

/// The seven bits above the low five of the shift amount in a register-shift
/// word. They hold funct7, and the lowest of them is also set where the shift
/// amount modulo 64 is 32 or more: both contribute to bit 25.
pub open spec fn shamt_funct7(bits: u16, shamt: i64) -> int {
    if shamt as int / 32 % 2 == 1 && funct7(bits) % 2 == 0 {
        funct7(bits) + 1
    } else {
        funct7(bits)
    }
}

/// The word of a register-register instruction that takes a shift amount in
/// place of the second source register.
///
/// ```text
///   31     25    19  14     11 6
///   funct7 shamt rs1 funct3 rd opcode
///       25    20  15     12  7      0
/// ```
pub open spec fn rshamt_word(bits: u16, rs1: RegUnit, shamt: i64, rd: RegUnit) -> int {
    3 + 4 * opcode5(bits) + 0x80 * (rd as int % 32) + 0x1000 * funct3(bits) + 0x8000 * (rs1 as int
        % 32) + 0x10_0000 * (shamt as int % 32) + 0x200_0000 * shamt_funct7(bits, shamt)
}

/// Emits a register-register instruction with a shift amount.
pub fn put_rshamt<CS: CodeSink>(bits: u16, rs1: RegUnit, shamt: i64, rd: RegUnit, sink: &mut CS)
    ensures
        final(sink).code() == code_with_word(
            old(sink).code(),
            rshamt_word(bits, rs1, shamt, rd),
        ),
        final(sink).relocs() == old(sink).relocs(),
{
    // Each operand is cut to the width of its field before it is shifted into place.
    let bits32: u32 = bits as u32;
    let opcode5: u32 = bits32 & 0x1f;
    let funct3: u32 = (bits32 >> 5) & 0x7;
    let funct7: u32 = (bits32 >> 8) & 0x7f;
    let rs1_5: u32 = rs1 as u32 & 0x1f;
    let masked: i64 = shamt & 0x3f;
    assert(0 <= masked <= 0x3f) by (bit_vector)
        requires
            masked == shamt & 0x3f,
    ;
    let shamt6: u32 = masked as u32;
    let rd_5: u32 = rd as u32 & 0x1f;

    // Bits 0 and 1: a full-width instruction.
    let mut i: u32 = 0x3;
    i |= opcode5 << 2;
    i |= rd_5 << 7;
    i |= funct3 << 12;
    i |= rs1_5 << 15;
    i |= shamt6 << 20;
    i |= funct7 << 25;

    assert(i == rshamt_word(bits, rs1, shamt, rd)) by (bit_vector)
        requires
            shamt6 == shamt & 0x3f,
            i == 0x3u32 | ((bits as u32 & 0x1f) << 2) | ((rd as u32 & 0x1f) << 7) | (((bits as u32
                >> 5) & 0x7) << 12) | ((rs1 as u32 & 0x1f) << 15) | (shamt6 << 20) | (((bits as u32
                >> 8) & 0x7f) << 25),
    ;
    sink.put4(i);
}

/// The word of a register-immediate instruction: the low twelve bits of the
/// immediate stand in bits 20 to 31.
///
/// ```text
///   31  19  14     11 6
///   imm rs1 funct3 rd opcode
///    20  15     12  7      0
/// ```
pub open spec fn i_word(bits: u16, rs1: RegUnit, imm: i64, rd: RegUnit) -> int {
    3 + 4 * opcode5(bits) + 0x80 * (rd as int % 32) + 0x1000 * funct3(bits) + 0x8000 * (rs1 as int
        % 32) + 0x10_0000 * (imm as int % 0x1000)
}

/// Emits a register-immediate instruction.
pub fn put_i<CS: CodeSink>(bits: u16, rs1: RegUnit, imm: i64, rd: RegUnit, sink: &mut CS)
    ensures
        final(sink).code() == code_with_word(old(sink).code(), i_word(bits, rs1, imm, rd)),
        final(sink).relocs() == old(sink).relocs(),
{
    // Each operand is cut to the width of its field before it is shifted into place.
    let bits32: u32 = bits as u32;
    let opcode5: u32 = bits32 & 0x1f;
    let funct3: u32 = (bits32 >> 5) & 0x7;
    let rs1_5: u32 = rs1 as u32 & 0x1f;
    let rd_5: u32 = rd as u32 & 0x1f;
    let masked: i64 = imm & 0xfff;
    assert(0 <= masked <= 0xfff) by (bit_vector)
        requires
            masked == imm & 0xfff,
    ;
    let imm12: u32 = masked as u32;

    // Bits 0 and 1: a full-width instruction.
    let mut i: u32 = 0x3;
    i |= opcode5 << 2;
    i |= rd_5 << 7;
    i |= funct3 << 12;
    i |= rs1_5 << 15;
    i |= imm12 << 20;

    assert(i == i_word(bits, rs1, imm, rd)) by (bit_vector)
        requires
            imm12 == imm & 0xfff,
            i == 0x3u32 | ((bits as u32 & 0x1f) << 2) | ((rd as u32 & 0x1f) << 7) | (((bits as u32
                >> 5) & 0x7) << 12) | ((rs1 as u32 & 0x1f) << 15) | (imm12 << 20),
    ;
    sink.put4(i);
}

/// The word of an upper-immediate instruction: bits 12 to 31 of the immediate
/// stand where they are, its low twelve bits are dropped.
///
/// ```text
///   31  11 6
///   imm rd opcode
///    12  7      0
/// ```
pub open spec fn u_word(bits: u16, imm: i64, rd: RegUnit) -> int {
    3 + 4 * opcode5(bits) + 0x80 * (rd as int % 32) + 0x1000 * (imm as int / 0x1000 % 0x10_0000)
}

/// Emits an upper-immediate instruction.
pub fn put_u<CS: CodeSink>(bits: u16, imm: i64, rd: RegUnit, sink: &mut CS)
    ensures
        final(sink).code() == code_with_word(old(sink).code(), u_word(bits, imm, rd)),
        final(sink).relocs() == old(sink).relocs(),
{
    // Each operand is cut to the width of its field before it is shifted into place.
    let bits32: u32 = bits as u32;
    let opcode5: u32 = bits32 & 0x1f;
    let rd_5: u32 = rd as u32 & 0x1f;
    let masked: i64 = imm & 0xffff_f000;
    assert(0 <= masked <= 0xffff_f000) by (bit_vector)
        requires
            masked == imm & 0xffff_f000,
    ;
    let upper: u32 = masked as u32;

    // Bits 0 and 1: a full-width instruction.
    let mut i: u32 = 0x3;
    i |= opcode5 << 2;
    i |= rd_5 << 7;
    i |= upper;

    assert(i == u_word(bits, imm, rd)) by (bit_vector)
        requires
            upper == imm & 0xffff_f000,
            i == 0x3u32 | ((bits as u32 & 0x1f) << 2) | ((rd as u32 & 0x1f) << 7) | upper,
    ;
    sink.put4(i);
}

/// The word of a comparison branch. The bits of the displacement, 7 to 11 and
/// 25 to 31, are zero: a relocation asks for them.
///
/// ```text
///   31  24  19  14     11  6
///   imm rs2 rs1 funct3 imm opcode
///    25  20  15     12   7      0
/// ```
pub open spec fn sb_word(bits: u16, rs1: RegUnit, rs2: RegUnit) -> int {
    3 + 4 * opcode5(bits) + 0x1000 * funct3(bits) + 0x8000 * (rs1 as int % 32) + 0x10_0000 * (rs2 as int
        % 32)
}

/// Emits a comparison branch without its displacement.
pub fn put_sb<CS: CodeSink>(bits: u16, rs1: RegUnit, rs2: RegUnit, sink: &mut CS)
    ensures
        final(sink).code() == code_with_word(old(sink).code(), sb_word(bits, rs1, rs2)),
        final(sink).relocs() == old(sink).relocs(),
{
    // Each operand is cut to the width of its field before it is shifted into place.
    let bits32: u32 = bits as u32;
    let opcode5: u32 = bits32 & 0x1f;
    let funct3: u32 = (bits32 >> 5) & 0x7;
    let rs1_5: u32 = rs1 as u32 & 0x1f;
    let rs2_5: u32 = rs2 as u32 & 0x1f;

    // Bits 0 and 1: a full-width instruction.
    let mut i: u32 = 0x3;
    i |= opcode5 << 2;
    i |= funct3 << 12;
    i |= rs1_5 << 15;
    i |= rs2_5 << 20;

    assert(i == sb_word(bits, rs1, rs2)) by (bit_vector)
        requires
            i == 0x3u32 | ((bits as u32 & 0x1f) << 2) | (((bits as u32 >> 5) & 0x7) << 12) | ((rs1 as u32
                & 0x1f) << 15) | ((rs2 as u32 & 0x1f) << 20),
    ;
    sink.put4(i);
}

} // verus!
