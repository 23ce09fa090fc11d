use riscv_binemit::encode::{put_i, put_r, put_rshamt, put_sb, put_u};
use riscv_binemit::sink::MemorySink;

fn word(sink: &MemorySink, index: usize) -> u32 {
    let b = &sink.bytes[4 * index..4 * index + 4];
    u32::from_le_bytes([b[0], b[1], b[2], b[3]])
}

fn field(word: u32, low: u32, width: u32) -> u32 {
    (word >> low) & ((1u32 << width) - 1)
}

fn bits(opcode: u16, funct3: u16, funct7: u16) -> u16 {
    opcode | (funct3 << 5) | (funct7 << 8)
}

fn r(bits: u16, rs1: u16, rs2: u16, rd: u16) -> u32 {
    let mut sink = MemorySink::new();
    put_r(bits, rs1, rs2, rd, &mut sink);
    assert_eq!(sink.bytes.len(), 4);
    assert!(sink.pending.is_empty());
    word(&sink, 0)
}

fn rshamt(bits: u16, rs1: u16, shamt: i64, rd: u16) -> u32 {
    let mut sink = MemorySink::new();
    put_rshamt(bits, rs1, shamt, rd, &mut sink);
    assert_eq!(sink.bytes.len(), 4);
    assert!(sink.pending.is_empty());
    word(&sink, 0)
}

fn i(bits: u16, rs1: u16, imm: i64, rd: u16) -> u32 {
    let mut sink = MemorySink::new();
    put_i(bits, rs1, imm, rd, &mut sink);
    assert_eq!(sink.bytes.len(), 4);
    assert!(sink.pending.is_empty());
    word(&sink, 0)
}

fn u(bits: u16, imm: i64, rd: u16) -> u32 {
    let mut sink = MemorySink::new();
    put_u(bits, imm, rd, &mut sink);
    assert_eq!(sink.bytes.len(), 4);
    assert!(sink.pending.is_empty());
    word(&sink, 0)
}

fn sb(bits: u16, rs1: u16, rs2: u16) -> u32 {
    let mut sink = MemorySink::new();
    put_sb(bits, rs1, rs2, &mut sink);
    assert_eq!(sink.bytes.len(), 4);
    assert!(sink.pending.is_empty());
    word(&sink, 0)
}

#[test]
fn r_type_add_is_bit_exact() {
    let mut sink = MemorySink::new();
    put_r(bits(0x0c, 0x0, 0x00), 1, 2, 3, &mut sink);
    assert_eq!(sink.bytes, vec![0xb3, 0x81, 0x20, 0x00]);
    assert_eq!(word(&sink, 0), 0b0000000_00010_00001_000_00011_01100_11);
    assert_eq!(word(&sink, 0), 0x002081b3);
}

#[test]
fn r_type_fields_hold_the_operands() {
    let w = r(bits(0x0c, 0x5, 0x20), 17, 30, 9);
    assert_eq!(field(w, 0, 2), 0b11);
    assert_eq!(field(w, 2, 5), 0x0c);
    assert_eq!(field(w, 7, 5), 9);
    assert_eq!(field(w, 12, 3), 0x5);
    assert_eq!(field(w, 15, 5), 17);
    assert_eq!(field(w, 20, 5), 30);
    assert_eq!(field(w, 25, 7), 0x20);
    assert_eq!(w, 0x41e8d4b3);
}

#[test]
fn r_type_all_ones() {
    assert_eq!(r(0xffff, 0xffff, 0xffff, 0xffff), 0xffffffff);
    assert_eq!(r(0, 0, 0, 0), 0x00000003);
}

#[test]
fn r_type_ignores_bit_15_of_the_descriptor() {
    assert_eq!(r(0x8000 | bits(0x0c, 0, 0), 1, 2, 3), 0x002081b3);
}

#[test]
fn register_37_packs_like_register_5() {
    let b = bits(0x0c, 0x0, 0x00);
    assert_eq!(r(b, 37, 2, 3), r(b, 5, 2, 3));
    assert_eq!(r(b, 1, 37, 3), r(b, 1, 5, 3));
    assert_eq!(r(b, 1, 2, 37), r(b, 1, 2, 5));
    assert_eq!(rshamt(b, 37, 1, 37), rshamt(b, 5, 1, 5));
    assert_eq!(i(b, 37, 1, 37), i(b, 5, 1, 5));
    assert_eq!(u(b, 0x1000, 37), u(b, 0x1000, 5));
    assert_eq!(sb(b, 37, 37), sb(b, 5, 5));
    assert_eq!(field(r(b, 37, 2, 3), 15, 5), 5);
}

#[test]
fn shift_amount_goes_into_bits_20_to_25() {
    // srai x2, x1, 3
    assert_eq!(rshamt(bits(0x04, 0x5, 0x20), 1, 3, 2), 0x4030d113);
    // slli x2, x1, 63
    let w = rshamt(bits(0x04, 0x1, 0x00), 1, 63, 2);
    assert_eq!(w, 0x03f09113);
    assert_eq!(field(w, 20, 6), 63);
    assert_eq!(field(w, 15, 5), 1);
    assert_eq!(field(w, 7, 5), 2);
    assert_eq!(field(w, 12, 3), 1);
    assert_eq!(field(w, 2, 5), 0x04);
    assert_eq!(field(w, 0, 2), 0b11);
}

#[test]
fn shift_amount_wraps_at_64() {
    let b = bits(0x04, 0x1, 0x00);
    assert_eq!(rshamt(b, 1, 64 + 3, 2), rshamt(b, 1, 3, 2));
    assert_eq!(rshamt(b, 1, 64, 2), rshamt(b, 1, 0, 2));
    assert_eq!(field(rshamt(b, 1, -1, 2), 20, 6), 63);
    assert_eq!(field(rshamt(b, 1, i64::MIN, 2), 20, 6), 0);
    assert_eq!(field(rshamt(b, 1, i64::MAX, 2), 20, 6), 63);
    assert_eq!(field(rshamt(b, 1, 100, 2), 20, 6), 36);
}

#[test]
fn shift_amount_and_funct7_share_bit_25() {
    // An odd funct7 sets bit 25 over a shift amount below 32.
    let w = rshamt(bits(0x04, 0x1, 0x01), 1, 0, 2);
    assert_eq!(w, 0x02009113);
    assert_eq!(field(w, 20, 6), 32);
    assert_eq!(field(w, 25, 7), 1);
    // A shift amount of 32 or more sets bit 25 over an even funct7.
    let w = rshamt(bits(0x04, 0x5, 0x20), 1, 32, 2);
    assert_eq!(w, 0x4200d113);
    assert_eq!(field(w, 20, 6), 32);
    assert_eq!(field(w, 25, 7), 0x21);
    // Both at once.
    let w = rshamt(bits(0x04, 0x1, 0x01), 1, 33, 2);
    assert_eq!(field(w, 20, 6), 33);
    assert_eq!(field(w, 25, 7), 1);
}

#[test]
fn i_type_immediate_goes_into_bits_20_to_31() {
    // addi x2, x1, -1
    assert_eq!(i(bits(0x04, 0x0, 0), 1, -1, 2), 0xfff08113);
    // addi x2, x1, 2047
    let w = i(bits(0x04, 0x0, 0), 1, 2047, 2);
    assert_eq!(w, 0x7ff08113);
    assert_eq!(field(w, 20, 12), 2047);
    // addi x2, x1, -2048
    let w = i(bits(0x04, 0x0, 0), 1, -2048, 2);
    assert_eq!(w, 0x80008113);
    assert_eq!(w >> 31, 1);
}

#[test]
fn i_type_immediate_wraps_at_4096() {
    let b = bits(0x04, 0x3, 0);
    assert_eq!(i(b, 1, 4096 + 5, 2), i(b, 1, 5, 2));
    assert_eq!(field(i(b, 1, 0x12345, 2), 20, 12), 0x345);
    assert_eq!(field(i(b, 1, i64::MIN, 2), 20, 12), 0);
    assert_eq!(field(i(b, 1, i64::MAX, 2), 20, 12), 0xfff);
}

#[test]
fn i_type_ignores_funct7_of_the_descriptor() {
    assert_eq!(i(bits(0x04, 0x0, 0x7f), 1, -1, 2), 0xfff08113);
}

#[test]
fn u_type_lui_scenario() {
    let w = u(bits(0x0d, 0, 0), 0x12345678, 5);
    assert_eq!(w >> 12, 0x12345);
    assert_eq!(field(w, 7, 5), 5);
    assert_eq!(field(w, 2, 5), 0x0d);
    assert_eq!(field(w, 0, 2), 0b11);
    assert_eq!(w, 0x123452b7);
    // Nothing of the immediate's low twelve bits is left in the word.
    assert_eq!(w, u(bits(0x0d, 0, 0), 0x12345000, 5));
    assert_eq!(w & 0xfff, u(bits(0x0d, 0, 0), 0, 5));
}

#[test]
fn u_type_low_bits_do_not_depend_on_the_immediate() {
    let b = bits(0x05, 0, 0);
    for imm in [0i64, 1, 0xfff, 0x1000, 0x7fff_ffff, -1, i64::MIN, i64::MAX, 0xdead_beef] {
        let w = u(b, imm, 9);
        assert_eq!(w & 0xfff, 0x497);
        assert_eq!(w >> 12, ((imm >> 12) & 0xfffff) as u32);
        assert_eq!(w, u(b, imm | 0xfff, 9));
        assert_eq!(w, u(b, imm & !0xfff, 9));
    }
}

#[test]
fn u_type_ignores_funct3_and_funct7_of_the_descriptor() {
    assert_eq!(u(bits(0x0d, 0x7, 0x7f), 0x12345678, 5), 0x123452b7);
}

#[test]
fn sb_type_leaves_the_displacement_zero() {
    // beq x1, x2, 0
    let w = sb(bits(0x18, 0x0, 0), 1, 2);
    assert_eq!(w, 0x00208063);
    // bne x31, x30, 0
    let w = sb(bits(0x18, 0x1, 0), 31, 30);
    assert_eq!(w, 0x01ef9063);
    assert_eq!(field(w, 7, 5), 0);
    assert_eq!(field(w, 25, 7), 0);
    assert_eq!(field(w, 15, 5), 31);
    assert_eq!(field(w, 20, 5), 30);
    assert_eq!(field(w, 12, 3), 1);
    assert_eq!(field(w, 2, 5), 0x18);
    // funct7 of the descriptor has no place in a branch.
    assert_eq!(sb(bits(0x18, 0x1, 0x7f), 31, 30), 0x01ef9063);
}

#[test]
fn every_word_is_marked_full_width() {
    for b in [0u16, 0x0c, 0x7fff, 0xffff, 0x8000, 0x20a4] {
        for reg in [0u16, 1, 31, 32, 37, 0xffff] {
            for imm in [0i64, -1, 63, 0x12345678, i64::MIN, i64::MAX] {
                assert_eq!(r(b, reg, reg, reg) & 3, 3);
                assert_eq!(rshamt(b, reg, imm, reg) & 3, 3);
                assert_eq!(i(b, reg, imm, reg) & 3, 3);
                assert_eq!(u(b, imm, reg) & 3, 3);
                assert_eq!(sb(b, reg, reg) & 3, 3);
            }
        }
    }
}

#[test]
fn packers_append_to_what_is_there() {
    let mut sink = MemorySink::new();
    put_r(bits(0x0c, 0, 0), 1, 2, 3, &mut sink);
    put_u(bits(0x0d, 0, 0), 0x12345678, 5, &mut sink);
    put_i(bits(0x04, 0, 0), 1, -1, 2, &mut sink);
    put_rshamt(bits(0x04, 0x5, 0x20), 1, 3, 2, &mut sink);
    put_sb(bits(0x18, 0, 0), 1, 2, &mut sink);
    assert_eq!(
        sink.bytes,
        vec![
            0xb3, 0x81, 0x20, 0x00, 0xb7, 0x52, 0x34, 0x12, 0x13, 0x81, 0xf0, 0xff, 0x13, 0xd1,
            0x30, 0x40, 0x63, 0x80, 0x20, 0x00,
        ]
    );
    assert!(sink.pending.is_empty());
}
