//! The bit fields of a 32-bit instruction word, and the layouts that place them.
//!
//! A layout is written as a spec function from field values to the word; the
//! lemmas below say that the fields of a word built by a layout are the values
//! it was built from, and that a word is rebuilt from its own fields.

use vstd::prelude::*;

verus! {

/// Bits 31..26, the primary opcode.
pub open spec fn opcode(w: u32) -> u32 {
    w >> 26
}

/// Bits 25..21.
pub open spec fn rs(w: u32) -> u32 {
    (w >> 21) & 0x1f
}

/// Bits 20..16.
pub open spec fn rt(w: u32) -> u32 {
    (w >> 16) & 0x1f
}

/// Bits 15..11.
pub open spec fn rd(w: u32) -> u32 {
    (w >> 11) & 0x1f
}

/// Bits 10..6, the shift amount.
pub open spec fn sa(w: u32) -> u32 {
    (w >> 6) & 0x1f
}

/// Bits 5..0, the function code of the register layout.
pub open spec fn funct(w: u32) -> u32 {
    w & 0x3f
}

/// Bits 15..0, read as a signed number.
pub open spec fn immediate(w: u32) -> i16 {
    (w & 0xffff) as u16 as i16
}

/// Bits 25..0, the word index of a jump.
pub open spec fn index(w: u32) -> u32 {
    w & 0x3ff_ffff
}

/// Bits 15..6, the code of a conditional trap.
pub open spec fn code10(w: u32) -> u32 {
    (w >> 6) & 0x3ff
}

/// Bits 25..6, the code of a system call or breakpoint.
pub open spec fn code20(w: u32) -> u32 {
    (w >> 6) & 0xf_ffff
}

/// Bit 25, set in a coprocessor operation.
pub open spec fn co(w: u32) -> u32 {
    (w >> 25) & 1
}

/// Bits 24..0, the function of a coprocessor operation.
pub open spec fn cofun(w: u32) -> u32 {
    w & 0x1ff_ffff
}

/// The sixteen bits that stand for a signed immediate.
pub open spec fn immediate_bits(v: i16) -> u32 {
    v as u16 as u32
}

/// Register layout: opcode, three registers, shift amount, function code.
pub open spec fn r_word(op: u32, s: u32, t: u32, d: u32, a: u32, f: u32) -> u32 {
    op << 26 | s << 21 | t << 16 | d << 11 | a << 6 | f
}

/// Immediate layout: opcode, two registers, sixteen signed bits.
pub open spec fn i_word(op: u32, s: u32, t: u32, v: i16) -> u32 {
    op << 26 | s << 21 | t << 16 | immediate_bits(v)
}

/// Jump layout: opcode and a word index of 26 bits.
pub open spec fn j_word(op: u32, index: u32) -> u32 {
    op << 26 | index
}

/// Trap layout under opcode 0: two registers, a code of 10 bits, function code.
pub open spec fn trap_word(s: u32, t: u32, code: u32, f: u32) -> u32 {
    s << 21 | t << 16 | code << 6 | f
}

/// Breakpoint layout under opcode 0: a code of 20 bits and the function code.
pub open spec fn break_word(code: u32, f: u32) -> u32 {
    code << 6 | f
}

/// Coprocessor operation: opcode, bit 25 set, a function of 25 bits.
pub open spec fn cop_word(op: u32, cofun: u32) -> u32 {
    op << 26 | 1u32 << 25 | cofun
}

/// The word that four bytes spell, most significant byte first.
pub open spec fn word_of_bytes(b: Seq<u8>) -> u32 {
    (b[0] as u32) << 24 | (b[1] as u32) << 16 | (b[2] as u32) << 8 | (b[3] as u32)
}

/// The four bytes of a word, most significant byte first.
pub open spec fn bytes_of_word(w: u32) -> Seq<u8> {
    seq![(w >> 24) as u8, (w >> 16) as u8, (w >> 8) as u8, w as u8]
}

/// The fields of a word in the register layout are the values it was built from.
pub proof fn lemma_r_fields(op: u32, s: u32, t: u32, d: u32, a: u32, f: u32)
    requires
        op < 64,
        s < 32,
        t < 32,
        d < 32,
        a < 32,
        f < 64,
    ensures
        opcode(r_word(op, s, t, d, a, f)) == op,
        rs(r_word(op, s, t, d, a, f)) == s,
        rt(r_word(op, s, t, d, a, f)) == t,
        rd(r_word(op, s, t, d, a, f)) == d,
        sa(r_word(op, s, t, d, a, f)) == a,
        funct(r_word(op, s, t, d, a, f)) == f,
        s < 16 ==> co(r_word(op, s, t, d, a, f)) == 0,
{
    assert({
        let w = r_word(op, s, t, d, a, f);
        &&& opcode(w) == op
        &&& rs(w) == s
        &&& rt(w) == t
        &&& rd(w) == d
        &&& sa(w) == a
        &&& funct(w) == f
        &&& (s < 16 ==> co(w) == 0)
    }) by (bit_vector)
        requires
            op < 64,
            s < 32,
            t < 32,
            d < 32,
            a < 32,
            f < 64,
    ;
}

/// The fields of a word in the immediate layout are the values it was built from.
pub proof fn lemma_i_fields(op: u32, s: u32, t: u32, v: i16)
    requires
        op < 64,
        s < 32,
        t < 32,
    ensures
        opcode(i_word(op, s, t, v)) == op,
        rs(i_word(op, s, t, v)) == s,
        rt(i_word(op, s, t, v)) == t,
        immediate(i_word(op, s, t, v)) == v,
        s < 16 ==> co(i_word(op, s, t, v)) == 0,
{
    assert({
        let w = i_word(op, s, t, v);
        &&& opcode(w) == op
        &&& rs(w) == s
        &&& rt(w) == t
        &&& immediate(w) == v
        &&& (s < 16 ==> co(w) == 0)
    }) by (bit_vector)
        requires
            op < 64,
            s < 32,
            t < 32,
    ;
}

/// The fields of a word in the jump layout are the values it was built from.
pub proof fn lemma_j_fields(op: u32, i: u32)
    requires
        op < 64,
        i < 0x400_0000,
    ensures
        opcode(j_word(op, i)) == op,
        index(j_word(op, i)) == i,
{
    assert(opcode(j_word(op, i)) == op && index(j_word(op, i)) == i) by (bit_vector)
        requires
            op < 64,
            i < 0x400_0000,
    ;
}

/// The fields of a word in the trap layout are the values it was built from.
pub proof fn lemma_trap_fields(s: u32, t: u32, code: u32, f: u32)
    requires
        s < 32,
        t < 32,
        code < 1024,
        f < 64,
    ensures
        opcode(trap_word(s, t, code, f)) == 0,
        rs(trap_word(s, t, code, f)) == s,
        rt(trap_word(s, t, code, f)) == t,
        code10(trap_word(s, t, code, f)) == code,
        funct(trap_word(s, t, code, f)) == f,
{
    assert({
        let w = trap_word(s, t, code, f);
        &&& opcode(w) == 0
        &&& rs(w) == s
        &&& rt(w) == t
        &&& code10(w) == code
        &&& funct(w) == f
    }) by (bit_vector)
        requires
            s < 32,
            t < 32,
            code < 1024,
            f < 64,
    ;
}

/// The fields of a word in the breakpoint layout are the values it was built from.
pub proof fn lemma_break_fields(code: u32, f: u32)
    requires
        code < 0x10_0000,
        f < 64,
    ensures
        opcode(break_word(code, f)) == 0,
        code20(break_word(code, f)) == code,
        funct(break_word(code, f)) == f,
{
    assert({
        let w = break_word(code, f);
        &&& opcode(w) == 0
        &&& code20(w) == code
        &&& funct(w) == f
    }) by (bit_vector)
        requires
            code < 0x10_0000,
            f < 64,
    ;
}

/// The fields of a coprocessor operation are the values it was built from.
pub proof fn lemma_cop_fields(op: u32, c: u32)
    requires
        op < 64,
        c < 0x200_0000,
    ensures
        opcode(cop_word(op, c)) == op,
        co(cop_word(op, c)) == 1,
        cofun(cop_word(op, c)) == c,
{
    assert({
        let w = cop_word(op, c);
        &&& opcode(w) == op
        &&& co(w) == 1
        &&& cofun(w) == c
    }) by (bit_vector)
        requires
            op < 64,
            c < 0x200_0000,
    ;
}

/// Every field of a word lies within its width.
pub proof fn lemma_field_bounds(w: u32)
    ensures
        opcode(w) < 64,
        rs(w) < 32,
        rt(w) < 32,
        rd(w) < 32,
        sa(w) < 32,
        funct(w) < 64,
        index(w) < 0x400_0000,
        code10(w) < 1024,
        code20(w) < 0x10_0000,
        co(w) < 2,
        cofun(w) < 0x200_0000,
{
    assert({
        &&& opcode(w) < 64
        &&& rs(w) < 32
        &&& rt(w) < 32
        &&& rd(w) < 32
        &&& sa(w) < 32
        &&& funct(w) < 64
        &&& index(w) < 0x400_0000
        &&& code10(w) < 1024
        &&& code20(w) < 0x10_0000
        &&& co(w) < 2
        &&& cofun(w) < 0x200_0000
    }) by (bit_vector);
}

/// A word is rebuilt from its own fields, in each layout that covers all its bits.
pub proof fn lemma_word_of_fields(w: u32)
    ensures
        r_word(opcode(w), rs(w), rt(w), rd(w), sa(w), funct(w)) == w,
        i_word(opcode(w), rs(w), rt(w), immediate(w)) == w,
        j_word(opcode(w), index(w)) == w,
        opcode(w) == 0 ==> trap_word(rs(w), rt(w), code10(w), funct(w)) == w,
        opcode(w) == 0 ==> break_word(code20(w), funct(w)) == w,
        co(w) == 1 ==> cop_word(opcode(w), cofun(w)) == w,
{
    assert({
        &&& r_word(opcode(w), rs(w), rt(w), rd(w), sa(w), funct(w)) == w
        &&& i_word(opcode(w), rs(w), rt(w), immediate(w)) == w
        &&& j_word(opcode(w), index(w)) == w
        &&& (opcode(w) == 0 ==> trap_word(rs(w), rt(w), code10(w), funct(w)) == w)
        &&& (opcode(w) == 0 ==> break_word(code20(w), funct(w)) == w)
        &&& (co(w) == 1 ==> cop_word(opcode(w), cofun(w)) == w)
    }) by (bit_vector);
}

/// A word address of 26 bits and the aligned byte address of 28 bits that it
/// stands for determine each other.
pub proof fn lemma_index_of_address(address: u32)
    requires
        address % 4 == 0,
        address < 0x1000_0000,
    ensures
        address >> 2 < 0x400_0000,
        (address >> 2) << 2 == address,
{
    assert(address >> 2 < 0x400_0000 && (address >> 2) << 2 == address) by (bit_vector)
        requires
            address % 4 == 0,
            address < 0x1000_0000,
    ;
}

/// The byte address of a word index is aligned, has 28 bits, and gives the index back.
pub proof fn lemma_address_of_index(i: u32)
    requires
        i < 0x400_0000,
    ensures
        (i << 2) % 4 == 0,
        i << 2 < 0x1000_0000,
        (i << 2) >> 2 == i,
{
    assert((i << 2) % 4 == 0 && i << 2 < 0x1000_0000 && (i << 2) >> 2 == i) by (bit_vector)
        requires
            i < 0x400_0000,
    ;
}

/// Four bytes and the word they spell determine each other.
pub proof fn lemma_bytes_of_word(w: u32)
    ensures
        bytes_of_word(w).len() == 4,
        word_of_bytes(bytes_of_word(w)) == w,
{
    let b0 = (w >> 24) as u8;
    let b1 = (w >> 16) as u8;
    let b2 = (w >> 8) as u8;
    let b3 = w as u8;
    assert((b0 as u32) << 24 | (b1 as u32) << 16 | (b2 as u32) << 8 | (b3 as u32) == w)
        by (bit_vector)
        requires
            b0 == (w >> 24) as u8,
            b1 == (w >> 16) as u8,
            b2 == (w >> 8) as u8,
            b3 == w as u8,
    ;
}

/// The bytes of the word that four bytes spell are those four bytes.
pub proof fn lemma_word_of_bytes(b: Seq<u8>)
    requires
        b.len() == 4,
    ensures
        bytes_of_word(word_of_bytes(b)) == b,
{
    let (b0, b1, b2, b3) = (b[0], b[1], b[2], b[3]);
    let w = word_of_bytes(b);
    assert((w >> 24) as u8 == b0 && (w >> 16) as u8 == b1 && (w >> 8) as u8 == b2 && w as u8
        == b3) by (bit_vector)
        requires
            w == (b0 as u32) << 24 | (b1 as u32) << 16 | (b2 as u32) << 8 | (b3 as u32),
    ;
    assert(bytes_of_word(w) =~= b);
}

/// Bits 31..26 of a word.
pub(crate) fn field_opcode(w: u32) -> (v: u32)
    ensures
        v == opcode(w),
        v < 64,
{
    proof {
        lemma_field_bounds(w);
    }
    w >> 26
}

/// Bits 25..21 of a word.
pub(crate) fn field_rs(w: u32) -> (v: u32)
    ensures
        v == rs(w),
        v < 32,
{
    proof {
        lemma_field_bounds(w);
    }
    (w >> 21) & 0x1f
}

/// Bits 20..16 of a word.
pub(crate) fn field_rt(w: u32) -> (v: u32)
    ensures
        v == rt(w),
        v < 32,
{
    proof {
        lemma_field_bounds(w);
    }
    (w >> 16) & 0x1f
}

/// Bits 15..11 of a word.
pub(crate) fn field_rd(w: u32) -> (v: u32)
    ensures
        v == rd(w),
        v < 32,
{
    proof {
        lemma_field_bounds(w);
    }
    (w >> 11) & 0x1f
}

/// Bits 10..6 of a word.
pub(crate) fn field_sa(w: u32) -> (v: u32)
    ensures
        v == sa(w),
        v < 32,
{
    proof {
        lemma_field_bounds(w);
    }
    (w >> 6) & 0x1f
}

/// Bits 5..0 of a word.
pub(crate) fn field_funct(w: u32) -> (v: u32)
    ensures
        v == funct(w),
        v < 64,
{
    proof {
        lemma_field_bounds(w);
    }
    w & 0x3f
}

/// Bits 25..0 of a word.
pub(crate) fn field_index(w: u32) -> (v: u32)
    ensures
        v == index(w),
        v < 0x400_0000,
{
    proof {
        lemma_field_bounds(w);
    }
    w & 0x3ff_ffff
}

/// Bits 15..6 of a word.
pub(crate) fn field_code10(w: u32) -> (v: u32)
    ensures
        v == code10(w),
        v < 1024,
{
    proof {
        lemma_field_bounds(w);
    }
    (w >> 6) & 0x3ff
}

/// Bits 25..6 of a word.
pub(crate) fn field_code20(w: u32) -> (v: u32)
    ensures
        v == code20(w),
        v < 0x10_0000,
{
    proof {
        lemma_field_bounds(w);
    }
    (w >> 6) & 0xf_ffff
}

/// Bit 25 of a word.
pub(crate) fn field_co(w: u32) -> (v: u32)
    ensures
        v == co(w),
        v < 2,
{
    proof {
        lemma_field_bounds(w);
    }
    (w >> 25) & 1
}

/// Bits 24..0 of a word.
pub(crate) fn field_cofun(w: u32) -> (v: u32)
    ensures
        v == cofun(w),
        v < 0x200_0000,
{
    proof {
        lemma_field_bounds(w);
    }
    w & 0x1ff_ffff
}

/// Bits 15..0 of a word, read as a signed number.
pub(crate) fn field_immediate(w: u32) -> (v: i16)
    ensures
        v == immediate(w),
{
    (w & 0xffff) as u16 as i16
}

/// Builds a word in the register layout.
pub(crate) fn pack_r(op: u32, s: u32, t: u32, d: u32, a: u32, f: u32) -> (w: u32)
    ensures
        w == r_word(op, s, t, d, a, f),
{
    op << 26 | s << 21 | t << 16 | d << 11 | a << 6 | f
}

/// Builds a word in the immediate layout.
pub(crate) fn pack_i(op: u32, s: u32, t: u32, v: i16) -> (w: u32)
    ensures
        w == i_word(op, s, t, v),
{
    op << 26 | s << 21 | t << 16 | (v as u16 as u32)
}

/// Builds a word in the jump layout.
pub(crate) fn pack_j(op: u32, index: u32) -> (w: u32)
    ensures
        w == j_word(op, index),
{
    op << 26 | index
}

/// Builds a word in the trap layout.
pub(crate) fn pack_trap(s: u32, t: u32, code: u32, f: u32) -> (w: u32)
    ensures
        w == trap_word(s, t, code, f),
{
    s << 21 | t << 16 | code << 6 | f
}

/// Builds a word in the breakpoint layout.
pub(crate) fn pack_break(code: u32, f: u32) -> (w: u32)
    ensures
        w == break_word(code, f),
{
    code << 6 | f
}

/// Builds the word of a coprocessor operation.
pub(crate) fn pack_cop(op: u32, cofun: u32) -> (w: u32)
    ensures
        w == cop_word(op, cofun),
{
    op << 26 | 1u32 << 25 | cofun
}

/// Reads four bytes as a word, most significant byte first.
pub(crate) fn word_from_bytes(b: [u8; 4]) -> (w: u32)
    ensures
        w == word_of_bytes(b@),
{
    (b[0] as u32) << 24 | (b[1] as u32) << 16 | (b[2] as u32) << 8 | (b[3] as u32)
}

/// Writes a word as four bytes, most significant byte first.
pub(crate) fn bytes_from_word(w: u32) -> (b: [u8; 4])
    ensures
        b@ == bytes_of_word(w),
{
    [(w >> 24) as u8, (w >> 16) as u8, (w >> 8) as u8, w as u8]
}

} // verus!
