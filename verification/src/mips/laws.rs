//! What holds of the codec as a whole: reading and writing are inverse to
//! each other, and no two instructions share a word.

use crate::mips::instruction::Instruction;
use crate::mips::operand::Register;
use crate::mips::word::{
    break_word, co, code10, code20, cofun, cop_word, funct, i_word, immediate,
    index, j_word, lemma_address_of_index, lemma_break_fields, lemma_bytes_of_word,
    lemma_cop_fields, lemma_field_bounds, lemma_i_fields, lemma_index_of_address, lemma_j_fields,
    lemma_r_fields, lemma_trap_fields, lemma_word_of_bytes, lemma_word_of_fields, opcode, r_word,
    rd, rs, rt, sa, trap_word, word_of_bytes,
};
use vstd::prelude::*;

verus! {

/// The fields of every word that a layout builds, for all field values at once.
proof fn lemma_layouts()
    ensures
        forall|op: u32, s: u32, t: u32, d: u32, a: u32, f: u32|
            op < 64 && s < 32 && t < 32 && d < 32 && a < 32 && f < 64 ==> {
                let w = #[trigger] r_word(op, s, t, d, a, f);
                &&& opcode(w) == op
                &&& rs(w) == s
                &&& rt(w) == t
                &&& rd(w) == d
                &&& sa(w) == a
                &&& funct(w) == f
                &&& (s < 16 ==> co(w) == 0)
            },
        forall|op: u32, s: u32, t: u32, v: i16|
            op < 64 && s < 32 && t < 32 ==> {
                let w = #[trigger] i_word(op, s, t, v);
                &&& opcode(w) == op
                &&& rs(w) == s
                &&& rt(w) == t
                &&& immediate(w) == v
                &&& (s < 16 ==> co(w) == 0)
            },
        forall|op: u32, i: u32|
            op < 64 && i < 0x400_0000 ==> {
                let w = #[trigger] j_word(op, i);
                opcode(w) == op && index(w) == i
            },
        forall|s: u32, t: u32, code: u32, f: u32|
            s < 32 && t < 32 && code < 1024 && f < 64 ==> {
                let w = #[trigger] trap_word(s, t, code, f);
                &&& opcode(w) == 0
                &&& rs(w) == s
                &&& rt(w) == t
                &&& code10(w) == code
                &&& funct(w) == f
            },
        forall|code: u32, f: u32|
            code < 0x10_0000 && f < 64 ==> {
                let w = #[trigger] break_word(code, f);
                opcode(w) == 0 && code20(w) == code && funct(w) == f
            },
        forall|op: u32, c: u32|
            op < 64 && c < 0x200_0000 ==> {
                let w = #[trigger] cop_word(op, c);
                opcode(w) == op && co(w) == 1 && cofun(w) == c
            },
{
    assert forall|op: u32, s: u32, t: u32, d: u32, a: u32, f: u32|
        op < 64 && s < 32 && t < 32 && d < 32 && a < 32 && f < 64 implies {
            let w = #[trigger] r_word(op, s, t, d, a, f);
            &&& opcode(w) == op
            &&& rs(w) == s
            &&& rt(w) == t
            &&& rd(w) == d
            &&& sa(w) == a
            &&& funct(w) == f
            &&& (s < 16 ==> co(w) == 0)
        } by {
        lemma_r_fields(op, s, t, d, a, f);
    }
    assert forall|op: u32, s: u32, t: u32, v: i16| op < 64 && s < 32 && t < 32 implies {
        let w = #[trigger] i_word(op, s, t, v);
        &&& opcode(w) == op
        &&& rs(w) == s
        &&& rt(w) == t
        &&& immediate(w) == v
        &&& (s < 16 ==> co(w) == 0)
    } by {
        lemma_i_fields(op, s, t, v);
    }
    assert forall|op: u32, i: u32| op < 64 && i < 0x400_0000 implies {
        let w = #[trigger] j_word(op, i);
        opcode(w) == op && index(w) == i
    } by {
        lemma_j_fields(op, i);
    }
    assert forall|s: u32, t: u32, code: u32, f: u32|
        s < 32 && t < 32 && code < 1024 && f < 64 implies {
            let w = #[trigger] trap_word(s, t, code, f);
            &&& opcode(w) == 0
            &&& rs(w) == s
            &&& rt(w) == t
            &&& code10(w) == code
            &&& funct(w) == f
        } by {
        lemma_trap_fields(s, t, code, f);
    }
    assert forall|code: u32, f: u32| code < 0x10_0000 && f < 64 implies {
        let w = #[trigger] break_word(code, f);
        opcode(w) == 0 && code20(w) == code && funct(w) == f
    } by {
        lemma_break_fields(code, f);
    }
    assert forall|op: u32, c: u32| op < 64 && c < 0x200_0000 implies {
        let w = #[trigger] cop_word(op, c);
        opcode(w) == op && co(w) == 1 && cofun(w) == c
    } by {
        lemma_cop_fields(op, c);
    }
}

/// The opcodes of coprocessors 1 and 2 in each group of four, and the fields
/// by which the six fixed words are told from every other.
proof fn lemma_constants()
    ensures
        0x10u32 | 1 == 0x11,
        0x10u32 | 2 == 0x12,
        0x30u32 | 1 == 0x31,
        0x30u32 | 2 == 0x32,
        0x34u32 | 1 == 0x35,
        0x34u32 | 2 == 0x36,
        0x38u32 | 1 == 0x39,
        0x38u32 | 2 == 0x3a,
        0x3cu32 | 1 == 0x3d,
        0x3cu32 | 2 == 0x3e,
        opcode(0x0000_000f) == 0 && funct(0x0000_000f) == 0x0f,
        opcode(0x4200_0001) == 0x10 && co(0x4200_0001) == 1,
        opcode(0x4200_0002) == 0x10 && co(0x4200_0002) == 1,
        opcode(0x4200_0006) == 0x10 && co(0x4200_0006) == 1,
        opcode(0x4200_0008) == 0x10 && co(0x4200_0008) == 1,
        opcode(0x4200_0018) == 0x10 && co(0x4200_0018) == 1,
{
    assert({
        &&& 0x10u32 | 1 == 0x11
        &&& 0x10u32 | 2 == 0x12
        &&& 0x30u32 | 1 == 0x31
        &&& 0x30u32 | 2 == 0x32
        &&& 0x34u32 | 1 == 0x35
        &&& 0x34u32 | 2 == 0x36
        &&& 0x38u32 | 1 == 0x39
        &&& 0x38u32 | 2 == 0x3a
        &&& 0x3cu32 | 1 == 0x3d
        &&& 0x3cu32 | 2 == 0x3e
        &&& opcode(0x0000_000f) == 0 && funct(0x0000_000f) == 0x0f
        &&& opcode(0x4200_0001) == 0x10 && co(0x4200_0001) == 1
        &&& opcode(0x4200_0002) == 0x10 && co(0x4200_0002) == 1
        &&& opcode(0x4200_0006) == 0x10 && co(0x4200_0006) == 1
        &&& opcode(0x4200_0008) == 0x10 && co(0x4200_0008) == 1
        &&& opcode(0x4200_0018) == 0x10 && co(0x4200_0018) == 1
    }) by (bit_vector);
}

/// The instructions of opcode 0, which the function code tells apart.
spec fn under_special(i: Instruction) -> bool {
    i is ADD || i is ADDU || i is SUB || i is SUBU || i is AND || i is OR || i is XOR || i is NOR
        || i is SLT || i is SLTU || i is DADD || i is DADDU || i is DSUB || i is DSUBU || i is SLL
        || i is SRL || i is SRA || i is DSLL || i is DSRL || i is DSRA || i is DSLL32 || i is DSRL32
        || i is DSRA32 || i is SLLV || i is SRLV || i is SRAV || i is DSLLV || i is DSRLV
        || i is DSRAV || i is MULT || i is MULTU || i is DIV || i is DIVU || i is DMULT
        || i is DMULTU || i is DDIV || i is DDIVU || i is MFHI || i is MFLO || i is MTHI
        || i is MTLO || i is JR || i is JALR || i is TGE || i is TGEU || i is TLT || i is TLTU
        || i is TEQ || i is TNE || i is SYSCALL || i is BREAK || i is SYNC
}

/// The instructions of opcode 1, which the `rt` field tells apart.
spec fn under_regimm(i: Instruction) -> bool {
    i is BLTZ || i is BGEZ || i is BLTZL || i is BGEZL || i is BLTZAL || i is BGEZAL || i is BLTZALL
        || i is BGEZALL || i is TGEI || i is TGEIU || i is TLTI || i is TLTIU || i is TEQI
        || i is TNEI
}

/// The instructions of the coprocessor opcodes 0x10 to 0x12.
spec fn under_coprocessor(i: Instruction) -> bool {
    i is MFC0 || i is DMFC0 || i is MTC0 || i is DMTC0 || i is MFCz || i is CFCz || i is MTCz
        || i is CTCz || i is BCzF || i is BCzT || i is BCzFL || i is BCzTL || i is COPz || i is TLBR
        || i is TLBWI || i is TLBWR || i is TLBP || i is ERET
}

/// Jumps, branches and immediate arithmetic, each with an opcode of its own.
spec fn with_own_opcode(i: Instruction) -> bool {
    i is J || i is JAL || i is BEQ || i is BNE || i is BEQL || i is BNEL || i is BLEZ || i is BGTZ
        || i is BLEZL || i is BGTZL || i is ADDI || i is ADDIU || i is SLTI || i is SLTIU
        || i is ANDI || i is ORI || i is XORI || i is DADDI || i is DADDIU || i is LUI
}

/// Loads, stores and the cache operation, each with an opcode of its own.
spec fn with_memory_opcode(i: Instruction) -> bool {
    i is LDL || i is LDR || i is LB || i is LH || i is LWL || i is LW || i is LBU || i is LHU
        || i is LWR || i is LWU || i is SB || i is SH || i is SWL || i is SW || i is SDL || i is SDR
        || i is SWR || i is LL || i is LLD || i is LD || i is SC || i is SCD || i is SD
        || i is CACHE || i is LWCz || i is LDCz || i is SWCz || i is SDCz
}

/// The word of a well-formed instruction of this group is read as the instruction.
proof fn lemma_complete_under_special(i: Instruction)
    requires
        i.wf(),
        under_special(i),
    ensures
        Instruction::decoding(i.encoding()) == Some(i),
{
    lemma_layouts();
    lemma_constants();
    Register::lemma_numbered();
}

/// The word of a well-formed instruction of this group is read as the instruction.
proof fn lemma_complete_under_regimm(i: Instruction)
    requires
        i.wf(),
        under_regimm(i),
    ensures
        Instruction::decoding(i.encoding()) == Some(i),
{
    lemma_layouts();
    lemma_constants();
    Register::lemma_numbered();
}

/// The word of a well-formed instruction of this group is read as the instruction.
proof fn lemma_complete_under_coprocessor(i: Instruction)
    requires
        i.wf(),
        under_coprocessor(i),
    ensures
        Instruction::decoding(i.encoding()) == Some(i),
{
    lemma_layouts();
    lemma_constants();
    Register::lemma_numbered();
}

/// The word of a well-formed instruction of this group is read as the instruction.
proof fn lemma_complete_with_own_opcode(i: Instruction)
    requires
        i.wf(),
        with_own_opcode(i),
    ensures
        Instruction::decoding(i.encoding()) == Some(i),
{
    lemma_layouts();
    lemma_constants();
    Register::lemma_numbered();
    match i {
        Instruction::J(target) | Instruction::JAL(target) => lemma_index_of_address(target),
        _ => {},
    }
}

/// The word of a well-formed instruction of this group is read as the instruction.
proof fn lemma_complete_with_memory_opcode(i: Instruction)
    requires
        i.wf(),
        with_memory_opcode(i),
    ensures
        Instruction::decoding(i.encoding()) == Some(i),
{
    lemma_layouts();
    lemma_constants();
    Register::lemma_numbered();
}

/// A word that is read as an instruction is the word of that instruction, and
/// the instruction is well-formed.
pub proof fn decoding_is_sound(w: u32)
    ensures
        Instruction::decoding(w) matches Some(i) ==> i.wf() && i.encoding() == w,
{
    lemma_field_bounds(w);
    lemma_word_of_fields(w);
    lemma_address_of_index(index(w));
    lemma_constants();
    Register::lemma_numbered();
}

/// The word of a well-formed instruction is read as that instruction.
pub proof fn decoding_is_complete(i: Instruction)
    requires
        i.wf(),
    ensures
        Instruction::decoding(i.encoding()) == Some(i),
{
    if under_special(i) {
        lemma_complete_under_special(i);
    } else if under_regimm(i) {
        lemma_complete_under_regimm(i);
    } else if under_coprocessor(i) {
        lemma_complete_under_coprocessor(i);
    } else if with_own_opcode(i) {
        lemma_complete_with_own_opcode(i);
    } else {
        lemma_complete_with_memory_opcode(i);
    }
}

/// No two well-formed instructions have the same word.
pub proof fn encoding_is_injective(a: Instruction, b: Instruction)
    requires
        a.wf(),
        b.wf(),
        a.encoding() == b.encoding(),
    ensures
        a == b,
{
    decoding_is_complete(a);
    decoding_is_complete(b);
}

/// A word that is read as no instruction is the word of no well-formed
/// instruction.
pub proof fn unread_word_is_no_encoding(w: u32, i: Instruction)
    requires
        Instruction::decoding(w) is None,
        i.wf(),
    ensures
        i.encoding() != w,
{
    decoding_is_complete(i);
}

/// Four bytes that are read as an instruction are the bytes of that
/// instruction: reading and then writing gives the bytes back.
pub proof fn decode_then_encode(bytes: Seq<u8>)
    requires
        bytes.len() == 4,
    ensures
        Instruction::decoded(bytes) matches Some(i) ==> i.wf() && i.encoded() == bytes,
{
    decoding_is_sound(word_of_bytes(bytes));
    lemma_word_of_bytes(bytes);
}

/// The bytes of a well-formed instruction are read as that instruction:
/// writing and then reading gives the instruction back.
pub proof fn encode_then_decode(i: Instruction)
    requires
        i.wf(),
    ensures
        i.encoded().len() == 4,
        Instruction::decoded(i.encoded()) == Some(i),
{
    decoding_is_complete(i);
    lemma_bytes_of_word(i.encoding());
}

/// No two well-formed instructions have the same bytes.
pub proof fn encoded_is_injective(a: Instruction, b: Instruction)
    requires
        a.wf(),
        b.wf(),
        a.encoded() == b.encoded(),
    ensures
        a == b,
{
    encode_then_decode(a);
    encode_then_decode(b);
}

} // verus!
