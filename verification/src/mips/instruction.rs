//! The instruction set: one variant for each mnemonic, and the word of each.

use crate::mips::laws::{decoding_is_complete, encode_then_decode};
use crate::mips::operand::{
    is_break_code, is_cache_op, is_cofun, is_jump_target, is_shift_amount, is_trap_code,
    Coprocessor, InvalidOperand, Register,
};
use crate::mips::word::{
    break_word, bytes_from_word, bytes_of_word, cop_word, i_word, j_word, pack_break, pack_cop,
    pack_i, pack_j, pack_r, pack_trap, r_word, trap_word,
};
use vstd::prelude::*;

verus! {

/// One instruction of the R4300i, with the operands that its word holds.
///
/// The variants are named as the processor's manual names the instructions. A
/// `z` in a name stands for the number of the coprocessor, which is the first
/// operand of such a variant and must be 1 or 2: coprocessor 0 has instructions
/// of its own, and the processor has no coprocessor 3.
///
/// Operands that are narrower than their native type are not cut to size when
/// an instruction is written out. A value that does not fit its field makes the
/// instruction ill-formed: see [`Instruction::wf`] and [`Instruction::checked`].
#[allow(non_camel_case_types)]
#[derive(Clone, Copy, Debug, PartialEq, Eq, Structural)]
pub enum Instruction {
    // Arithmetic and logic on registers: `rd, rs, rt`.
    ADD(Register, Register, Register),
    ADDU(Register, Register, Register),
    SUB(Register, Register, Register),
    SUBU(Register, Register, Register),
    AND(Register, Register, Register),
    OR(Register, Register, Register),
    XOR(Register, Register, Register),
    NOR(Register, Register, Register),
    SLT(Register, Register, Register),
    SLTU(Register, Register, Register),
    DADD(Register, Register, Register),
    DADDU(Register, Register, Register),
    DSUB(Register, Register, Register),
    DSUBU(Register, Register, Register),
    // Shifts by a constant: `rd, rt, sa`.
    SLL(Register, Register, u8),
    SRL(Register, Register, u8),
    SRA(Register, Register, u8),
    DSLL(Register, Register, u8),
    DSRL(Register, Register, u8),
    DSRA(Register, Register, u8),
    DSLL32(Register, Register, u8),
    DSRL32(Register, Register, u8),
    DSRA32(Register, Register, u8),
    // Shifts by a register: `rd, rt, rs`.
    SLLV(Register, Register, Register),
    SRLV(Register, Register, Register),
    SRAV(Register, Register, Register),
    DSLLV(Register, Register, Register),
    DSRLV(Register, Register, Register),
    DSRAV(Register, Register, Register),
    // Multiplication and division into HI and LO: `rs, rt`.
    MULT(Register, Register),
    MULTU(Register, Register),
    DIV(Register, Register),
    DIVU(Register, Register),
    DMULT(Register, Register),
    DMULTU(Register, Register),
    DDIV(Register, Register),
    DDIVU(Register, Register),
    // Moves from HI and LO: `rd`.
    MFHI(Register),
    MFLO(Register),
    // Moves to HI and LO: `rs`.
    MTHI(Register),
    MTLO(Register),
    // Jump to the address in a register: `rs`.
    JR(Register),
    // Jump to the address in a register and link: `rd, rs`.
    JALR(Register, Register),
    // Conditional traps on registers, with a code of 10 bits: `rs, rt, code`.
    TGE(Register, Register, u16),
    TGEU(Register, Register, u16),
    TLT(Register, Register, u16),
    TLTU(Register, Register, u16),
    TEQ(Register, Register, u16),
    TNE(Register, Register, u16),
    // System call and breakpoint, with a code of 20 bits: `code`.
    SYSCALL(u32),
    BREAK(u32),
    // Branches on the sign of a register: `rs, offset`.
    BLTZ(Register, i16),
    BGEZ(Register, i16),
    BLTZL(Register, i16),
    BGEZL(Register, i16),
    BLTZAL(Register, i16),
    BGEZAL(Register, i16),
    BLTZALL(Register, i16),
    BGEZALL(Register, i16),
    // Conditional traps against an immediate: `rs, immediate`.
    TGEI(Register, i16),
    TGEIU(Register, i16),
    TLTI(Register, i16),
    TLTIU(Register, i16),
    TEQI(Register, i16),
    TNEI(Register, i16),
    // Jumps within the current 256 MB region: `target`, a byte address.
    J(u32),
    JAL(u32),
    // Branches on two registers: `rs, rt, offset`.
    BEQ(Register, Register, i16),
    BNE(Register, Register, i16),
    BEQL(Register, Register, i16),
    BNEL(Register, Register, i16),
    // Branches on one register against zero: `rs, offset`.
    BLEZ(Register, i16),
    BGTZ(Register, i16),
    BLEZL(Register, i16),
    BGTZL(Register, i16),
    // Arithmetic and logic with an immediate: `rt, rs, immediate`.
    ADDI(Register, Register, i16),
    ADDIU(Register, Register, i16),
    SLTI(Register, Register, i16),
    SLTIU(Register, Register, i16),
    ANDI(Register, Register, i16),
    ORI(Register, Register, i16),
    XORI(Register, Register, i16),
    DADDI(Register, Register, i16),
    DADDIU(Register, Register, i16),
    // Load upper immediate: `rt, immediate`.
    LUI(Register, i16),
    // Loads and stores: `rt, offset(base)`.
    LDL(Register, i16, Register),
    LDR(Register, i16, Register),
    LB(Register, i16, Register),
    LH(Register, i16, Register),
    LWL(Register, i16, Register),
    LW(Register, i16, Register),
    LBU(Register, i16, Register),
    LHU(Register, i16, Register),
    LWR(Register, i16, Register),
    LWU(Register, i16, Register),
    SB(Register, i16, Register),
    SH(Register, i16, Register),
    SWL(Register, i16, Register),
    SW(Register, i16, Register),
    SDL(Register, i16, Register),
    SDR(Register, i16, Register),
    SWR(Register, i16, Register),
    LL(Register, i16, Register),
    LLD(Register, i16, Register),
    LD(Register, i16, Register),
    SC(Register, i16, Register),
    SCD(Register, i16, Register),
    SD(Register, i16, Register),
    // Cache operation: `op, offset(base)`.
    CACHE(u8, i16, Register),
    // Loads and stores of coprocessor 1 or 2: `rt, offset(base)`.
    LWCz(Coprocessor, Register, i16, Register),
    LDCz(Coprocessor, Register, i16, Register),
    SWCz(Coprocessor, Register, i16, Register),
    SDCz(Coprocessor, Register, i16, Register),
    // Moves between a register and the system control coprocessor: `rt, rd`.
    MFC0(Register, Register),
    DMFC0(Register, Register),
    MTC0(Register, Register),
    DMTC0(Register, Register),
    // Moves between a register and coprocessor 1 or 2: `rt, rd`.
    MFCz(Coprocessor, Register, Register),
    CFCz(Coprocessor, Register, Register),
    MTCz(Coprocessor, Register, Register),
    CTCz(Coprocessor, Register, Register),
    // Branches on the condition of coprocessor 1 or 2: `offset`.
    BCzF(Coprocessor, i16),
    BCzT(Coprocessor, i16),
    BCzFL(Coprocessor, i16),
    BCzTL(Coprocessor, i16),
    // An operation of coprocessor 1 or 2, with a function of 25 bits: `cofun`.
    COPz(Coprocessor, u32),
    // Instructions without operands, each a single word.
    SYNC,
    TLBR,
    TLBWI,
    TLBWR,
    TLBP,
    ERET,
}

impl Instruction {
    /// Every operand fits the field that the instruction's word has for it.
    pub open spec fn wf(&self) -> bool {
        match *self {
            Instruction::ADD(rd, rs, rt)
            | Instruction::ADDU(rd, rs, rt)
            | Instruction::SUB(rd, rs, rt)
            | Instruction::SUBU(rd, rs, rt)
            | Instruction::AND(rd, rs, rt)
            | Instruction::OR(rd, rs, rt)
            | Instruction::XOR(rd, rs, rt)
            | Instruction::NOR(rd, rs, rt)
            | Instruction::SLT(rd, rs, rt)
            | Instruction::SLTU(rd, rs, rt)
            | Instruction::DADD(rd, rs, rt)
            | Instruction::DADDU(rd, rs, rt)
            | Instruction::DSUB(rd, rs, rt)
            | Instruction::DSUBU(rd, rs, rt) => rd.wf() && rs.wf() && rt.wf(),
            Instruction::SLL(rd, rt, sa)
            | Instruction::SRL(rd, rt, sa)
            | Instruction::SRA(rd, rt, sa)
            | Instruction::DSLL(rd, rt, sa)
            | Instruction::DSRL(rd, rt, sa)
            | Instruction::DSRA(rd, rt, sa)
            | Instruction::DSLL32(rd, rt, sa)
            | Instruction::DSRL32(rd, rt, sa)
            | Instruction::DSRA32(rd, rt, sa) => rd.wf() && rt.wf() && is_shift_amount(sa),
            Instruction::SLLV(rd, rt, rs)
            | Instruction::SRLV(rd, rt, rs)
            | Instruction::SRAV(rd, rt, rs)
            | Instruction::DSLLV(rd, rt, rs)
            | Instruction::DSRLV(rd, rt, rs)
            | Instruction::DSRAV(rd, rt, rs) => rd.wf() && rt.wf() && rs.wf(),
            Instruction::MULT(rs, rt)
            | Instruction::MULTU(rs, rt)
            | Instruction::DIV(rs, rt)
            | Instruction::DIVU(rs, rt)
            | Instruction::DMULT(rs, rt)
            | Instruction::DMULTU(rs, rt)
            | Instruction::DDIV(rs, rt)
            | Instruction::DDIVU(rs, rt) => rs.wf() && rt.wf(),
            Instruction::MFHI(rd)
            | Instruction::MFLO(rd) => rd.wf(),
            Instruction::MTHI(rs)
            | Instruction::MTLO(rs)
            | Instruction::JR(rs) => rs.wf(),
            Instruction::JALR(rd, rs) => rd.wf() && rs.wf(),
            Instruction::TGE(rs, rt, code)
            | Instruction::TGEU(rs, rt, code)
            | Instruction::TLT(rs, rt, code)
            | Instruction::TLTU(rs, rt, code)
            | Instruction::TEQ(rs, rt, code)
            | Instruction::TNE(rs, rt, code) => rs.wf() && rt.wf() && is_trap_code(code),
            Instruction::SYSCALL(code)
            | Instruction::BREAK(code) => is_break_code(code),
            Instruction::BLTZ(rs, _)
            | Instruction::BGEZ(rs, _)
            | Instruction::BLTZL(rs, _)
            | Instruction::BGEZL(rs, _)
            | Instruction::BLTZAL(rs, _)
            | Instruction::BGEZAL(rs, _)
            | Instruction::BLTZALL(rs, _)
            | Instruction::BGEZALL(rs, _)
            | Instruction::BLEZ(rs, _)
            | Instruction::BGTZ(rs, _)
            | Instruction::BLEZL(rs, _)
            | Instruction::BGTZL(rs, _) => rs.wf(),
            Instruction::TGEI(rs, _)
            | Instruction::TGEIU(rs, _)
            | Instruction::TLTI(rs, _)
            | Instruction::TLTIU(rs, _)
            | Instruction::TEQI(rs, _)
            | Instruction::TNEI(rs, _) => rs.wf(),
            Instruction::J(target)
            | Instruction::JAL(target) => is_jump_target(target),
            Instruction::BEQ(rs, rt, _)
            | Instruction::BNE(rs, rt, _)
            | Instruction::BEQL(rs, rt, _)
            | Instruction::BNEL(rs, rt, _) => rs.wf() && rt.wf(),
            Instruction::ADDI(rt, rs, _)
            | Instruction::ADDIU(rt, rs, _)
            | Instruction::SLTI(rt, rs, _)
            | Instruction::SLTIU(rt, rs, _)
            | Instruction::ANDI(rt, rs, _)
            | Instruction::ORI(rt, rs, _)
            | Instruction::XORI(rt, rs, _)
            | Instruction::DADDI(rt, rs, _)
            | Instruction::DADDIU(rt, rs, _) => rt.wf() && rs.wf(),
            Instruction::LUI(rt, _) => rt.wf(),
            Instruction::LDL(rt, _, base)
            | Instruction::LDR(rt, _, base)
            | Instruction::LB(rt, _, base)
            | Instruction::LH(rt, _, base)
            | Instruction::LWL(rt, _, base)
            | Instruction::LW(rt, _, base)
            | Instruction::LBU(rt, _, base)
            | Instruction::LHU(rt, _, base)
            | Instruction::LWR(rt, _, base)
            | Instruction::LWU(rt, _, base)
            | Instruction::SB(rt, _, base)
            | Instruction::SH(rt, _, base)
            | Instruction::SWL(rt, _, base)
            | Instruction::SW(rt, _, base)
            | Instruction::SDL(rt, _, base)
            | Instruction::SDR(rt, _, base)
            | Instruction::SWR(rt, _, base)
            | Instruction::LL(rt, _, base)
            | Instruction::LLD(rt, _, base)
            | Instruction::LD(rt, _, base)
            | Instruction::SC(rt, _, base)
            | Instruction::SCD(rt, _, base)
            | Instruction::SD(rt, _, base) => rt.wf() && base.wf(),
            Instruction::CACHE(op, _, base) => is_cache_op(op) && base.wf(),
            Instruction::LWCz(cop, rt, _, base)
            | Instruction::LDCz(cop, rt, _, base)
            | Instruction::SWCz(cop, rt, _, base)
            | Instruction::SDCz(cop, rt, _, base) => cop.has_generic_form() && rt.wf() && base.wf(),
            Instruction::MFC0(rt, rd)
            | Instruction::DMFC0(rt, rd)
            | Instruction::MTC0(rt, rd)
            | Instruction::DMTC0(rt, rd) => rt.wf() && rd.wf(),
            Instruction::MFCz(cop, rt, rd)
            | Instruction::CFCz(cop, rt, rd)
            | Instruction::MTCz(cop, rt, rd)
            | Instruction::CTCz(cop, rt, rd) => cop.has_generic_form() && rt.wf() && rd.wf(),
            Instruction::BCzF(cop, _)
            | Instruction::BCzT(cop, _)
            | Instruction::BCzFL(cop, _)
            | Instruction::BCzTL(cop, _) => cop.has_generic_form(),
            Instruction::COPz(cop, cofun) => cop.has_generic_form() && is_cofun(cofun),
            Instruction::SYNC
            | Instruction::TLBR
            | Instruction::TLBWI
            | Instruction::TLBWR
            | Instruction::TLBP
            | Instruction::ERET => true,
        }
    }

    /// The word that stands for the instruction.
    ///
    /// Each operand is placed in its field, the opcode and function code are
    /// those of the mnemonic, and every other bit is zero.
    pub open spec fn encoding(&self) -> u32 {
        match *self {
            Instruction::ADD(rd, rs, rt) => r_word(0, rs.field(), rt.field(), rd.field(), 0, 0x20),
            Instruction::ADDU(rd, rs, rt) => r_word(0, rs.field(), rt.field(), rd.field(), 0, 0x21),
            Instruction::SUB(rd, rs, rt) => r_word(0, rs.field(), rt.field(), rd.field(), 0, 0x22),
            Instruction::SUBU(rd, rs, rt) => r_word(0, rs.field(), rt.field(), rd.field(), 0, 0x23),
            Instruction::AND(rd, rs, rt) => r_word(0, rs.field(), rt.field(), rd.field(), 0, 0x24),
            Instruction::OR(rd, rs, rt) => r_word(0, rs.field(), rt.field(), rd.field(), 0, 0x25),
            Instruction::XOR(rd, rs, rt) => r_word(0, rs.field(), rt.field(), rd.field(), 0, 0x26),
            Instruction::NOR(rd, rs, rt) => r_word(0, rs.field(), rt.field(), rd.field(), 0, 0x27),
            Instruction::SLT(rd, rs, rt) => r_word(0, rs.field(), rt.field(), rd.field(), 0, 0x2a),
            Instruction::SLTU(rd, rs, rt) => r_word(0, rs.field(), rt.field(), rd.field(), 0, 0x2b),
            Instruction::DADD(rd, rs, rt) => r_word(0, rs.field(), rt.field(), rd.field(), 0, 0x2c),
            Instruction::DADDU(rd, rs, rt) => {
                r_word(0, rs.field(), rt.field(), rd.field(), 0, 0x2d)
            },
            Instruction::DSUB(rd, rs, rt) => r_word(0, rs.field(), rt.field(), rd.field(), 0, 0x2e),
            Instruction::DSUBU(rd, rs, rt) => {
                r_word(0, rs.field(), rt.field(), rd.field(), 0, 0x2f)
            },
            Instruction::SLL(rd, rt, sa) => r_word(0, 0, rt.field(), rd.field(), sa as u32, 0x00),
            Instruction::SRL(rd, rt, sa) => r_word(0, 0, rt.field(), rd.field(), sa as u32, 0x02),
            Instruction::SRA(rd, rt, sa) => r_word(0, 0, rt.field(), rd.field(), sa as u32, 0x03),
            Instruction::DSLL(rd, rt, sa) => r_word(0, 0, rt.field(), rd.field(), sa as u32, 0x38),
            Instruction::DSRL(rd, rt, sa) => r_word(0, 0, rt.field(), rd.field(), sa as u32, 0x3a),
            Instruction::DSRA(rd, rt, sa) => r_word(0, 0, rt.field(), rd.field(), sa as u32, 0x3b),
            Instruction::DSLL32(rd, rt, sa) => {
                r_word(0, 0, rt.field(), rd.field(), sa as u32, 0x3c)
            },
            Instruction::DSRL32(rd, rt, sa) => {
                r_word(0, 0, rt.field(), rd.field(), sa as u32, 0x3e)
            },
            Instruction::DSRA32(rd, rt, sa) => {
                r_word(0, 0, rt.field(), rd.field(), sa as u32, 0x3f)
            },
            Instruction::SLLV(rd, rt, rs) => r_word(0, rs.field(), rt.field(), rd.field(), 0, 0x04),
            Instruction::SRLV(rd, rt, rs) => r_word(0, rs.field(), rt.field(), rd.field(), 0, 0x06),
            Instruction::SRAV(rd, rt, rs) => r_word(0, rs.field(), rt.field(), rd.field(), 0, 0x07),
            Instruction::DSLLV(rd, rt, rs) => {
                r_word(0, rs.field(), rt.field(), rd.field(), 0, 0x14)
            },
            Instruction::DSRLV(rd, rt, rs) => {
                r_word(0, rs.field(), rt.field(), rd.field(), 0, 0x16)
            },
            Instruction::DSRAV(rd, rt, rs) => {
                r_word(0, rs.field(), rt.field(), rd.field(), 0, 0x17)
            },
            Instruction::MULT(rs, rt) => r_word(0, rs.field(), rt.field(), 0, 0, 0x18),
            Instruction::MULTU(rs, rt) => r_word(0, rs.field(), rt.field(), 0, 0, 0x19),
            Instruction::DIV(rs, rt) => r_word(0, rs.field(), rt.field(), 0, 0, 0x1a),
            Instruction::DIVU(rs, rt) => r_word(0, rs.field(), rt.field(), 0, 0, 0x1b),
            Instruction::DMULT(rs, rt) => r_word(0, rs.field(), rt.field(), 0, 0, 0x1c),
            Instruction::DMULTU(rs, rt) => r_word(0, rs.field(), rt.field(), 0, 0, 0x1d),
            Instruction::DDIV(rs, rt) => r_word(0, rs.field(), rt.field(), 0, 0, 0x1e),
            Instruction::DDIVU(rs, rt) => r_word(0, rs.field(), rt.field(), 0, 0, 0x1f),
            Instruction::MFHI(rd) => r_word(0, 0, 0, rd.field(), 0, 0x10),
            Instruction::MFLO(rd) => r_word(0, 0, 0, rd.field(), 0, 0x12),
            Instruction::MTHI(rs) => r_word(0, rs.field(), 0, 0, 0, 0x11),
            Instruction::MTLO(rs) => r_word(0, rs.field(), 0, 0, 0, 0x13),
            Instruction::JR(rs) => r_word(0, rs.field(), 0, 0, 0, 0x08),
            Instruction::JALR(rd, rs) => r_word(0, rs.field(), 0, rd.field(), 0, 0x09),
            Instruction::TGE(rs, rt, code) => trap_word(rs.field(), rt.field(), code as u32, 0x30),
            Instruction::TGEU(rs, rt, code) => trap_word(rs.field(), rt.field(), code as u32, 0x31),
            Instruction::TLT(rs, rt, code) => trap_word(rs.field(), rt.field(), code as u32, 0x32),
            Instruction::TLTU(rs, rt, code) => trap_word(rs.field(), rt.field(), code as u32, 0x33),
            Instruction::TEQ(rs, rt, code) => trap_word(rs.field(), rt.field(), code as u32, 0x34),
            Instruction::TNE(rs, rt, code) => trap_word(rs.field(), rt.field(), code as u32, 0x36),
            Instruction::SYSCALL(code) => break_word(code, 0x0c),
            Instruction::BREAK(code) => break_word(code, 0x0d),
            Instruction::BLTZ(rs, offset) => i_word(1, rs.field(), 0x00, offset),
            Instruction::BGEZ(rs, offset) => i_word(1, rs.field(), 0x01, offset),
            Instruction::BLTZL(rs, offset) => i_word(1, rs.field(), 0x02, offset),
            Instruction::BGEZL(rs, offset) => i_word(1, rs.field(), 0x03, offset),
            Instruction::BLTZAL(rs, offset) => i_word(1, rs.field(), 0x10, offset),
            Instruction::BGEZAL(rs, offset) => i_word(1, rs.field(), 0x11, offset),
            Instruction::BLTZALL(rs, offset) => i_word(1, rs.field(), 0x12, offset),
            Instruction::BGEZALL(rs, offset) => i_word(1, rs.field(), 0x13, offset),
            Instruction::TGEI(rs, immediate) => i_word(1, rs.field(), 0x08, immediate),
            Instruction::TGEIU(rs, immediate) => i_word(1, rs.field(), 0x09, immediate),
            Instruction::TLTI(rs, immediate) => i_word(1, rs.field(), 0x0a, immediate),
            Instruction::TLTIU(rs, immediate) => i_word(1, rs.field(), 0x0b, immediate),
            Instruction::TEQI(rs, immediate) => i_word(1, rs.field(), 0x0c, immediate),
            Instruction::TNEI(rs, immediate) => i_word(1, rs.field(), 0x0e, immediate),
            Instruction::J(target) => j_word(0x02, target >> 2),
            Instruction::JAL(target) => j_word(0x03, target >> 2),
            Instruction::BEQ(rs, rt, offset) => i_word(0x04, rs.field(), rt.field(), offset),
            Instruction::BNE(rs, rt, offset) => i_word(0x05, rs.field(), rt.field(), offset),
            Instruction::BEQL(rs, rt, offset) => i_word(0x14, rs.field(), rt.field(), offset),
            Instruction::BNEL(rs, rt, offset) => i_word(0x15, rs.field(), rt.field(), offset),
            Instruction::BLEZ(rs, offset) => i_word(0x06, rs.field(), 0, offset),
            Instruction::BGTZ(rs, offset) => i_word(0x07, rs.field(), 0, offset),
            Instruction::BLEZL(rs, offset) => i_word(0x16, rs.field(), 0, offset),
            Instruction::BGTZL(rs, offset) => i_word(0x17, rs.field(), 0, offset),
            Instruction::ADDI(rt, rs, immediate) => i_word(0x08, rs.field(), rt.field(), immediate),
            Instruction::ADDIU(rt, rs, immediate) => {
                i_word(0x09, rs.field(), rt.field(), immediate)
            },
            Instruction::SLTI(rt, rs, immediate) => i_word(0x0a, rs.field(), rt.field(), immediate),
            Instruction::SLTIU(rt, rs, immediate) => {
                i_word(0x0b, rs.field(), rt.field(), immediate)
            },
            Instruction::ANDI(rt, rs, immediate) => i_word(0x0c, rs.field(), rt.field(), immediate),
            Instruction::ORI(rt, rs, immediate) => i_word(0x0d, rs.field(), rt.field(), immediate),
            Instruction::XORI(rt, rs, immediate) => i_word(0x0e, rs.field(), rt.field(), immediate),
            Instruction::DADDI(rt, rs, immediate) => {
                i_word(0x18, rs.field(), rt.field(), immediate)
            },
            Instruction::DADDIU(rt, rs, immediate) => {
                i_word(0x19, rs.field(), rt.field(), immediate)
            },
            Instruction::LUI(rt, immediate) => i_word(0x0f, 0, rt.field(), immediate),
            Instruction::LDL(rt, offset, base) => i_word(0x1a, base.field(), rt.field(), offset),
            Instruction::LDR(rt, offset, base) => i_word(0x1b, base.field(), rt.field(), offset),
            Instruction::LB(rt, offset, base) => i_word(0x20, base.field(), rt.field(), offset),
            Instruction::LH(rt, offset, base) => i_word(0x21, base.field(), rt.field(), offset),
            Instruction::LWL(rt, offset, base) => i_word(0x22, base.field(), rt.field(), offset),
            Instruction::LW(rt, offset, base) => i_word(0x23, base.field(), rt.field(), offset),
            Instruction::LBU(rt, offset, base) => i_word(0x24, base.field(), rt.field(), offset),
            Instruction::LHU(rt, offset, base) => i_word(0x25, base.field(), rt.field(), offset),
            Instruction::LWR(rt, offset, base) => i_word(0x26, base.field(), rt.field(), offset),
            Instruction::LWU(rt, offset, base) => i_word(0x27, base.field(), rt.field(), offset),
            Instruction::SB(rt, offset, base) => i_word(0x28, base.field(), rt.field(), offset),
            Instruction::SH(rt, offset, base) => i_word(0x29, base.field(), rt.field(), offset),
            Instruction::SWL(rt, offset, base) => i_word(0x2a, base.field(), rt.field(), offset),
            Instruction::SW(rt, offset, base) => i_word(0x2b, base.field(), rt.field(), offset),
            Instruction::SDL(rt, offset, base) => i_word(0x2c, base.field(), rt.field(), offset),
            Instruction::SDR(rt, offset, base) => i_word(0x2d, base.field(), rt.field(), offset),
            Instruction::SWR(rt, offset, base) => i_word(0x2e, base.field(), rt.field(), offset),
            Instruction::LL(rt, offset, base) => i_word(0x30, base.field(), rt.field(), offset),
            Instruction::LLD(rt, offset, base) => i_word(0x34, base.field(), rt.field(), offset),
            Instruction::LD(rt, offset, base) => i_word(0x37, base.field(), rt.field(), offset),
            Instruction::SC(rt, offset, base) => i_word(0x38, base.field(), rt.field(), offset),
            Instruction::SCD(rt, offset, base) => i_word(0x3c, base.field(), rt.field(), offset),
            Instruction::SD(rt, offset, base) => i_word(0x3f, base.field(), rt.field(), offset),
            Instruction::CACHE(op, offset, base) => i_word(0x2f, base.field(), op as u32, offset),
            Instruction::LWCz(cop, rt, offset, base) => {
                i_word(0x30 | cop.unit(), base.field(), rt.field(), offset)
            },
            Instruction::LDCz(cop, rt, offset, base) => {
                i_word(0x34 | cop.unit(), base.field(), rt.field(), offset)
            },
            Instruction::SWCz(cop, rt, offset, base) => {
                i_word(0x38 | cop.unit(), base.field(), rt.field(), offset)
            },
            Instruction::SDCz(cop, rt, offset, base) => {
                i_word(0x3c | cop.unit(), base.field(), rt.field(), offset)
            },
            Instruction::MFC0(rt, rd) => r_word(0x10, 0x00, rt.field(), rd.field(), 0, 0),
            Instruction::DMFC0(rt, rd) => r_word(0x10, 0x01, rt.field(), rd.field(), 0, 0),
            Instruction::MTC0(rt, rd) => r_word(0x10, 0x04, rt.field(), rd.field(), 0, 0),
            Instruction::DMTC0(rt, rd) => r_word(0x10, 0x05, rt.field(), rd.field(), 0, 0),
            Instruction::MFCz(cop, rt, rd) => {
                r_word(0x10 | cop.unit(), 0x00, rt.field(), rd.field(), 0, 0)
            },
            Instruction::CFCz(cop, rt, rd) => {
                r_word(0x10 | cop.unit(), 0x02, rt.field(), rd.field(), 0, 0)
            },
            Instruction::MTCz(cop, rt, rd) => {
                r_word(0x10 | cop.unit(), 0x04, rt.field(), rd.field(), 0, 0)
            },
            Instruction::CTCz(cop, rt, rd) => {
                r_word(0x10 | cop.unit(), 0x06, rt.field(), rd.field(), 0, 0)
            },
            Instruction::BCzF(cop, offset) => i_word(0x10 | cop.unit(), 8, 0x00, offset),
            Instruction::BCzT(cop, offset) => i_word(0x10 | cop.unit(), 8, 0x01, offset),
            Instruction::BCzFL(cop, offset) => i_word(0x10 | cop.unit(), 8, 0x02, offset),
            Instruction::BCzTL(cop, offset) => i_word(0x10 | cop.unit(), 8, 0x03, offset),
            Instruction::COPz(cop, cofun) => cop_word(0x10 | cop.unit(), cofun),
            Instruction::SYNC => 0x0000_000f,
            Instruction::TLBR => 0x4200_0001,
            Instruction::TLBWI => 0x4200_0002,
            Instruction::TLBWR => 0x4200_0006,
            Instruction::TLBP => 0x4200_0008,
            Instruction::ERET => 0x4200_0018,
        }
    }

    /// The four bytes that stand for the instruction, in big-endian order.
    pub open spec fn encoded(&self) -> Seq<u8> {
        bytes_of_word(self.encoding())
    }

    /// Tells whether every operand fits its field.
    pub fn is_well_formed(&self) -> (b: bool)
        ensures
            b == self.wf(),
    {
        match *self {
            Instruction::ADD(rd, rs, rt)
            | Instruction::ADDU(rd, rs, rt)
            | Instruction::SUB(rd, rs, rt)
            | Instruction::SUBU(rd, rs, rt)
            | Instruction::AND(rd, rs, rt)
            | Instruction::OR(rd, rs, rt)
            | Instruction::XOR(rd, rs, rt)
            | Instruction::NOR(rd, rs, rt)
            | Instruction::SLT(rd, rs, rt)
            | Instruction::SLTU(rd, rs, rt)
            | Instruction::DADD(rd, rs, rt)
            | Instruction::DADDU(rd, rs, rt)
            | Instruction::DSUB(rd, rs, rt)
            | Instruction::DSUBU(rd, rs, rt) => rd.is_valid() && rs.is_valid() && rt.is_valid(),
            Instruction::SLL(rd, rt, sa)
            | Instruction::SRL(rd, rt, sa)
            | Instruction::SRA(rd, rt, sa)
            | Instruction::DSLL(rd, rt, sa)
            | Instruction::DSRL(rd, rt, sa)
            | Instruction::DSRA(rd, rt, sa)
            | Instruction::DSLL32(rd, rt, sa)
            | Instruction::DSRL32(rd, rt, sa)
            | Instruction::DSRA32(rd, rt, sa) => rd.is_valid() && rt.is_valid() && sa < 32,
            Instruction::SLLV(rd, rt, rs)
            | Instruction::SRLV(rd, rt, rs)
            | Instruction::SRAV(rd, rt, rs)
            | Instruction::DSLLV(rd, rt, rs)
            | Instruction::DSRLV(rd, rt, rs)
            | Instruction::DSRAV(rd, rt, rs) => rd.is_valid() && rt.is_valid() && rs.is_valid(),
            Instruction::MULT(rs, rt)
            | Instruction::MULTU(rs, rt)
            | Instruction::DIV(rs, rt)
            | Instruction::DIVU(rs, rt)
            | Instruction::DMULT(rs, rt)
            | Instruction::DMULTU(rs, rt)
            | Instruction::DDIV(rs, rt)
            | Instruction::DDIVU(rs, rt) => rs.is_valid() && rt.is_valid(),
            Instruction::MFHI(rd)
            | Instruction::MFLO(rd) => rd.is_valid(),
            Instruction::MTHI(rs)
            | Instruction::MTLO(rs)
            | Instruction::JR(rs) => rs.is_valid(),
            Instruction::JALR(rd, rs) => rd.is_valid() && rs.is_valid(),
            Instruction::TGE(rs, rt, code)
            | Instruction::TGEU(rs, rt, code)
            | Instruction::TLT(rs, rt, code)
            | Instruction::TLTU(rs, rt, code)
            | Instruction::TEQ(rs, rt, code)
            | Instruction::TNE(rs, rt, code) => rs.is_valid() && rt.is_valid() && code < 0x400,
            Instruction::SYSCALL(code)
            | Instruction::BREAK(code) => code < 0x10_0000,
            Instruction::BLTZ(rs, _)
            | Instruction::BGEZ(rs, _)
            | Instruction::BLTZL(rs, _)
            | Instruction::BGEZL(rs, _)
            | Instruction::BLTZAL(rs, _)
            | Instruction::BGEZAL(rs, _)
            | Instruction::BLTZALL(rs, _)
            | Instruction::BGEZALL(rs, _)
            | Instruction::BLEZ(rs, _)
            | Instruction::BGTZ(rs, _)
            | Instruction::BLEZL(rs, _)
            | Instruction::BGTZL(rs, _) => rs.is_valid(),
            Instruction::TGEI(rs, _)
            | Instruction::TGEIU(rs, _)
            | Instruction::TLTI(rs, _)
            | Instruction::TLTIU(rs, _)
            | Instruction::TEQI(rs, _)
            | Instruction::TNEI(rs, _) => rs.is_valid(),
            Instruction::J(target)
            | Instruction::JAL(target) => target % 4 == 0 && target < 0x1000_0000,
            Instruction::BEQ(rs, rt, _)
            | Instruction::BNE(rs, rt, _)
            | Instruction::BEQL(rs, rt, _)
            | Instruction::BNEL(rs, rt, _) => rs.is_valid() && rt.is_valid(),
            Instruction::ADDI(rt, rs, _)
            | Instruction::ADDIU(rt, rs, _)
            | Instruction::SLTI(rt, rs, _)
            | Instruction::SLTIU(rt, rs, _)
            | Instruction::ANDI(rt, rs, _)
            | Instruction::ORI(rt, rs, _)
            | Instruction::XORI(rt, rs, _)
            | Instruction::DADDI(rt, rs, _)
            | Instruction::DADDIU(rt, rs, _) => rt.is_valid() && rs.is_valid(),
            Instruction::LUI(rt, _) => rt.is_valid(),
            Instruction::LDL(rt, _, base)
            | Instruction::LDR(rt, _, base)
            | Instruction::LB(rt, _, base)
            | Instruction::LH(rt, _, base)
            | Instruction::LWL(rt, _, base)
            | Instruction::LW(rt, _, base)
            | Instruction::LBU(rt, _, base)
            | Instruction::LHU(rt, _, base)
            | Instruction::LWR(rt, _, base)
            | Instruction::LWU(rt, _, base)
            | Instruction::SB(rt, _, base)
            | Instruction::SH(rt, _, base)
            | Instruction::SWL(rt, _, base)
            | Instruction::SW(rt, _, base)
            | Instruction::SDL(rt, _, base)
            | Instruction::SDR(rt, _, base)
            | Instruction::SWR(rt, _, base)
            | Instruction::LL(rt, _, base)
            | Instruction::LLD(rt, _, base)
            | Instruction::LD(rt, _, base)
            | Instruction::SC(rt, _, base)
            | Instruction::SCD(rt, _, base)
            | Instruction::SD(rt, _, base) => rt.is_valid() && base.is_valid(),
            Instruction::CACHE(op, _, base) => op < 32 && base.is_valid(),
            Instruction::LWCz(cop, rt, _, base)
            | Instruction::LDCz(cop, rt, _, base)
            | Instruction::SWCz(cop, rt, _, base)
            | Instruction::SDCz(cop, rt, _, base) => {
                cop.is_generic() && rt.is_valid() && base.is_valid()
            },
            Instruction::MFC0(rt, rd)
            | Instruction::DMFC0(rt, rd)
            | Instruction::MTC0(rt, rd)
            | Instruction::DMTC0(rt, rd) => rt.is_valid() && rd.is_valid(),
            Instruction::MFCz(cop, rt, rd)
            | Instruction::CFCz(cop, rt, rd)
            | Instruction::MTCz(cop, rt, rd)
            | Instruction::CTCz(cop, rt, rd) => cop.is_generic() && rt.is_valid() && rd.is_valid(),
            Instruction::BCzF(cop, _)
            | Instruction::BCzT(cop, _)
            | Instruction::BCzFL(cop, _)
            | Instruction::BCzTL(cop, _) => cop.is_generic(),
            Instruction::COPz(cop, cofun) => cop.is_generic() && cofun < 0x200_0000,
            Instruction::SYNC
            | Instruction::TLBR
            | Instruction::TLBWI
            | Instruction::TLBWR
            | Instruction::TLBP
            | Instruction::ERET => true,
        }
    }

    /// Lets a well-formed instruction through and refuses any other.
    pub fn checked(self) -> (r: Result<Instruction, InvalidOperand>)
        ensures
            self.wf() ==> r == Ok::<Instruction, InvalidOperand>(self),
            !self.wf() ==> r == Err::<Instruction, InvalidOperand>(InvalidOperand),
    {
        if self.is_well_formed() {
            Ok(self)
        } else {
            Err(InvalidOperand)
        }
    }

    /// The word that stands for the instruction; it is read back as the
    /// instruction itself.
    pub fn word(&self) -> (w: u32)
        requires
            self.wf(),
        ensures
            w == self.encoding(),
            Instruction::decoding(w) == Some(*self),
    {
        proof {
            decoding_is_complete(*self);
        }
        match *self {
            Instruction::ADD(rd, rs, rt) => pack_r(0, rs.bits(), rt.bits(), rd.bits(), 0, 0x20),
            Instruction::ADDU(rd, rs, rt) => pack_r(0, rs.bits(), rt.bits(), rd.bits(), 0, 0x21),
            Instruction::SUB(rd, rs, rt) => pack_r(0, rs.bits(), rt.bits(), rd.bits(), 0, 0x22),
            Instruction::SUBU(rd, rs, rt) => pack_r(0, rs.bits(), rt.bits(), rd.bits(), 0, 0x23),
            Instruction::AND(rd, rs, rt) => pack_r(0, rs.bits(), rt.bits(), rd.bits(), 0, 0x24),
            Instruction::OR(rd, rs, rt) => pack_r(0, rs.bits(), rt.bits(), rd.bits(), 0, 0x25),
            Instruction::XOR(rd, rs, rt) => pack_r(0, rs.bits(), rt.bits(), rd.bits(), 0, 0x26),
            Instruction::NOR(rd, rs, rt) => pack_r(0, rs.bits(), rt.bits(), rd.bits(), 0, 0x27),
            Instruction::SLT(rd, rs, rt) => pack_r(0, rs.bits(), rt.bits(), rd.bits(), 0, 0x2a),
            Instruction::SLTU(rd, rs, rt) => pack_r(0, rs.bits(), rt.bits(), rd.bits(), 0, 0x2b),
            Instruction::DADD(rd, rs, rt) => pack_r(0, rs.bits(), rt.bits(), rd.bits(), 0, 0x2c),
            Instruction::DADDU(rd, rs, rt) => pack_r(0, rs.bits(), rt.bits(), rd.bits(), 0, 0x2d),
            Instruction::DSUB(rd, rs, rt) => pack_r(0, rs.bits(), rt.bits(), rd.bits(), 0, 0x2e),
            Instruction::DSUBU(rd, rs, rt) => pack_r(0, rs.bits(), rt.bits(), rd.bits(), 0, 0x2f),
            Instruction::SLL(rd, rt, sa) => pack_r(0, 0, rt.bits(), rd.bits(), sa as u32, 0x00),
            Instruction::SRL(rd, rt, sa) => pack_r(0, 0, rt.bits(), rd.bits(), sa as u32, 0x02),
            Instruction::SRA(rd, rt, sa) => pack_r(0, 0, rt.bits(), rd.bits(), sa as u32, 0x03),
            Instruction::DSLL(rd, rt, sa) => pack_r(0, 0, rt.bits(), rd.bits(), sa as u32, 0x38),
            Instruction::DSRL(rd, rt, sa) => pack_r(0, 0, rt.bits(), rd.bits(), sa as u32, 0x3a),
            Instruction::DSRA(rd, rt, sa) => pack_r(0, 0, rt.bits(), rd.bits(), sa as u32, 0x3b),
            Instruction::DSLL32(rd, rt, sa) => pack_r(0, 0, rt.bits(), rd.bits(), sa as u32, 0x3c),
            Instruction::DSRL32(rd, rt, sa) => pack_r(0, 0, rt.bits(), rd.bits(), sa as u32, 0x3e),
            Instruction::DSRA32(rd, rt, sa) => pack_r(0, 0, rt.bits(), rd.bits(), sa as u32, 0x3f),
            Instruction::SLLV(rd, rt, rs) => pack_r(0, rs.bits(), rt.bits(), rd.bits(), 0, 0x04),
            Instruction::SRLV(rd, rt, rs) => pack_r(0, rs.bits(), rt.bits(), rd.bits(), 0, 0x06),
            Instruction::SRAV(rd, rt, rs) => pack_r(0, rs.bits(), rt.bits(), rd.bits(), 0, 0x07),
            Instruction::DSLLV(rd, rt, rs) => pack_r(0, rs.bits(), rt.bits(), rd.bits(), 0, 0x14),
            Instruction::DSRLV(rd, rt, rs) => pack_r(0, rs.bits(), rt.bits(), rd.bits(), 0, 0x16),
            Instruction::DSRAV(rd, rt, rs) => pack_r(0, rs.bits(), rt.bits(), rd.bits(), 0, 0x17),
            Instruction::MULT(rs, rt) => pack_r(0, rs.bits(), rt.bits(), 0, 0, 0x18),
            Instruction::MULTU(rs, rt) => pack_r(0, rs.bits(), rt.bits(), 0, 0, 0x19),
            Instruction::DIV(rs, rt) => pack_r(0, rs.bits(), rt.bits(), 0, 0, 0x1a),
            Instruction::DIVU(rs, rt) => pack_r(0, rs.bits(), rt.bits(), 0, 0, 0x1b),
            Instruction::DMULT(rs, rt) => pack_r(0, rs.bits(), rt.bits(), 0, 0, 0x1c),
            Instruction::DMULTU(rs, rt) => pack_r(0, rs.bits(), rt.bits(), 0, 0, 0x1d),
            Instruction::DDIV(rs, rt) => pack_r(0, rs.bits(), rt.bits(), 0, 0, 0x1e),
            Instruction::DDIVU(rs, rt) => pack_r(0, rs.bits(), rt.bits(), 0, 0, 0x1f),
            Instruction::MFHI(rd) => pack_r(0, 0, 0, rd.bits(), 0, 0x10),
            Instruction::MFLO(rd) => pack_r(0, 0, 0, rd.bits(), 0, 0x12),
            Instruction::MTHI(rs) => pack_r(0, rs.bits(), 0, 0, 0, 0x11),
            Instruction::MTLO(rs) => pack_r(0, rs.bits(), 0, 0, 0, 0x13),
            Instruction::JR(rs) => pack_r(0, rs.bits(), 0, 0, 0, 0x08),
            Instruction::JALR(rd, rs) => pack_r(0, rs.bits(), 0, rd.bits(), 0, 0x09),
            Instruction::TGE(rs, rt, code) => pack_trap(rs.bits(), rt.bits(), code as u32, 0x30),
            Instruction::TGEU(rs, rt, code) => pack_trap(rs.bits(), rt.bits(), code as u32, 0x31),
            Instruction::TLT(rs, rt, code) => pack_trap(rs.bits(), rt.bits(), code as u32, 0x32),
            Instruction::TLTU(rs, rt, code) => pack_trap(rs.bits(), rt.bits(), code as u32, 0x33),
            Instruction::TEQ(rs, rt, code) => pack_trap(rs.bits(), rt.bits(), code as u32, 0x34),
            Instruction::TNE(rs, rt, code) => pack_trap(rs.bits(), rt.bits(), code as u32, 0x36),
            Instruction::SYSCALL(code) => pack_break(code, 0x0c),
            Instruction::BREAK(code) => pack_break(code, 0x0d),
            Instruction::BLTZ(rs, offset) => pack_i(1, rs.bits(), 0x00, offset),
            Instruction::BGEZ(rs, offset) => pack_i(1, rs.bits(), 0x01, offset),
            Instruction::BLTZL(rs, offset) => pack_i(1, rs.bits(), 0x02, offset),
            Instruction::BGEZL(rs, offset) => pack_i(1, rs.bits(), 0x03, offset),
            Instruction::BLTZAL(rs, offset) => pack_i(1, rs.bits(), 0x10, offset),
            Instruction::BGEZAL(rs, offset) => pack_i(1, rs.bits(), 0x11, offset),
            Instruction::BLTZALL(rs, offset) => pack_i(1, rs.bits(), 0x12, offset),
            Instruction::BGEZALL(rs, offset) => pack_i(1, rs.bits(), 0x13, offset),
            Instruction::TGEI(rs, immediate) => pack_i(1, rs.bits(), 0x08, immediate),
            Instruction::TGEIU(rs, immediate) => pack_i(1, rs.bits(), 0x09, immediate),
            Instruction::TLTI(rs, immediate) => pack_i(1, rs.bits(), 0x0a, immediate),
            Instruction::TLTIU(rs, immediate) => pack_i(1, rs.bits(), 0x0b, immediate),
            Instruction::TEQI(rs, immediate) => pack_i(1, rs.bits(), 0x0c, immediate),
            Instruction::TNEI(rs, immediate) => pack_i(1, rs.bits(), 0x0e, immediate),
            Instruction::J(target) => pack_j(0x02, target >> 2),
            Instruction::JAL(target) => pack_j(0x03, target >> 2),
            Instruction::BEQ(rs, rt, offset) => pack_i(0x04, rs.bits(), rt.bits(), offset),
            Instruction::BNE(rs, rt, offset) => pack_i(0x05, rs.bits(), rt.bits(), offset),
            Instruction::BEQL(rs, rt, offset) => pack_i(0x14, rs.bits(), rt.bits(), offset),
            Instruction::BNEL(rs, rt, offset) => pack_i(0x15, rs.bits(), rt.bits(), offset),
            Instruction::BLEZ(rs, offset) => pack_i(0x06, rs.bits(), 0, offset),
            Instruction::BGTZ(rs, offset) => pack_i(0x07, rs.bits(), 0, offset),
            Instruction::BLEZL(rs, offset) => pack_i(0x16, rs.bits(), 0, offset),
            Instruction::BGTZL(rs, offset) => pack_i(0x17, rs.bits(), 0, offset),
            Instruction::ADDI(rt, rs, immediate) => pack_i(0x08, rs.bits(), rt.bits(), immediate),
            Instruction::ADDIU(rt, rs, immediate) => pack_i(0x09, rs.bits(), rt.bits(), immediate),
            Instruction::SLTI(rt, rs, immediate) => pack_i(0x0a, rs.bits(), rt.bits(), immediate),
            Instruction::SLTIU(rt, rs, immediate) => pack_i(0x0b, rs.bits(), rt.bits(), immediate),
            Instruction::ANDI(rt, rs, immediate) => pack_i(0x0c, rs.bits(), rt.bits(), immediate),
            Instruction::ORI(rt, rs, immediate) => pack_i(0x0d, rs.bits(), rt.bits(), immediate),
            Instruction::XORI(rt, rs, immediate) => pack_i(0x0e, rs.bits(), rt.bits(), immediate),
            Instruction::DADDI(rt, rs, immediate) => pack_i(0x18, rs.bits(), rt.bits(), immediate),
            Instruction::DADDIU(rt, rs, immediate) => pack_i(0x19, rs.bits(), rt.bits(), immediate),
            Instruction::LUI(rt, immediate) => pack_i(0x0f, 0, rt.bits(), immediate),
            Instruction::LDL(rt, offset, base) => pack_i(0x1a, base.bits(), rt.bits(), offset),
            Instruction::LDR(rt, offset, base) => pack_i(0x1b, base.bits(), rt.bits(), offset),
            Instruction::LB(rt, offset, base) => pack_i(0x20, base.bits(), rt.bits(), offset),
            Instruction::LH(rt, offset, base) => pack_i(0x21, base.bits(), rt.bits(), offset),
            Instruction::LWL(rt, offset, base) => pack_i(0x22, base.bits(), rt.bits(), offset),
            Instruction::LW(rt, offset, base) => pack_i(0x23, base.bits(), rt.bits(), offset),
            Instruction::LBU(rt, offset, base) => pack_i(0x24, base.bits(), rt.bits(), offset),
            Instruction::LHU(rt, offset, base) => pack_i(0x25, base.bits(), rt.bits(), offset),
            Instruction::LWR(rt, offset, base) => pack_i(0x26, base.bits(), rt.bits(), offset),
            Instruction::LWU(rt, offset, base) => pack_i(0x27, base.bits(), rt.bits(), offset),
            Instruction::SB(rt, offset, base) => pack_i(0x28, base.bits(), rt.bits(), offset),
            Instruction::SH(rt, offset, base) => pack_i(0x29, base.bits(), rt.bits(), offset),
            Instruction::SWL(rt, offset, base) => pack_i(0x2a, base.bits(), rt.bits(), offset),
            Instruction::SW(rt, offset, base) => pack_i(0x2b, base.bits(), rt.bits(), offset),
            Instruction::SDL(rt, offset, base) => pack_i(0x2c, base.bits(), rt.bits(), offset),
            Instruction::SDR(rt, offset, base) => pack_i(0x2d, base.bits(), rt.bits(), offset),
            Instruction::SWR(rt, offset, base) => pack_i(0x2e, base.bits(), rt.bits(), offset),
            Instruction::LL(rt, offset, base) => pack_i(0x30, base.bits(), rt.bits(), offset),
            Instruction::LLD(rt, offset, base) => pack_i(0x34, base.bits(), rt.bits(), offset),
            Instruction::LD(rt, offset, base) => pack_i(0x37, base.bits(), rt.bits(), offset),
            Instruction::SC(rt, offset, base) => pack_i(0x38, base.bits(), rt.bits(), offset),
            Instruction::SCD(rt, offset, base) => pack_i(0x3c, base.bits(), rt.bits(), offset),
            Instruction::SD(rt, offset, base) => pack_i(0x3f, base.bits(), rt.bits(), offset),
            Instruction::CACHE(op, offset, base) => pack_i(0x2f, base.bits(), op as u32, offset),
            Instruction::LWCz(cop, rt, offset, base) => {
                pack_i(0x30 | cop.number(), base.bits(), rt.bits(), offset)
            },
            Instruction::LDCz(cop, rt, offset, base) => {
                pack_i(0x34 | cop.number(), base.bits(), rt.bits(), offset)
            },
            Instruction::SWCz(cop, rt, offset, base) => {
                pack_i(0x38 | cop.number(), base.bits(), rt.bits(), offset)
            },
            Instruction::SDCz(cop, rt, offset, base) => {
                pack_i(0x3c | cop.number(), base.bits(), rt.bits(), offset)
            },
            Instruction::MFC0(rt, rd) => pack_r(0x10, 0x00, rt.bits(), rd.bits(), 0, 0),
            Instruction::DMFC0(rt, rd) => pack_r(0x10, 0x01, rt.bits(), rd.bits(), 0, 0),
            Instruction::MTC0(rt, rd) => pack_r(0x10, 0x04, rt.bits(), rd.bits(), 0, 0),
            Instruction::DMTC0(rt, rd) => pack_r(0x10, 0x05, rt.bits(), rd.bits(), 0, 0),
            Instruction::MFCz(cop, rt, rd) => {
                pack_r(0x10 | cop.number(), 0x00, rt.bits(), rd.bits(), 0, 0)
            },
            Instruction::CFCz(cop, rt, rd) => {
                pack_r(0x10 | cop.number(), 0x02, rt.bits(), rd.bits(), 0, 0)
            },
            Instruction::MTCz(cop, rt, rd) => {
                pack_r(0x10 | cop.number(), 0x04, rt.bits(), rd.bits(), 0, 0)
            },
            Instruction::CTCz(cop, rt, rd) => {
                pack_r(0x10 | cop.number(), 0x06, rt.bits(), rd.bits(), 0, 0)
            },
            Instruction::BCzF(cop, offset) => pack_i(0x10 | cop.number(), 8, 0x00, offset),
            Instruction::BCzT(cop, offset) => pack_i(0x10 | cop.number(), 8, 0x01, offset),
            Instruction::BCzFL(cop, offset) => pack_i(0x10 | cop.number(), 8, 0x02, offset),
            Instruction::BCzTL(cop, offset) => pack_i(0x10 | cop.number(), 8, 0x03, offset),
            Instruction::COPz(cop, cofun) => pack_cop(0x10 | cop.number(), cofun),
            Instruction::SYNC => 0x0000_000f,
            Instruction::TLBR => 0x4200_0001,
            Instruction::TLBWI => 0x4200_0002,
            Instruction::TLBWR => 0x4200_0006,
            Instruction::TLBP => 0x4200_0008,
            Instruction::ERET => 0x4200_0018,
        }
    }

    /// The four bytes that stand for the instruction, in big-endian order;
    /// they are read back as the instruction itself.
    pub fn encode(&self) -> (bytes: [u8; 4])
        requires
            self.wf(),
        ensures
            bytes@ == self.encoded(),
            Instruction::decoded(bytes@) == Some(*self),
    {
        proof {
            encode_then_decode(*self);
        }
        bytes_from_word(self.word())
    }
}

} // verus!
