//! Reading a word: the dispatch on opcode, function code and sub-opcode.
//!
//! The tables are written twice, once as spec functions and once as the code
//! that runs; [`Instruction::decode`] is proved to follow the spec tables arm by
//! arm. A word that no arm claims, or whose unused bits are not all zero, stands
//! for no instruction.

use crate::mips::instruction::Instruction;
use crate::mips::laws::{
    decode_then_encode, decoding_is_complete, decoding_is_sound, encode_then_decode,
};
use crate::mips::operand::{Coprocessor, Register};
use crate::mips::word::{
    co, code10, code20, cofun, field_co, field_code10, field_code20, field_cofun, field_funct,
    field_immediate, field_index, field_opcode, field_rd, field_rs, field_rt, field_sa, funct,
    immediate, index, opcode, rd, rs, rt, sa, word_from_bytes, word_of_bytes,
};
use vstd::prelude::*;

verus! {

/// The instruction where the condition holds, and nothing where it does not.
pub open spec fn given(condition: bool, i: Instruction) -> Option<Instruction> {
    if condition {
        Some(i)
    } else {
        None
    }
}

/// The instruction where the condition holds, and nothing where it does not.
fn only_if(condition: bool, i: Instruction) -> (r: Option<Instruction>)
    ensures
        r == given(condition, i),
{
    if condition {
        Some(i)
    } else {
        None
    }
}

impl Instruction {
    /// Opcode 0: the function code selects the instruction, and the fields that
    /// the instruction does not use must be zero.
    pub open spec fn decoding_special(w: u32) -> Option<Instruction> {
        let s = Register::numbered(rs(w));
        let t = Register::numbered(rt(w));
        let d = Register::numbered(rd(w));
        let a = sa(w) as u8;
        match funct(w) {
            0x00 => given(rs(w) == 0, Instruction::SLL(d, t, a)),
            0x02 => given(rs(w) == 0, Instruction::SRL(d, t, a)),
            0x03 => given(rs(w) == 0, Instruction::SRA(d, t, a)),
            0x04 => given(sa(w) == 0, Instruction::SLLV(d, t, s)),
            0x06 => given(sa(w) == 0, Instruction::SRLV(d, t, s)),
            0x07 => given(sa(w) == 0, Instruction::SRAV(d, t, s)),
            0x08 => given(rt(w) == 0 && rd(w) == 0 && sa(w) == 0, Instruction::JR(s)),
            0x09 => given(rt(w) == 0 && sa(w) == 0, Instruction::JALR(d, s)),
            0x0c => Some(Instruction::SYSCALL(code20(w))),
            0x0d => Some(Instruction::BREAK(code20(w))),
            0x0f => given(w == 0x0000_000f, Instruction::SYNC),
            0x10 => given(rs(w) == 0 && rt(w) == 0 && sa(w) == 0, Instruction::MFHI(d)),
            0x11 => given(rt(w) == 0 && rd(w) == 0 && sa(w) == 0, Instruction::MTHI(s)),
            0x12 => given(rs(w) == 0 && rt(w) == 0 && sa(w) == 0, Instruction::MFLO(d)),
            0x13 => given(rt(w) == 0 && rd(w) == 0 && sa(w) == 0, Instruction::MTLO(s)),
            0x14 => given(sa(w) == 0, Instruction::DSLLV(d, t, s)),
            0x16 => given(sa(w) == 0, Instruction::DSRLV(d, t, s)),
            0x17 => given(sa(w) == 0, Instruction::DSRAV(d, t, s)),
            0x18 => given(rd(w) == 0 && sa(w) == 0, Instruction::MULT(s, t)),
            0x19 => given(rd(w) == 0 && sa(w) == 0, Instruction::MULTU(s, t)),
            0x1a => given(rd(w) == 0 && sa(w) == 0, Instruction::DIV(s, t)),
            0x1b => given(rd(w) == 0 && sa(w) == 0, Instruction::DIVU(s, t)),
            0x1c => given(rd(w) == 0 && sa(w) == 0, Instruction::DMULT(s, t)),
            0x1d => given(rd(w) == 0 && sa(w) == 0, Instruction::DMULTU(s, t)),
            0x1e => given(rd(w) == 0 && sa(w) == 0, Instruction::DDIV(s, t)),
            0x1f => given(rd(w) == 0 && sa(w) == 0, Instruction::DDIVU(s, t)),
            0x20 => given(sa(w) == 0, Instruction::ADD(d, s, t)),
            0x21 => given(sa(w) == 0, Instruction::ADDU(d, s, t)),
            0x22 => given(sa(w) == 0, Instruction::SUB(d, s, t)),
            0x23 => given(sa(w) == 0, Instruction::SUBU(d, s, t)),
            0x24 => given(sa(w) == 0, Instruction::AND(d, s, t)),
            0x25 => given(sa(w) == 0, Instruction::OR(d, s, t)),
            0x26 => given(sa(w) == 0, Instruction::XOR(d, s, t)),
            0x27 => given(sa(w) == 0, Instruction::NOR(d, s, t)),
            0x2a => given(sa(w) == 0, Instruction::SLT(d, s, t)),
            0x2b => given(sa(w) == 0, Instruction::SLTU(d, s, t)),
            0x2c => given(sa(w) == 0, Instruction::DADD(d, s, t)),
            0x2d => given(sa(w) == 0, Instruction::DADDU(d, s, t)),
            0x2e => given(sa(w) == 0, Instruction::DSUB(d, s, t)),
            0x2f => given(sa(w) == 0, Instruction::DSUBU(d, s, t)),
            0x30 => Some(Instruction::TGE(s, t, code10(w) as u16)),
            0x31 => Some(Instruction::TGEU(s, t, code10(w) as u16)),
            0x32 => Some(Instruction::TLT(s, t, code10(w) as u16)),
            0x33 => Some(Instruction::TLTU(s, t, code10(w) as u16)),
            0x34 => Some(Instruction::TEQ(s, t, code10(w) as u16)),
            0x36 => Some(Instruction::TNE(s, t, code10(w) as u16)),
            0x38 => given(rs(w) == 0, Instruction::DSLL(d, t, a)),
            0x3a => given(rs(w) == 0, Instruction::DSRL(d, t, a)),
            0x3b => given(rs(w) == 0, Instruction::DSRA(d, t, a)),
            0x3c => given(rs(w) == 0, Instruction::DSLL32(d, t, a)),
            0x3e => given(rs(w) == 0, Instruction::DSRL32(d, t, a)),
            0x3f => given(rs(w) == 0, Instruction::DSRA32(d, t, a)),
            _ => None,
        }
    }

    /// Opcode 1: the `rt` field selects the instruction.
    pub open spec fn decoding_regimm(w: u32) -> Option<Instruction> {
        let s = Register::numbered(rs(w));
        let v = immediate(w);
        match rt(w) {
            0x00 => Some(Instruction::BLTZ(s, v)),
            0x01 => Some(Instruction::BGEZ(s, v)),
            0x02 => Some(Instruction::BLTZL(s, v)),
            0x03 => Some(Instruction::BGEZL(s, v)),
            0x08 => Some(Instruction::TGEI(s, v)),
            0x09 => Some(Instruction::TGEIU(s, v)),
            0x0a => Some(Instruction::TLTI(s, v)),
            0x0b => Some(Instruction::TLTIU(s, v)),
            0x0c => Some(Instruction::TEQI(s, v)),
            0x0e => Some(Instruction::TNEI(s, v)),
            0x10 => Some(Instruction::BLTZAL(s, v)),
            0x11 => Some(Instruction::BGEZAL(s, v)),
            0x12 => Some(Instruction::BLTZALL(s, v)),
            0x13 => Some(Instruction::BGEZALL(s, v)),
            _ => None,
        }
    }

    /// Opcode 0x10, the system control coprocessor: with bit 25 set, one of
    /// five fixed words; with bit 25 clear, the `rs` field selects a move.
    pub open spec fn decoding_cop0(w: u32) -> Option<Instruction> {
        let t = Register::numbered(rt(w));
        let d = Register::numbered(rd(w));
        if co(w) == 1 {
            match w {
                0x4200_0001 => Some(Instruction::TLBR),
                0x4200_0002 => Some(Instruction::TLBWI),
                0x4200_0006 => Some(Instruction::TLBWR),
                0x4200_0008 => Some(Instruction::TLBP),
                0x4200_0018 => Some(Instruction::ERET),
                _ => None,
            }
        } else {
            match rs(w) {
                0x00 => given(sa(w) == 0 && funct(w) == 0, Instruction::MFC0(t, d)),
                0x01 => given(sa(w) == 0 && funct(w) == 0, Instruction::DMFC0(t, d)),
                0x04 => given(sa(w) == 0 && funct(w) == 0, Instruction::MTC0(t, d)),
                0x05 => given(sa(w) == 0 && funct(w) == 0, Instruction::DMTC0(t, d)),
                _ => None,
            }
        }
    }

    /// Opcodes 0x11 and 0x12, coprocessors 1 and 2: with bit 25 set, an
    /// operation of the coprocessor; with bit 25 clear, the `rs` field selects
    /// a move or the group of branches, among which the `rt` field selects.
    pub open spec fn decoding_copz(cop: Coprocessor, w: u32) -> Option<Instruction> {
        let t = Register::numbered(rt(w));
        let d = Register::numbered(rd(w));
        let v = immediate(w);
        if co(w) == 1 {
            Some(Instruction::COPz(cop, cofun(w)))
        } else {
            match rs(w) {
                0x00 => given(sa(w) == 0 && funct(w) == 0, Instruction::MFCz(cop, t, d)),
                0x02 => given(sa(w) == 0 && funct(w) == 0, Instruction::CFCz(cop, t, d)),
                0x04 => given(sa(w) == 0 && funct(w) == 0, Instruction::MTCz(cop, t, d)),
                0x06 => given(sa(w) == 0 && funct(w) == 0, Instruction::CTCz(cop, t, d)),
                0x08 => match rt(w) {
                    0x00 => Some(Instruction::BCzF(cop, v)),
                    0x01 => Some(Instruction::BCzT(cop, v)),
                    0x02 => Some(Instruction::BCzFL(cop, v)),
                    0x03 => Some(Instruction::BCzTL(cop, v)),
                    _ => None,
                },
                _ => None,
            }
        }
    }

    /// The instruction that a word stands for, if it stands for one.
    pub open spec fn decoding(w: u32) -> Option<Instruction> {
        let s = Register::numbered(rs(w));
        let t = Register::numbered(rt(w));
        let v = immediate(w);
        match opcode(w) {
            0x00 => Instruction::decoding_special(w),
            0x01 => Instruction::decoding_regimm(w),
            0x02 => Some(Instruction::J(index(w) << 2)),
            0x03 => Some(Instruction::JAL(index(w) << 2)),
            0x04 => Some(Instruction::BEQ(s, t, v)),
            0x05 => Some(Instruction::BNE(s, t, v)),
            0x06 => given(rt(w) == 0, Instruction::BLEZ(s, v)),
            0x07 => given(rt(w) == 0, Instruction::BGTZ(s, v)),
            0x08 => Some(Instruction::ADDI(t, s, v)),
            0x09 => Some(Instruction::ADDIU(t, s, v)),
            0x0a => Some(Instruction::SLTI(t, s, v)),
            0x0b => Some(Instruction::SLTIU(t, s, v)),
            0x0c => Some(Instruction::ANDI(t, s, v)),
            0x0d => Some(Instruction::ORI(t, s, v)),
            0x0e => Some(Instruction::XORI(t, s, v)),
            0x0f => given(rs(w) == 0, Instruction::LUI(t, v)),
            0x10 => Instruction::decoding_cop0(w),
            0x11 => Instruction::decoding_copz(Coprocessor::COP1, w),
            0x12 => Instruction::decoding_copz(Coprocessor::COP2, w),
            0x14 => Some(Instruction::BEQL(s, t, v)),
            0x15 => Some(Instruction::BNEL(s, t, v)),
            0x16 => given(rt(w) == 0, Instruction::BLEZL(s, v)),
            0x17 => given(rt(w) == 0, Instruction::BGTZL(s, v)),
            0x18 => Some(Instruction::DADDI(t, s, v)),
            0x19 => Some(Instruction::DADDIU(t, s, v)),
            0x1a => Some(Instruction::LDL(t, v, s)),
            0x1b => Some(Instruction::LDR(t, v, s)),
            0x20 => Some(Instruction::LB(t, v, s)),
            0x21 => Some(Instruction::LH(t, v, s)),
            0x22 => Some(Instruction::LWL(t, v, s)),
            0x23 => Some(Instruction::LW(t, v, s)),
            0x24 => Some(Instruction::LBU(t, v, s)),
            0x25 => Some(Instruction::LHU(t, v, s)),
            0x26 => Some(Instruction::LWR(t, v, s)),
            0x27 => Some(Instruction::LWU(t, v, s)),
            0x28 => Some(Instruction::SB(t, v, s)),
            0x29 => Some(Instruction::SH(t, v, s)),
            0x2a => Some(Instruction::SWL(t, v, s)),
            0x2b => Some(Instruction::SW(t, v, s)),
            0x2c => Some(Instruction::SDL(t, v, s)),
            0x2d => Some(Instruction::SDR(t, v, s)),
            0x2e => Some(Instruction::SWR(t, v, s)),
            0x2f => Some(Instruction::CACHE(rt(w) as u8, v, s)),
            0x30 => Some(Instruction::LL(t, v, s)),
            0x31 => Some(Instruction::LWCz(Coprocessor::COP1, t, v, s)),
            0x32 => Some(Instruction::LWCz(Coprocessor::COP2, t, v, s)),
            0x34 => Some(Instruction::LLD(t, v, s)),
            0x35 => Some(Instruction::LDCz(Coprocessor::COP1, t, v, s)),
            0x36 => Some(Instruction::LDCz(Coprocessor::COP2, t, v, s)),
            0x37 => Some(Instruction::LD(t, v, s)),
            0x38 => Some(Instruction::SC(t, v, s)),
            0x39 => Some(Instruction::SWCz(Coprocessor::COP1, t, v, s)),
            0x3a => Some(Instruction::SWCz(Coprocessor::COP2, t, v, s)),
            0x3c => Some(Instruction::SCD(t, v, s)),
            0x3d => Some(Instruction::SDCz(Coprocessor::COP1, t, v, s)),
            0x3e => Some(Instruction::SDCz(Coprocessor::COP2, t, v, s)),
            0x3f => Some(Instruction::SD(t, v, s)),
            _ => None,
        }
    }

    /// The instruction that four bytes stand for, read in big-endian order.
    pub open spec fn decoded(bytes: Seq<u8>) -> Option<Instruction> {
        Instruction::decoding(word_of_bytes(bytes))
    }

    fn decode_special(w: u32) -> (r: Option<Instruction>)
        ensures
            r == Instruction::decoding_special(w),
    {
        let s = Register::from_field(field_rs(w));
        let t = Register::from_field(field_rt(w));
        let d = Register::from_field(field_rd(w));
        let a = field_sa(w) as u8;
        match field_funct(w) {
            0x00 => only_if(field_rs(w) == 0, Instruction::SLL(d, t, a)),
            0x02 => only_if(field_rs(w) == 0, Instruction::SRL(d, t, a)),
            0x03 => only_if(field_rs(w) == 0, Instruction::SRA(d, t, a)),
            0x04 => only_if(field_sa(w) == 0, Instruction::SLLV(d, t, s)),
            0x06 => only_if(field_sa(w) == 0, Instruction::SRLV(d, t, s)),
            0x07 => only_if(field_sa(w) == 0, Instruction::SRAV(d, t, s)),
            0x08 => {
                only_if(
                    field_rt(w) == 0 && field_rd(w) == 0 && field_sa(w) == 0,
                    Instruction::JR(s),
                )
            },
            0x09 => only_if(field_rt(w) == 0 && field_sa(w) == 0, Instruction::JALR(d, s)),
            0x0c => Some(Instruction::SYSCALL(field_code20(w))),
            0x0d => Some(Instruction::BREAK(field_code20(w))),
            0x0f => only_if(w == 0x0000_000f, Instruction::SYNC),
            0x10 => {
                only_if(
                    field_rs(w) == 0 && field_rt(w) == 0 && field_sa(w) == 0,
                    Instruction::MFHI(d),
                )
            },
            0x11 => {
                only_if(
                    field_rt(w) == 0 && field_rd(w) == 0 && field_sa(w) == 0,
                    Instruction::MTHI(s),
                )
            },
            0x12 => {
                only_if(
                    field_rs(w) == 0 && field_rt(w) == 0 && field_sa(w) == 0,
                    Instruction::MFLO(d),
                )
            },
            0x13 => {
                only_if(
                    field_rt(w) == 0 && field_rd(w) == 0 && field_sa(w) == 0,
                    Instruction::MTLO(s),
                )
            },
            0x14 => only_if(field_sa(w) == 0, Instruction::DSLLV(d, t, s)),
            0x16 => only_if(field_sa(w) == 0, Instruction::DSRLV(d, t, s)),
            0x17 => only_if(field_sa(w) == 0, Instruction::DSRAV(d, t, s)),
            0x18 => only_if(field_rd(w) == 0 && field_sa(w) == 0, Instruction::MULT(s, t)),
            0x19 => only_if(field_rd(w) == 0 && field_sa(w) == 0, Instruction::MULTU(s, t)),
            0x1a => only_if(field_rd(w) == 0 && field_sa(w) == 0, Instruction::DIV(s, t)),
            0x1b => only_if(field_rd(w) == 0 && field_sa(w) == 0, Instruction::DIVU(s, t)),
            0x1c => only_if(field_rd(w) == 0 && field_sa(w) == 0, Instruction::DMULT(s, t)),
            0x1d => only_if(field_rd(w) == 0 && field_sa(w) == 0, Instruction::DMULTU(s, t)),
            0x1e => only_if(field_rd(w) == 0 && field_sa(w) == 0, Instruction::DDIV(s, t)),
            0x1f => only_if(field_rd(w) == 0 && field_sa(w) == 0, Instruction::DDIVU(s, t)),
            0x20 => only_if(field_sa(w) == 0, Instruction::ADD(d, s, t)),
            0x21 => only_if(field_sa(w) == 0, Instruction::ADDU(d, s, t)),
            0x22 => only_if(field_sa(w) == 0, Instruction::SUB(d, s, t)),
            0x23 => only_if(field_sa(w) == 0, Instruction::SUBU(d, s, t)),
            0x24 => only_if(field_sa(w) == 0, Instruction::AND(d, s, t)),
            0x25 => only_if(field_sa(w) == 0, Instruction::OR(d, s, t)),
            0x26 => only_if(field_sa(w) == 0, Instruction::XOR(d, s, t)),
            0x27 => only_if(field_sa(w) == 0, Instruction::NOR(d, s, t)),
            0x2a => only_if(field_sa(w) == 0, Instruction::SLT(d, s, t)),
            0x2b => only_if(field_sa(w) == 0, Instruction::SLTU(d, s, t)),
            0x2c => only_if(field_sa(w) == 0, Instruction::DADD(d, s, t)),
            0x2d => only_if(field_sa(w) == 0, Instruction::DADDU(d, s, t)),
            0x2e => only_if(field_sa(w) == 0, Instruction::DSUB(d, s, t)),
            0x2f => only_if(field_sa(w) == 0, Instruction::DSUBU(d, s, t)),
            0x30 => Some(Instruction::TGE(s, t, field_code10(w) as u16)),
            0x31 => Some(Instruction::TGEU(s, t, field_code10(w) as u16)),
            0x32 => Some(Instruction::TLT(s, t, field_code10(w) as u16)),
            0x33 => Some(Instruction::TLTU(s, t, field_code10(w) as u16)),
            0x34 => Some(Instruction::TEQ(s, t, field_code10(w) as u16)),
            0x36 => Some(Instruction::TNE(s, t, field_code10(w) as u16)),
            0x38 => only_if(field_rs(w) == 0, Instruction::DSLL(d, t, a)),
            0x3a => only_if(field_rs(w) == 0, Instruction::DSRL(d, t, a)),
            0x3b => only_if(field_rs(w) == 0, Instruction::DSRA(d, t, a)),
            0x3c => only_if(field_rs(w) == 0, Instruction::DSLL32(d, t, a)),
            0x3e => only_if(field_rs(w) == 0, Instruction::DSRL32(d, t, a)),
            0x3f => only_if(field_rs(w) == 0, Instruction::DSRA32(d, t, a)),
            _ => None,
        }
    }

    fn decode_regimm(w: u32) -> (r: Option<Instruction>)
        ensures
            r == Instruction::decoding_regimm(w),
    {
        let s = Register::from_field(field_rs(w));
        let v = field_immediate(w);
        match field_rt(w) {
            0x00 => Some(Instruction::BLTZ(s, v)),
            0x01 => Some(Instruction::BGEZ(s, v)),
            0x02 => Some(Instruction::BLTZL(s, v)),
            0x03 => Some(Instruction::BGEZL(s, v)),
            0x08 => Some(Instruction::TGEI(s, v)),
            0x09 => Some(Instruction::TGEIU(s, v)),
            0x0a => Some(Instruction::TLTI(s, v)),
            0x0b => Some(Instruction::TLTIU(s, v)),
            0x0c => Some(Instruction::TEQI(s, v)),
            0x0e => Some(Instruction::TNEI(s, v)),
            0x10 => Some(Instruction::BLTZAL(s, v)),
            0x11 => Some(Instruction::BGEZAL(s, v)),
            0x12 => Some(Instruction::BLTZALL(s, v)),
            0x13 => Some(Instruction::BGEZALL(s, v)),
            _ => None,
        }
    }

    fn decode_cop0(w: u32) -> (r: Option<Instruction>)
        ensures
            r == Instruction::decoding_cop0(w),
    {
        let t = Register::from_field(field_rt(w));
        let d = Register::from_field(field_rd(w));
        if field_co(w) == 1 {
            match w {
                0x4200_0001 => Some(Instruction::TLBR),
                0x4200_0002 => Some(Instruction::TLBWI),
                0x4200_0006 => Some(Instruction::TLBWR),
                0x4200_0008 => Some(Instruction::TLBP),
                0x4200_0018 => Some(Instruction::ERET),
                _ => None,
            }
        } else {
            match field_rs(w) {
                0x00 => only_if(field_sa(w) == 0 && field_funct(w) == 0, Instruction::MFC0(t, d)),
                0x01 => only_if(field_sa(w) == 0 && field_funct(w) == 0, Instruction::DMFC0(t, d)),
                0x04 => only_if(field_sa(w) == 0 && field_funct(w) == 0, Instruction::MTC0(t, d)),
                0x05 => only_if(field_sa(w) == 0 && field_funct(w) == 0, Instruction::DMTC0(t, d)),
                _ => None,
            }
        }
    }

    fn decode_copz(cop: Coprocessor, w: u32) -> (r: Option<Instruction>)
        ensures
            r == Instruction::decoding_copz(cop, w),
    {
        let t = Register::from_field(field_rt(w));
        let d = Register::from_field(field_rd(w));
        let v = field_immediate(w);
        if field_co(w) == 1 {
            Some(Instruction::COPz(cop, field_cofun(w)))
        } else {
            match field_rs(w) {
                0x00 => {
                    only_if(field_sa(w) == 0 && field_funct(w) == 0, Instruction::MFCz(cop, t, d))
                },
                0x02 => {
                    only_if(field_sa(w) == 0 && field_funct(w) == 0, Instruction::CFCz(cop, t, d))
                },
                0x04 => {
                    only_if(field_sa(w) == 0 && field_funct(w) == 0, Instruction::MTCz(cop, t, d))
                },
                0x06 => {
                    only_if(field_sa(w) == 0 && field_funct(w) == 0, Instruction::CTCz(cop, t, d))
                },
                0x08 => match field_rt(w) {
                    0x00 => Some(Instruction::BCzF(cop, v)),
                    0x01 => Some(Instruction::BCzT(cop, v)),
                    0x02 => Some(Instruction::BCzFL(cop, v)),
                    0x03 => Some(Instruction::BCzTL(cop, v)),
                    _ => None,
                },
                _ => None,
            }
        }
    }

    /// Reads a word.
    ///
    /// The result is the one well-formed instruction whose word this is, and
    /// there is none where the word is that of no well-formed instruction.
    pub fn from_word(w: u32) -> (r: Option<Instruction>)
        ensures
            r == Instruction::decoding(w),
            r matches Some(i) ==> i.wf() && i.encoding() == w,
            r is None ==> forall|i: Instruction| i.wf() ==> #[trigger] i.encoding() != w,
    {
        proof {
            decoding_is_sound(w);
            assert forall|i: Instruction|
                i.wf() && Instruction::decoding(w) is None implies #[trigger] i.encoding() != w by {
                decoding_is_complete(i);
            }
        }
        let s = Register::from_field(field_rs(w));
        let t = Register::from_field(field_rt(w));
        let v = field_immediate(w);
        match field_opcode(w) {
            0x00 => Instruction::decode_special(w),
            0x01 => Instruction::decode_regimm(w),
            0x02 => Some(Instruction::J(field_index(w) << 2)),
            0x03 => Some(Instruction::JAL(field_index(w) << 2)),
            0x04 => Some(Instruction::BEQ(s, t, v)),
            0x05 => Some(Instruction::BNE(s, t, v)),
            0x06 => only_if(field_rt(w) == 0, Instruction::BLEZ(s, v)),
            0x07 => only_if(field_rt(w) == 0, Instruction::BGTZ(s, v)),
            0x08 => Some(Instruction::ADDI(t, s, v)),
            0x09 => Some(Instruction::ADDIU(t, s, v)),
            0x0a => Some(Instruction::SLTI(t, s, v)),
            0x0b => Some(Instruction::SLTIU(t, s, v)),
            0x0c => Some(Instruction::ANDI(t, s, v)),
            0x0d => Some(Instruction::ORI(t, s, v)),
            0x0e => Some(Instruction::XORI(t, s, v)),
            0x0f => only_if(field_rs(w) == 0, Instruction::LUI(t, v)),
            0x10 => Instruction::decode_cop0(w),
            0x11 => Instruction::decode_copz(Coprocessor::COP1, w),
            0x12 => Instruction::decode_copz(Coprocessor::COP2, w),
            0x14 => Some(Instruction::BEQL(s, t, v)),
            0x15 => Some(Instruction::BNEL(s, t, v)),
            0x16 => only_if(field_rt(w) == 0, Instruction::BLEZL(s, v)),
            0x17 => only_if(field_rt(w) == 0, Instruction::BGTZL(s, v)),
            0x18 => Some(Instruction::DADDI(t, s, v)),
            0x19 => Some(Instruction::DADDIU(t, s, v)),
            0x1a => Some(Instruction::LDL(t, v, s)),
            0x1b => Some(Instruction::LDR(t, v, s)),
            0x20 => Some(Instruction::LB(t, v, s)),
            0x21 => Some(Instruction::LH(t, v, s)),
            0x22 => Some(Instruction::LWL(t, v, s)),
            0x23 => Some(Instruction::LW(t, v, s)),
            0x24 => Some(Instruction::LBU(t, v, s)),
            0x25 => Some(Instruction::LHU(t, v, s)),
            0x26 => Some(Instruction::LWR(t, v, s)),
            0x27 => Some(Instruction::LWU(t, v, s)),
            0x28 => Some(Instruction::SB(t, v, s)),
            0x29 => Some(Instruction::SH(t, v, s)),
            0x2a => Some(Instruction::SWL(t, v, s)),
            0x2b => Some(Instruction::SW(t, v, s)),
            0x2c => Some(Instruction::SDL(t, v, s)),
            0x2d => Some(Instruction::SDR(t, v, s)),
            0x2e => Some(Instruction::SWR(t, v, s)),
            0x2f => Some(Instruction::CACHE(field_rt(w) as u8, v, s)),
            0x30 => Some(Instruction::LL(t, v, s)),
            0x31 => Some(Instruction::LWCz(Coprocessor::COP1, t, v, s)),
            0x32 => Some(Instruction::LWCz(Coprocessor::COP2, t, v, s)),
            0x34 => Some(Instruction::LLD(t, v, s)),
            0x35 => Some(Instruction::LDCz(Coprocessor::COP1, t, v, s)),
            0x36 => Some(Instruction::LDCz(Coprocessor::COP2, t, v, s)),
            0x37 => Some(Instruction::LD(t, v, s)),
            0x38 => Some(Instruction::SC(t, v, s)),
            0x39 => Some(Instruction::SWCz(Coprocessor::COP1, t, v, s)),
            0x3a => Some(Instruction::SWCz(Coprocessor::COP2, t, v, s)),
            0x3c => Some(Instruction::SCD(t, v, s)),
            0x3d => Some(Instruction::SDCz(Coprocessor::COP1, t, v, s)),
            0x3e => Some(Instruction::SDCz(Coprocessor::COP2, t, v, s)),
            0x3f => Some(Instruction::SD(t, v, s)),
            _ => None,
        }
    }

    /// Reads four bytes in big-endian order.
    ///
    /// The result is the one well-formed instruction that is written as these
    /// bytes, and there is none where no well-formed instruction is.
    pub fn decode(bytes: [u8; 4]) -> (r: Option<Instruction>)
        ensures
            r == Instruction::decoded(bytes@),
            r matches Some(i) ==> i.wf() && i.encoded() == bytes@,
            r is None ==> forall|i: Instruction| i.wf() ==> #[trigger] i.encoded() != bytes@,
    {
        proof {
            decode_then_encode(bytes@);
            assert forall|i: Instruction|
                i.wf() && Instruction::decoded(bytes@) is None implies #[trigger] i.encoded()
                != bytes@ by {
                encode_then_decode(i);
            }
        }
        Instruction::from_word(word_from_bytes(bytes))
    }
}

} // verus!
