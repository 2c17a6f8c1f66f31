//! An instruction as a line of assembly text, for a reader.
//!
//! The line is the mnemonic in capitals, then the operands in the order of the
//! processor's manual: registers as `$` and their number, immediates and
//! offsets in signed decimal, shift amounts and codes in decimal, jump targets
//! and coprocessor functions in hexadecimal, and the base of a load or store in
//! parentheses behind its offset.

use crate::mips::instruction::Instruction;
use crate::mips::operand::Coprocessor;
use crate::mips::text::{
    decimal, digit, digit_str, hexadecimal, push_decimal, push_hexadecimal, push_register,
    push_signed_decimal, register_name, signed_decimal,
};
use vstd::prelude::*;
use vstd::string::StringExecFns;

verus! {

/// A name that ends in the number of a coprocessor.
fn numbered_name(prefix: &str, cop: &Coprocessor) -> (s: String)
    ensures
        s@ == prefix@ + digit(cop.unit() as nat),
{
    String::from_str(prefix).concat(digit_str(cop.number()))
}

impl Instruction {
    /// The mnemonic, with the number of the coprocessor in place of `z`.
    pub open spec fn name(&self) -> Seq<char> {
        match *self {
            Instruction::ADD(_, _, _) => "ADD"@,
            Instruction::ADDU(_, _, _) => "ADDU"@,
            Instruction::SUB(_, _, _) => "SUB"@,
            Instruction::SUBU(_, _, _) => "SUBU"@,
            Instruction::AND(_, _, _) => "AND"@,
            Instruction::OR(_, _, _) => "OR"@,
            Instruction::XOR(_, _, _) => "XOR"@,
            Instruction::NOR(_, _, _) => "NOR"@,
            Instruction::SLT(_, _, _) => "SLT"@,
            Instruction::SLTU(_, _, _) => "SLTU"@,
            Instruction::DADD(_, _, _) => "DADD"@,
            Instruction::DADDU(_, _, _) => "DADDU"@,
            Instruction::DSUB(_, _, _) => "DSUB"@,
            Instruction::DSUBU(_, _, _) => "DSUBU"@,
            Instruction::SLL(_, _, _) => "SLL"@,
            Instruction::SRL(_, _, _) => "SRL"@,
            Instruction::SRA(_, _, _) => "SRA"@,
            Instruction::DSLL(_, _, _) => "DSLL"@,
            Instruction::DSRL(_, _, _) => "DSRL"@,
            Instruction::DSRA(_, _, _) => "DSRA"@,
            Instruction::DSLL32(_, _, _) => "DSLL32"@,
            Instruction::DSRL32(_, _, _) => "DSRL32"@,
            Instruction::DSRA32(_, _, _) => "DSRA32"@,
            Instruction::SLLV(_, _, _) => "SLLV"@,
            Instruction::SRLV(_, _, _) => "SRLV"@,
            Instruction::SRAV(_, _, _) => "SRAV"@,
            Instruction::DSLLV(_, _, _) => "DSLLV"@,
            Instruction::DSRLV(_, _, _) => "DSRLV"@,
            Instruction::DSRAV(_, _, _) => "DSRAV"@,
            Instruction::MULT(_, _) => "MULT"@,
            Instruction::MULTU(_, _) => "MULTU"@,
            Instruction::DIV(_, _) => "DIV"@,
            Instruction::DIVU(_, _) => "DIVU"@,
            Instruction::DMULT(_, _) => "DMULT"@,
            Instruction::DMULTU(_, _) => "DMULTU"@,
            Instruction::DDIV(_, _) => "DDIV"@,
            Instruction::DDIVU(_, _) => "DDIVU"@,
            Instruction::MFHI(_) => "MFHI"@,
            Instruction::MFLO(_) => "MFLO"@,
            Instruction::MTHI(_) => "MTHI"@,
            Instruction::MTLO(_) => "MTLO"@,
            Instruction::JR(_) => "JR"@,
            Instruction::JALR(_, _) => "JALR"@,
            Instruction::TGE(_, _, _) => "TGE"@,
            Instruction::TGEU(_, _, _) => "TGEU"@,
            Instruction::TLT(_, _, _) => "TLT"@,
            Instruction::TLTU(_, _, _) => "TLTU"@,
            Instruction::TEQ(_, _, _) => "TEQ"@,
            Instruction::TNE(_, _, _) => "TNE"@,
            Instruction::SYSCALL(_) => "SYSCALL"@,
            Instruction::BREAK(_) => "BREAK"@,
            Instruction::BLTZ(_, _) => "BLTZ"@,
            Instruction::BGEZ(_, _) => "BGEZ"@,
            Instruction::BLTZL(_, _) => "BLTZL"@,
            Instruction::BGEZL(_, _) => "BGEZL"@,
            Instruction::BLTZAL(_, _) => "BLTZAL"@,
            Instruction::BGEZAL(_, _) => "BGEZAL"@,
            Instruction::BLTZALL(_, _) => "BLTZALL"@,
            Instruction::BGEZALL(_, _) => "BGEZALL"@,
            Instruction::TGEI(_, _) => "TGEI"@,
            Instruction::TGEIU(_, _) => "TGEIU"@,
            Instruction::TLTI(_, _) => "TLTI"@,
            Instruction::TLTIU(_, _) => "TLTIU"@,
            Instruction::TEQI(_, _) => "TEQI"@,
            Instruction::TNEI(_, _) => "TNEI"@,
            Instruction::J(_) => "J"@,
            Instruction::JAL(_) => "JAL"@,
            Instruction::BEQ(_, _, _) => "BEQ"@,
            Instruction::BNE(_, _, _) => "BNE"@,
            Instruction::BEQL(_, _, _) => "BEQL"@,
            Instruction::BNEL(_, _, _) => "BNEL"@,
            Instruction::BLEZ(_, _) => "BLEZ"@,
            Instruction::BGTZ(_, _) => "BGTZ"@,
            Instruction::BLEZL(_, _) => "BLEZL"@,
            Instruction::BGTZL(_, _) => "BGTZL"@,
            Instruction::ADDI(_, _, _) => "ADDI"@,
            Instruction::ADDIU(_, _, _) => "ADDIU"@,
            Instruction::SLTI(_, _, _) => "SLTI"@,
            Instruction::SLTIU(_, _, _) => "SLTIU"@,
            Instruction::ANDI(_, _, _) => "ANDI"@,
            Instruction::ORI(_, _, _) => "ORI"@,
            Instruction::XORI(_, _, _) => "XORI"@,
            Instruction::DADDI(_, _, _) => "DADDI"@,
            Instruction::DADDIU(_, _, _) => "DADDIU"@,
            Instruction::LUI(_, _) => "LUI"@,
            Instruction::LDL(_, _, _) => "LDL"@,
            Instruction::LDR(_, _, _) => "LDR"@,
            Instruction::LB(_, _, _) => "LB"@,
            Instruction::LH(_, _, _) => "LH"@,
            Instruction::LWL(_, _, _) => "LWL"@,
            Instruction::LW(_, _, _) => "LW"@,
            Instruction::LBU(_, _, _) => "LBU"@,
            Instruction::LHU(_, _, _) => "LHU"@,
            Instruction::LWR(_, _, _) => "LWR"@,
            Instruction::LWU(_, _, _) => "LWU"@,
            Instruction::SB(_, _, _) => "SB"@,
            Instruction::SH(_, _, _) => "SH"@,
            Instruction::SWL(_, _, _) => "SWL"@,
            Instruction::SW(_, _, _) => "SW"@,
            Instruction::SDL(_, _, _) => "SDL"@,
            Instruction::SDR(_, _, _) => "SDR"@,
            Instruction::SWR(_, _, _) => "SWR"@,
            Instruction::LL(_, _, _) => "LL"@,
            Instruction::LLD(_, _, _) => "LLD"@,
            Instruction::LD(_, _, _) => "LD"@,
            Instruction::SC(_, _, _) => "SC"@,
            Instruction::SCD(_, _, _) => "SCD"@,
            Instruction::SD(_, _, _) => "SD"@,
            Instruction::CACHE(_, _, _) => "CACHE"@,
            Instruction::LWCz(cop, _, _, _) => "LWC"@ + digit(cop.unit() as nat),
            Instruction::LDCz(cop, _, _, _) => "LDC"@ + digit(cop.unit() as nat),
            Instruction::SWCz(cop, _, _, _) => "SWC"@ + digit(cop.unit() as nat),
            Instruction::SDCz(cop, _, _, _) => "SDC"@ + digit(cop.unit() as nat),
            Instruction::MFC0(_, _) => "MFC0"@,
            Instruction::DMFC0(_, _) => "DMFC0"@,
            Instruction::MTC0(_, _) => "MTC0"@,
            Instruction::DMTC0(_, _) => "DMTC0"@,
            Instruction::MFCz(cop, _, _) => "MFC"@ + digit(cop.unit() as nat),
            Instruction::CFCz(cop, _, _) => "CFC"@ + digit(cop.unit() as nat),
            Instruction::MTCz(cop, _, _) => "MTC"@ + digit(cop.unit() as nat),
            Instruction::CTCz(cop, _, _) => "CTC"@ + digit(cop.unit() as nat),
            Instruction::BCzF(cop, _) => "BC"@ + digit(cop.unit() as nat) + "F"@,
            Instruction::BCzT(cop, _) => "BC"@ + digit(cop.unit() as nat) + "T"@,
            Instruction::BCzFL(cop, _) => "BC"@ + digit(cop.unit() as nat) + "FL"@,
            Instruction::BCzTL(cop, _) => "BC"@ + digit(cop.unit() as nat) + "TL"@,
            Instruction::COPz(cop, _) => "COP"@ + digit(cop.unit() as nat),
            Instruction::SYNC => "SYNC"@,
            Instruction::TLBR => "TLBR"@,
            Instruction::TLBWI => "TLBWI"@,
            Instruction::TLBWR => "TLBWR"@,
            Instruction::TLBP => "TLBP"@,
            Instruction::ERET => "ERET"@,
        }
    }

    /// The line of assembly text: the mnemonic and, after a space, the operands.
    pub open spec fn text(&self) -> Seq<char> {
        match *self {
            Instruction::ADD(rd, rs, rt)
            | Instruction::ADDU(rd, rs, rt)
            | Instruction::SUB(rd, rs, rt)
            | Instruction::SUBU(rd, rs, rt)
            | Instruction::AND(rd, rs, rt)
            | Instruction::OR(rd, rs, rt)
            | Instruction::XOR(rd, rs, rt)
            | Instruction::NOR(rd, rs, rt)
            | Instruction::SLT(rd, rs, rt)
            | Instruction::SLTU(rd, rs, rt)
            | Instruction::DADD(rd, rs, rt)
            | Instruction::DADDU(rd, rs, rt)
            | Instruction::DSUB(rd, rs, rt)
            | Instruction::DSUBU(rd, rs, rt) => {
                self.name() + " "@ + register_name(rd) + ", "@ + register_name(rs) + ", "@
                    + register_name(rt)
            },
            Instruction::SLL(rd, rt, sa)
            | Instruction::SRL(rd, rt, sa)
            | Instruction::SRA(rd, rt, sa)
            | Instruction::DSLL(rd, rt, sa)
            | Instruction::DSRL(rd, rt, sa)
            | Instruction::DSRA(rd, rt, sa)
            | Instruction::DSLL32(rd, rt, sa)
            | Instruction::DSRL32(rd, rt, sa)
            | Instruction::DSRA32(rd, rt, sa) => {
                self.name() + " "@ + register_name(rd) + ", "@ + register_name(rt) + ", "@
                    + decimal(sa as nat)
            },
            Instruction::SLLV(rd, rt, rs)
            | Instruction::SRLV(rd, rt, rs)
            | Instruction::SRAV(rd, rt, rs)
            | Instruction::DSLLV(rd, rt, rs)
            | Instruction::DSRLV(rd, rt, rs)
            | Instruction::DSRAV(rd, rt, rs) => {
                self.name() + " "@ + register_name(rd) + ", "@ + register_name(rt) + ", "@
                    + register_name(rs)
            },
            Instruction::MULT(rs, rt)
            | Instruction::MULTU(rs, rt)
            | Instruction::DIV(rs, rt)
            | Instruction::DIVU(rs, rt)
            | Instruction::DMULT(rs, rt)
            | Instruction::DMULTU(rs, rt)
            | Instruction::DDIV(rs, rt)
            | Instruction::DDIVU(rs, rt) => {
                self.name() + " "@ + register_name(rs) + ", "@ + register_name(rt)
            },
            Instruction::MFHI(rd)
            | Instruction::MFLO(rd) => {
                self.name() + " "@ + register_name(rd)
            },
            Instruction::MTHI(rs)
            | Instruction::MTLO(rs)
            | Instruction::JR(rs) => {
                self.name() + " "@ + register_name(rs)
            },
            Instruction::JALR(rd, rs) => {
                self.name() + " "@ + register_name(rd) + ", "@ + register_name(rs)
            },
            Instruction::TGE(rs, rt, code)
            | Instruction::TGEU(rs, rt, code)
            | Instruction::TLT(rs, rt, code)
            | Instruction::TLTU(rs, rt, code)
            | Instruction::TEQ(rs, rt, code)
            | Instruction::TNE(rs, rt, code) => {
                self.name() + " "@ + register_name(rs) + ", "@ + register_name(rt) + ", "@
                    + decimal(code as nat)
            },
            Instruction::SYSCALL(code)
            | Instruction::BREAK(code) => {
                self.name() + " "@ + decimal(code as nat)
            },
            Instruction::BLTZ(rs, offset)
            | Instruction::BGEZ(rs, offset)
            | Instruction::BLTZL(rs, offset)
            | Instruction::BGEZL(rs, offset)
            | Instruction::BLTZAL(rs, offset)
            | Instruction::BGEZAL(rs, offset)
            | Instruction::BLTZALL(rs, offset)
            | Instruction::BGEZALL(rs, offset)
            | Instruction::BLEZ(rs, offset)
            | Instruction::BGTZ(rs, offset)
            | Instruction::BLEZL(rs, offset)
            | Instruction::BGTZL(rs, offset) => {
                self.name() + " "@ + register_name(rs) + ", "@ + signed_decimal(offset as int)
            },
            Instruction::TGEI(rs, immediate)
            | Instruction::TGEIU(rs, immediate)
            | Instruction::TLTI(rs, immediate)
            | Instruction::TLTIU(rs, immediate)
            | Instruction::TEQI(rs, immediate)
            | Instruction::TNEI(rs, immediate) => {
                self.name() + " "@ + register_name(rs) + ", "@ + signed_decimal(immediate as int)
            },
            Instruction::J(target)
            | Instruction::JAL(target) => {
                self.name() + " "@ + hexadecimal(target as nat)
            },
            Instruction::BEQ(rs, rt, offset)
            | Instruction::BNE(rs, rt, offset)
            | Instruction::BEQL(rs, rt, offset)
            | Instruction::BNEL(rs, rt, offset) => {
                self.name() + " "@ + register_name(rs) + ", "@ + register_name(rt) + ", "@
                    + signed_decimal(offset as int)
            },
            Instruction::ADDI(rt, rs, immediate)
            | Instruction::ADDIU(rt, rs, immediate)
            | Instruction::SLTI(rt, rs, immediate)
            | Instruction::SLTIU(rt, rs, immediate)
            | Instruction::ANDI(rt, rs, immediate)
            | Instruction::ORI(rt, rs, immediate)
            | Instruction::XORI(rt, rs, immediate)
            | Instruction::DADDI(rt, rs, immediate)
            | Instruction::DADDIU(rt, rs, immediate) => {
                self.name() + " "@ + register_name(rt) + ", "@ + register_name(rs) + ", "@
                    + signed_decimal(immediate as int)
            },
            Instruction::LUI(rt, immediate) => {
                self.name() + " "@ + register_name(rt) + ", "@ + signed_decimal(immediate as int)
            },
            Instruction::LDL(rt, offset, base)
            | Instruction::LDR(rt, offset, base)
            | Instruction::LB(rt, offset, base)
            | Instruction::LH(rt, offset, base)
            | Instruction::LWL(rt, offset, base)
            | Instruction::LW(rt, offset, base)
            | Instruction::LBU(rt, offset, base)
            | Instruction::LHU(rt, offset, base)
            | Instruction::LWR(rt, offset, base)
            | Instruction::LWU(rt, offset, base)
            | Instruction::SB(rt, offset, base)
            | Instruction::SH(rt, offset, base)
            | Instruction::SWL(rt, offset, base)
            | Instruction::SW(rt, offset, base)
            | Instruction::SDL(rt, offset, base)
            | Instruction::SDR(rt, offset, base)
            | Instruction::SWR(rt, offset, base)
            | Instruction::LL(rt, offset, base)
            | Instruction::LLD(rt, offset, base)
            | Instruction::LD(rt, offset, base)
            | Instruction::SC(rt, offset, base)
            | Instruction::SCD(rt, offset, base)
            | Instruction::SD(rt, offset, base)
            | Instruction::LWCz(_, rt, offset, base)
            | Instruction::LDCz(_, rt, offset, base)
            | Instruction::SWCz(_, rt, offset, base)
            | Instruction::SDCz(_, rt, offset, base) => {
                self.name() + " "@ + register_name(rt) + ", "@ + signed_decimal(offset as int)
                    + "("@ + register_name(base) + ")"@
            },
            Instruction::CACHE(op, offset, base) => {
                self.name() + " "@ + decimal(op as nat) + ", "@ + signed_decimal(offset as int)
                    + "("@ + register_name(base) + ")"@
            },
            Instruction::MFC0(rt, rd)
            | Instruction::DMFC0(rt, rd)
            | Instruction::MTC0(rt, rd)
            | Instruction::DMTC0(rt, rd)
            | Instruction::MFCz(_, rt, rd)
            | Instruction::CFCz(_, rt, rd)
            | Instruction::MTCz(_, rt, rd)
            | Instruction::CTCz(_, rt, rd) => {
                self.name() + " "@ + register_name(rt) + ", "@ + register_name(rd)
            },
            Instruction::BCzF(_, offset)
            | Instruction::BCzT(_, offset)
            | Instruction::BCzFL(_, offset)
            | Instruction::BCzTL(_, offset) => {
                self.name() + " "@ + signed_decimal(offset as int)
            },
            Instruction::COPz(_, cofun) => self.name() + " "@ + hexadecimal(cofun as nat),
            Instruction::SYNC
            | Instruction::TLBR
            | Instruction::TLBWI
            | Instruction::TLBWR
            | Instruction::TLBP
            | Instruction::ERET => {
                self.name()
            },
        }
    }

    /// The mnemonic, with the number of the coprocessor in place of `z`.
    pub fn mnemonic(&self) -> (s: String)
        ensures
            s@ == self.name(),
    {
        match *self {
            Instruction::ADD(_, _, _) => String::from_str("ADD"),
            Instruction::ADDU(_, _, _) => String::from_str("ADDU"),
            Instruction::SUB(_, _, _) => String::from_str("SUB"),
            Instruction::SUBU(_, _, _) => String::from_str("SUBU"),
            Instruction::AND(_, _, _) => String::from_str("AND"),
            Instruction::OR(_, _, _) => String::from_str("OR"),
            Instruction::XOR(_, _, _) => String::from_str("XOR"),
            Instruction::NOR(_, _, _) => String::from_str("NOR"),
            Instruction::SLT(_, _, _) => String::from_str("SLT"),
            Instruction::SLTU(_, _, _) => String::from_str("SLTU"),
            Instruction::DADD(_, _, _) => String::from_str("DADD"),
            Instruction::DADDU(_, _, _) => String::from_str("DADDU"),
            Instruction::DSUB(_, _, _) => String::from_str("DSUB"),
            Instruction::DSUBU(_, _, _) => String::from_str("DSUBU"),
            Instruction::SLL(_, _, _) => String::from_str("SLL"),
            Instruction::SRL(_, _, _) => String::from_str("SRL"),
            Instruction::SRA(_, _, _) => String::from_str("SRA"),
            Instruction::DSLL(_, _, _) => String::from_str("DSLL"),
            Instruction::DSRL(_, _, _) => String::from_str("DSRL"),
            Instruction::DSRA(_, _, _) => String::from_str("DSRA"),
            Instruction::DSLL32(_, _, _) => String::from_str("DSLL32"),
            Instruction::DSRL32(_, _, _) => String::from_str("DSRL32"),
            Instruction::DSRA32(_, _, _) => String::from_str("DSRA32"),
            Instruction::SLLV(_, _, _) => String::from_str("SLLV"),
            Instruction::SRLV(_, _, _) => String::from_str("SRLV"),
            Instruction::SRAV(_, _, _) => String::from_str("SRAV"),
            Instruction::DSLLV(_, _, _) => String::from_str("DSLLV"),
            Instruction::DSRLV(_, _, _) => String::from_str("DSRLV"),
            Instruction::DSRAV(_, _, _) => String::from_str("DSRAV"),
            Instruction::MULT(_, _) => String::from_str("MULT"),
            Instruction::MULTU(_, _) => String::from_str("MULTU"),
            Instruction::DIV(_, _) => String::from_str("DIV"),
            Instruction::DIVU(_, _) => String::from_str("DIVU"),
            Instruction::DMULT(_, _) => String::from_str("DMULT"),
            Instruction::DMULTU(_, _) => String::from_str("DMULTU"),
            Instruction::DDIV(_, _) => String::from_str("DDIV"),
            Instruction::DDIVU(_, _) => String::from_str("DDIVU"),
            Instruction::MFHI(_) => String::from_str("MFHI"),
            Instruction::MFLO(_) => String::from_str("MFLO"),
            Instruction::MTHI(_) => String::from_str("MTHI"),
            Instruction::MTLO(_) => String::from_str("MTLO"),
            Instruction::JR(_) => String::from_str("JR"),
            Instruction::JALR(_, _) => String::from_str("JALR"),
            Instruction::TGE(_, _, _) => String::from_str("TGE"),
            Instruction::TGEU(_, _, _) => String::from_str("TGEU"),
            Instruction::TLT(_, _, _) => String::from_str("TLT"),
            Instruction::TLTU(_, _, _) => String::from_str("TLTU"),
            Instruction::TEQ(_, _, _) => String::from_str("TEQ"),
            Instruction::TNE(_, _, _) => String::from_str("TNE"),
            Instruction::SYSCALL(_) => String::from_str("SYSCALL"),
            Instruction::BREAK(_) => String::from_str("BREAK"),
            Instruction::BLTZ(_, _) => String::from_str("BLTZ"),
            Instruction::BGEZ(_, _) => String::from_str("BGEZ"),
            Instruction::BLTZL(_, _) => String::from_str("BLTZL"),
            Instruction::BGEZL(_, _) => String::from_str("BGEZL"),
            Instruction::BLTZAL(_, _) => String::from_str("BLTZAL"),
            Instruction::BGEZAL(_, _) => String::from_str("BGEZAL"),
            Instruction::BLTZALL(_, _) => String::from_str("BLTZALL"),
            Instruction::BGEZALL(_, _) => String::from_str("BGEZALL"),
            Instruction::TGEI(_, _) => String::from_str("TGEI"),
            Instruction::TGEIU(_, _) => String::from_str("TGEIU"),
            Instruction::TLTI(_, _) => String::from_str("TLTI"),
            Instruction::TLTIU(_, _) => String::from_str("TLTIU"),
            Instruction::TEQI(_, _) => String::from_str("TEQI"),
            Instruction::TNEI(_, _) => String::from_str("TNEI"),
            Instruction::J(_) => String::from_str("J"),
            Instruction::JAL(_) => String::from_str("JAL"),
            Instruction::BEQ(_, _, _) => String::from_str("BEQ"),
            Instruction::BNE(_, _, _) => String::from_str("BNE"),
            Instruction::BEQL(_, _, _) => String::from_str("BEQL"),
            Instruction::BNEL(_, _, _) => String::from_str("BNEL"),
            Instruction::BLEZ(_, _) => String::from_str("BLEZ"),
            Instruction::BGTZ(_, _) => String::from_str("BGTZ"),
            Instruction::BLEZL(_, _) => String::from_str("BLEZL"),
            Instruction::BGTZL(_, _) => String::from_str("BGTZL"),
            Instruction::ADDI(_, _, _) => String::from_str("ADDI"),
            Instruction::ADDIU(_, _, _) => String::from_str("ADDIU"),
            Instruction::SLTI(_, _, _) => String::from_str("SLTI"),
            Instruction::SLTIU(_, _, _) => String::from_str("SLTIU"),
            Instruction::ANDI(_, _, _) => String::from_str("ANDI"),
            Instruction::ORI(_, _, _) => String::from_str("ORI"),
            Instruction::XORI(_, _, _) => String::from_str("XORI"),
            Instruction::DADDI(_, _, _) => String::from_str("DADDI"),
            Instruction::DADDIU(_, _, _) => String::from_str("DADDIU"),
            Instruction::LUI(_, _) => String::from_str("LUI"),
            Instruction::LDL(_, _, _) => String::from_str("LDL"),
            Instruction::LDR(_, _, _) => String::from_str("LDR"),
            Instruction::LB(_, _, _) => String::from_str("LB"),
            Instruction::LH(_, _, _) => String::from_str("LH"),
            Instruction::LWL(_, _, _) => String::from_str("LWL"),
            Instruction::LW(_, _, _) => String::from_str("LW"),
            Instruction::LBU(_, _, _) => String::from_str("LBU"),
            Instruction::LHU(_, _, _) => String::from_str("LHU"),
            Instruction::LWR(_, _, _) => String::from_str("LWR"),
            Instruction::LWU(_, _, _) => String::from_str("LWU"),
            Instruction::SB(_, _, _) => String::from_str("SB"),
            Instruction::SH(_, _, _) => String::from_str("SH"),
            Instruction::SWL(_, _, _) => String::from_str("SWL"),
            Instruction::SW(_, _, _) => String::from_str("SW"),
            Instruction::SDL(_, _, _) => String::from_str("SDL"),
            Instruction::SDR(_, _, _) => String::from_str("SDR"),
            Instruction::SWR(_, _, _) => String::from_str("SWR"),
            Instruction::LL(_, _, _) => String::from_str("LL"),
            Instruction::LLD(_, _, _) => String::from_str("LLD"),
            Instruction::LD(_, _, _) => String::from_str("LD"),
            Instruction::SC(_, _, _) => String::from_str("SC"),
            Instruction::SCD(_, _, _) => String::from_str("SCD"),
            Instruction::SD(_, _, _) => String::from_str("SD"),
            Instruction::CACHE(_, _, _) => String::from_str("CACHE"),
            Instruction::LWCz(cop, _, _, _) => numbered_name("LWC", &cop),
            Instruction::LDCz(cop, _, _, _) => numbered_name("LDC", &cop),
            Instruction::SWCz(cop, _, _, _) => numbered_name("SWC", &cop),
            Instruction::SDCz(cop, _, _, _) => numbered_name("SDC", &cop),
            Instruction::MFC0(_, _) => String::from_str("MFC0"),
            Instruction::DMFC0(_, _) => String::from_str("DMFC0"),
            Instruction::MTC0(_, _) => String::from_str("MTC0"),
            Instruction::DMTC0(_, _) => String::from_str("DMTC0"),
            Instruction::MFCz(cop, _, _) => numbered_name("MFC", &cop),
            Instruction::CFCz(cop, _, _) => numbered_name("CFC", &cop),
            Instruction::MTCz(cop, _, _) => numbered_name("MTC", &cop),
            Instruction::CTCz(cop, _, _) => numbered_name("CTC", &cop),
            Instruction::BCzF(cop, _) => numbered_name("BC", &cop).concat("F"),
            Instruction::BCzT(cop, _) => numbered_name("BC", &cop).concat("T"),
            Instruction::BCzFL(cop, _) => numbered_name("BC", &cop).concat("FL"),
            Instruction::BCzTL(cop, _) => numbered_name("BC", &cop).concat("TL"),
            Instruction::COPz(cop, _) => numbered_name("COP", &cop),
            Instruction::SYNC => String::from_str("SYNC"),
            Instruction::TLBR => String::from_str("TLBR"),
            Instruction::TLBWI => String::from_str("TLBWI"),
            Instruction::TLBWR => String::from_str("TLBWR"),
            Instruction::TLBP => String::from_str("TLBP"),
            Instruction::ERET => String::from_str("ERET"),
        }
    }

    /// The line of assembly text: the mnemonic and, after a space, the operands.
    pub fn render(&self) -> (s: String)
        ensures
            s@ == self.text(),
    {
        let mut s = self.mnemonic();
        match *self {
            Instruction::ADD(rd, rs, rt)
            | Instruction::ADDU(rd, rs, rt)
            | Instruction::SUB(rd, rs, rt)
            | Instruction::SUBU(rd, rs, rt)
            | Instruction::AND(rd, rs, rt)
            | Instruction::OR(rd, rs, rt)
            | Instruction::XOR(rd, rs, rt)
            | Instruction::NOR(rd, rs, rt)
            | Instruction::SLT(rd, rs, rt)
            | Instruction::SLTU(rd, rs, rt)
            | Instruction::DADD(rd, rs, rt)
            | Instruction::DADDU(rd, rs, rt)
            | Instruction::DSUB(rd, rs, rt)
            | Instruction::DSUBU(rd, rs, rt) => {
                s.append(" ");
                push_register(&mut s, &rd);
                s.append(", ");
                push_register(&mut s, &rs);
                s.append(", ");
                push_register(&mut s, &rt);
            },
            Instruction::SLL(rd, rt, sa)
            | Instruction::SRL(rd, rt, sa)
            | Instruction::SRA(rd, rt, sa)
            | Instruction::DSLL(rd, rt, sa)
            | Instruction::DSRL(rd, rt, sa)
            | Instruction::DSRA(rd, rt, sa)
            | Instruction::DSLL32(rd, rt, sa)
            | Instruction::DSRL32(rd, rt, sa)
            | Instruction::DSRA32(rd, rt, sa) => {
                s.append(" ");
                push_register(&mut s, &rd);
                s.append(", ");
                push_register(&mut s, &rt);
                s.append(", ");
                push_decimal(&mut s, sa as u32);
            },
            Instruction::SLLV(rd, rt, rs)
            | Instruction::SRLV(rd, rt, rs)
            | Instruction::SRAV(rd, rt, rs)
            | Instruction::DSLLV(rd, rt, rs)
            | Instruction::DSRLV(rd, rt, rs)
            | Instruction::DSRAV(rd, rt, rs) => {
                s.append(" ");
                push_register(&mut s, &rd);
                s.append(", ");
                push_register(&mut s, &rt);
                s.append(", ");
                push_register(&mut s, &rs);
            },
            Instruction::MULT(rs, rt)
            | Instruction::MULTU(rs, rt)
            | Instruction::DIV(rs, rt)
            | Instruction::DIVU(rs, rt)
            | Instruction::DMULT(rs, rt)
            | Instruction::DMULTU(rs, rt)
            | Instruction::DDIV(rs, rt)
            | Instruction::DDIVU(rs, rt) => {
                s.append(" ");
                push_register(&mut s, &rs);
                s.append(", ");
                push_register(&mut s, &rt);
            },
            Instruction::MFHI(rd)
            | Instruction::MFLO(rd) => {
                s.append(" ");
                push_register(&mut s, &rd);
            },
            Instruction::MTHI(rs)
            | Instruction::MTLO(rs)
            | Instruction::JR(rs) => {
                s.append(" ");
                push_register(&mut s, &rs);
            },
            Instruction::JALR(rd, rs) => {
                s.append(" ");
                push_register(&mut s, &rd);
                s.append(", ");
                push_register(&mut s, &rs);
            },
            Instruction::TGE(rs, rt, code)
            | Instruction::TGEU(rs, rt, code)
            | Instruction::TLT(rs, rt, code)
            | Instruction::TLTU(rs, rt, code)
            | Instruction::TEQ(rs, rt, code)
            | Instruction::TNE(rs, rt, code) => {
                s.append(" ");
                push_register(&mut s, &rs);
                s.append(", ");
                push_register(&mut s, &rt);
                s.append(", ");
                push_decimal(&mut s, code as u32);
            },
            Instruction::SYSCALL(code)
            | Instruction::BREAK(code) => {
                s.append(" ");
                push_decimal(&mut s, code);
            },
            Instruction::BLTZ(rs, offset)
            | Instruction::BGEZ(rs, offset)
            | Instruction::BLTZL(rs, offset)
            | Instruction::BGEZL(rs, offset)
            | Instruction::BLTZAL(rs, offset)
            | Instruction::BGEZAL(rs, offset)
            | Instruction::BLTZALL(rs, offset)
            | Instruction::BGEZALL(rs, offset)
            | Instruction::BLEZ(rs, offset)
            | Instruction::BGTZ(rs, offset)
            | Instruction::BLEZL(rs, offset)
            | Instruction::BGTZL(rs, offset) => {
                s.append(" ");
                push_register(&mut s, &rs);
                s.append(", ");
                push_signed_decimal(&mut s, offset);
            },
            Instruction::TGEI(rs, immediate)
            | Instruction::TGEIU(rs, immediate)
            | Instruction::TLTI(rs, immediate)
            | Instruction::TLTIU(rs, immediate)
            | Instruction::TEQI(rs, immediate)
            | Instruction::TNEI(rs, immediate) => {
                s.append(" ");
                push_register(&mut s, &rs);
                s.append(", ");
                push_signed_decimal(&mut s, immediate);
            },
            Instruction::J(target)
            | Instruction::JAL(target) => {
                s.append(" ");
                push_hexadecimal(&mut s, target);
            },
            Instruction::BEQ(rs, rt, offset)
            | Instruction::BNE(rs, rt, offset)
            | Instruction::BEQL(rs, rt, offset)
            | Instruction::BNEL(rs, rt, offset) => {
                s.append(" ");
                push_register(&mut s, &rs);
                s.append(", ");
                push_register(&mut s, &rt);
                s.append(", ");
                push_signed_decimal(&mut s, offset);
            },
            Instruction::ADDI(rt, rs, immediate)
            | Instruction::ADDIU(rt, rs, immediate)
            | Instruction::SLTI(rt, rs, immediate)
            | Instruction::SLTIU(rt, rs, immediate)
            | Instruction::ANDI(rt, rs, immediate)
            | Instruction::ORI(rt, rs, immediate)
            | Instruction::XORI(rt, rs, immediate)
            | Instruction::DADDI(rt, rs, immediate)
            | Instruction::DADDIU(rt, rs, immediate) => {
                s.append(" ");
                push_register(&mut s, &rt);
                s.append(", ");
                push_register(&mut s, &rs);
                s.append(", ");
                push_signed_decimal(&mut s, immediate);
            },
            Instruction::LUI(rt, immediate) => {
                s.append(" ");
                push_register(&mut s, &rt);
                s.append(", ");
                push_signed_decimal(&mut s, immediate);
            },
            Instruction::LDL(rt, offset, base)
            | Instruction::LDR(rt, offset, base)
            | Instruction::LB(rt, offset, base)
            | Instruction::LH(rt, offset, base)
            | Instruction::LWL(rt, offset, base)
            | Instruction::LW(rt, offset, base)
            | Instruction::LBU(rt, offset, base)
            | Instruction::LHU(rt, offset, base)
            | Instruction::LWR(rt, offset, base)
            | Instruction::LWU(rt, offset, base)
            | Instruction::SB(rt, offset, base)
            | Instruction::SH(rt, offset, base)
            | Instruction::SWL(rt, offset, base)
            | Instruction::SW(rt, offset, base)
            | Instruction::SDL(rt, offset, base)
            | Instruction::SDR(rt, offset, base)
            | Instruction::SWR(rt, offset, base)
            | Instruction::LL(rt, offset, base)
            | Instruction::LLD(rt, offset, base)
            | Instruction::LD(rt, offset, base)
            | Instruction::SC(rt, offset, base)
            | Instruction::SCD(rt, offset, base)
            | Instruction::SD(rt, offset, base)
            | Instruction::LWCz(_, rt, offset, base)
            | Instruction::LDCz(_, rt, offset, base)
            | Instruction::SWCz(_, rt, offset, base)
            | Instruction::SDCz(_, rt, offset, base) => {
                s.append(" ");
                push_register(&mut s, &rt);
                s.append(", ");
                push_signed_decimal(&mut s, offset);
                s.append("(");
                push_register(&mut s, &base);
                s.append(")");
            },
            Instruction::CACHE(op, offset, base) => {
                s.append(" ");
                push_decimal(&mut s, op as u32);
                s.append(", ");
                push_signed_decimal(&mut s, offset);
                s.append("(");
                push_register(&mut s, &base);
                s.append(")");
            },
            Instruction::MFC0(rt, rd)
            | Instruction::DMFC0(rt, rd)
            | Instruction::MTC0(rt, rd)
            | Instruction::DMTC0(rt, rd)
            | Instruction::MFCz(_, rt, rd)
            | Instruction::CFCz(_, rt, rd)
            | Instruction::MTCz(_, rt, rd)
            | Instruction::CTCz(_, rt, rd) => {
                s.append(" ");
                push_register(&mut s, &rt);
                s.append(", ");
                push_register(&mut s, &rd);
            },
            Instruction::BCzF(_, offset)
            | Instruction::BCzT(_, offset)
            | Instruction::BCzFL(_, offset)
            | Instruction::BCzTL(_, offset) => {
                s.append(" ");
                push_signed_decimal(&mut s, offset);
            },
            Instruction::COPz(_, cofun) => {
                s.append(" ");
                push_hexadecimal(&mut s, cofun);
            },
            Instruction::SYNC
            | Instruction::TLBR
            | Instruction::TLBWI
            | Instruction::TLBWR
            | Instruction::TLBP
            | Instruction::ERET => {},
        }
        s
    }
}

} // verus!
