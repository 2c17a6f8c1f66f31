use std::convert::TryFrom;
use ztar_rod::mips::{Coprocessor, Instruction, Register};

// The operand values that each instruction is tried with.

fn reg() -> Vec<Register> {
    (0..=31).map(|r| Register::try_from(r).unwrap()).collect()
}

fn target() -> Vec<u32> {
    vec![0, 4, 8, 0x0fff_fffc]
}

fn imm() -> Vec<i16> {
    vec![-32768, -32767, -256, -128, -1, 0, 1, 128, 256, 32766, 32767]
}

fn cofun() -> Vec<u32> {
    vec![0, 1, 0x1ff_fffe, 0x1ff_ffff]
}

fn cacheop() -> Vec<u8> {
    (0..=31).collect()
}

fn cop() -> Vec<Coprocessor> {
    vec![Coprocessor::COP1, Coprocessor::COP2]
}

fn shift() -> Vec<u8> {
    (0..=31).collect()
}

fn code10() -> Vec<u16> {
    vec![0, 1, 2, 0x3fe, 0x3ff]
}

fn code20() -> Vec<u32> {
    vec![0, 1, 2, 0xf_fffe, 0xf_ffff]
}

fn round_trip(i: Instruction) {
    assert!(i.is_well_formed());
    let encoded = i.encode();
    let decoded = Instruction::decode(encoded).unwrap();
    assert_eq!(decoded, i, "encoded as {:02X?}", encoded);
}

#[test]
#[allow(non_snake_case)]
fn ADD() {
    for rd in reg() {
        for rs in reg() {
            for rt in reg() {
                round_trip(Instruction::ADD(rd, rs, rt));
            }
        }
    }
}

#[test]
#[allow(non_snake_case)]
fn ADDI() {
    for rt in reg() {
        for rs in reg() {
            for immediate in imm() {
                round_trip(Instruction::ADDI(rt, rs, immediate));
            }
        }
    }
}

#[test]
#[allow(non_snake_case)]
fn ADDIU() {
    for rt in reg() {
        for rs in reg() {
            for immediate in imm() {
                round_trip(Instruction::ADDIU(rt, rs, immediate));
            }
        }
    }
}

#[test]
#[allow(non_snake_case)]
fn ADDU() {
    for rd in reg() {
        for rs in reg() {
            for rt in reg() {
                round_trip(Instruction::ADDU(rd, rs, rt));
            }
        }
    }
}

#[test]
#[allow(non_snake_case)]
fn AND() {
    for rd in reg() {
        for rs in reg() {
            for rt in reg() {
                round_trip(Instruction::AND(rd, rs, rt));
            }
        }
    }
}

#[test]
#[allow(non_snake_case)]
fn ANDI() {
    for rt in reg() {
        for rs in reg() {
            for immediate in imm() {
                round_trip(Instruction::ANDI(rt, rs, immediate));
            }
        }
    }
}

#[test]
#[allow(non_snake_case)]
fn BCzF() {
    for cop in cop() {
        for offset in imm() {
            round_trip(Instruction::BCzF(cop, offset));
        }
    }
}

#[test]
#[allow(non_snake_case)]
fn BCzFL() {
    for cop in cop() {
        for offset in imm() {
            round_trip(Instruction::BCzFL(cop, offset));
        }
    }
}

#[test]
#[allow(non_snake_case)]
fn BCzT() {
    for cop in cop() {
        for offset in imm() {
            round_trip(Instruction::BCzT(cop, offset));
        }
    }
}

#[test]
#[allow(non_snake_case)]
fn BCzTL() {
    for cop in cop() {
        for offset in imm() {
            round_trip(Instruction::BCzTL(cop, offset));
        }
    }
}

#[test]
#[allow(non_snake_case)]
fn BEQ() {
    for rs in reg() {
        for rt in reg() {
            for offset in imm() {
                round_trip(Instruction::BEQ(rs, rt, offset));
            }
        }
    }
}

#[test]
#[allow(non_snake_case)]
fn BEQL() {
    for rs in reg() {
        for rt in reg() {
            for offset in imm() {
                round_trip(Instruction::BEQL(rs, rt, offset));
            }
        }
    }
}

#[test]
#[allow(non_snake_case)]
fn BGEZ() {
    for rs in reg() {
        for offset in imm() {
            round_trip(Instruction::BGEZ(rs, offset));
        }
    }
}

#[test]
#[allow(non_snake_case)]
fn BGEZAL() {
    for rs in reg() {
        for offset in imm() {
            round_trip(Instruction::BGEZAL(rs, offset));
        }
    }
}

#[test]
#[allow(non_snake_case)]
fn BGEZALL() {
    for rs in reg() {
        for offset in imm() {
            round_trip(Instruction::BGEZALL(rs, offset));
        }
    }
}

#[test]
#[allow(non_snake_case)]
fn BGEZL() {
    for rs in reg() {
        for offset in imm() {
            round_trip(Instruction::BGEZL(rs, offset));
        }
    }
}

#[test]
#[allow(non_snake_case)]
fn BGTZ() {
    for rs in reg() {
        for offset in imm() {
            round_trip(Instruction::BGTZ(rs, offset));
        }
    }
}

#[test]
#[allow(non_snake_case)]
fn BGTZL() {
    for rs in reg() {
        for offset in imm() {
            round_trip(Instruction::BGTZL(rs, offset));
        }
    }
}

#[test]
#[allow(non_snake_case)]
fn BLEZ() {
    for rs in reg() {
        for offset in imm() {
            round_trip(Instruction::BLEZ(rs, offset));
        }
    }
}

#[test]
#[allow(non_snake_case)]
fn BLEZL() {
    for rs in reg() {
        for offset in imm() {
            round_trip(Instruction::BLEZL(rs, offset));
        }
    }
}

#[test]
#[allow(non_snake_case)]
fn BLTZ() {
    for rs in reg() {
        for offset in imm() {
            round_trip(Instruction::BLTZ(rs, offset));
        }
    }
}

#[test]
#[allow(non_snake_case)]
fn BLTZAL() {
    for rs in reg() {
        for offset in imm() {
            round_trip(Instruction::BLTZAL(rs, offset));
        }
    }
}

#[test]
#[allow(non_snake_case)]
fn BLTZALL() {
    for rs in reg() {
        for offset in imm() {
            round_trip(Instruction::BLTZALL(rs, offset));
        }
    }
}

#[test]
#[allow(non_snake_case)]
fn BLTZL() {
    for rs in reg() {
        for offset in imm() {
            round_trip(Instruction::BLTZL(rs, offset));
        }
    }
}

#[test]
#[allow(non_snake_case)]
fn BNE() {
    for rs in reg() {
        for rt in reg() {
            for offset in imm() {
                round_trip(Instruction::BNE(rs, rt, offset));
            }
        }
    }
}

#[test]
#[allow(non_snake_case)]
fn BNEL() {
    for rs in reg() {
        for rt in reg() {
            for offset in imm() {
                round_trip(Instruction::BNEL(rs, rt, offset));
            }
        }
    }
}

#[test]
#[allow(non_snake_case)]
fn BREAK() {
    for code in code20() {
        round_trip(Instruction::BREAK(code));
    }
}

#[test]
#[allow(non_snake_case)]
fn CACHE() {
    for op in cacheop() {
        for offset in imm() {
            for base in reg() {
                round_trip(Instruction::CACHE(op, offset, base));
            }
        }
    }
}

#[test]
#[allow(non_snake_case)]
fn CFCz() {
    for cop in cop() {
        for rt in reg() {
            for rd in reg() {
                round_trip(Instruction::CFCz(cop, rt, rd));
            }
        }
    }
}

#[test]
#[allow(non_snake_case)]
fn COPz() {
    for cop in cop() {
        for cofun in cofun() {
            round_trip(Instruction::COPz(cop, cofun));
        }
    }
}

#[test]
#[allow(non_snake_case)]
fn CTCz() {
    for cop in cop() {
        for rt in reg() {
            for rd in reg() {
                round_trip(Instruction::CTCz(cop, rt, rd));
            }
        }
    }
}

#[test]
#[allow(non_snake_case)]
fn DADD() {
    for rd in reg() {
        for rs in reg() {
            for rt in reg() {
                round_trip(Instruction::DADD(rd, rs, rt));
            }
        }
    }
}

#[test]
#[allow(non_snake_case)]
fn DADDI() {
    for rt in reg() {
        for rs in reg() {
            for immediate in imm() {
                round_trip(Instruction::DADDI(rt, rs, immediate));
            }
        }
    }
}

#[test]
#[allow(non_snake_case)]
fn DADDIU() {
    for rt in reg() {
        for rs in reg() {
            for immediate in imm() {
                round_trip(Instruction::DADDIU(rt, rs, immediate));
            }
        }
    }
}

#[test]
#[allow(non_snake_case)]
fn DADDU() {
    for rd in reg() {
        for rs in reg() {
            for rt in reg() {
                round_trip(Instruction::DADDU(rd, rs, rt));
            }
        }
    }
}

#[test]
#[allow(non_snake_case)]
fn DDIV() {
    for rs in reg() {
        for rt in reg() {
            round_trip(Instruction::DDIV(rs, rt));
        }
    }
}

#[test]
#[allow(non_snake_case)]
fn DDIVU() {
    for rs in reg() {
        for rt in reg() {
            round_trip(Instruction::DDIVU(rs, rt));
        }
    }
}

#[test]
#[allow(non_snake_case)]
fn DIV() {
    for rs in reg() {
        for rt in reg() {
            round_trip(Instruction::DIV(rs, rt));
        }
    }
}

#[test]
#[allow(non_snake_case)]
fn DIVU() {
    for rs in reg() {
        for rt in reg() {
            round_trip(Instruction::DIVU(rs, rt));
        }
    }
}

#[test]
#[allow(non_snake_case)]
fn DMFC0() {
    for rt in reg() {
        for rd in reg() {
            round_trip(Instruction::DMFC0(rt, rd));
        }
    }
}

#[test]
#[allow(non_snake_case)]
fn DMTC0() {
    for rt in reg() {
        for rd in reg() {
            round_trip(Instruction::DMTC0(rt, rd));
        }
    }
}

#[test]
#[allow(non_snake_case)]
fn DMULT() {
    for rs in reg() {
        for rt in reg() {
            round_trip(Instruction::DMULT(rs, rt));
        }
    }
}

#[test]
#[allow(non_snake_case)]
fn DMULTU() {
    for rs in reg() {
        for rt in reg() {
            round_trip(Instruction::DMULTU(rs, rt));
        }
    }
}

#[test]
#[allow(non_snake_case)]
fn DSLL() {
    for rd in reg() {
        for rt in reg() {
            for sa in shift() {
                round_trip(Instruction::DSLL(rd, rt, sa));
            }
        }
    }
}

#[test]
#[allow(non_snake_case)]
fn DSLLV() {
    for rt in reg() {
        for rs in reg() {
            for rd in reg() {
                round_trip(Instruction::DSLLV(rt, rs, rd));
            }
        }
    }
}

#[test]
#[allow(non_snake_case)]
fn DSLL32() {
    for rd in reg() {
        for rt in reg() {
            for sa in shift() {
                round_trip(Instruction::DSLL32(rd, rt, sa));
            }
        }
    }
}

#[test]
#[allow(non_snake_case)]
fn DSRA() {
    for rd in reg() {
        for rt in reg() {
            for sa in shift() {
                round_trip(Instruction::DSRA(rd, rt, sa));
            }
        }
    }
}

#[test]
#[allow(non_snake_case)]
fn DSRAV() {
    for rt in reg() {
        for rs in reg() {
            for rd in reg() {
                round_trip(Instruction::DSRAV(rt, rs, rd));
            }
        }
    }
}

#[test]
#[allow(non_snake_case)]
fn DSRA32() {
    for rd in reg() {
        for rt in reg() {
            for sa in shift() {
                round_trip(Instruction::DSRA32(rd, rt, sa));
            }
        }
    }
}

#[test]
#[allow(non_snake_case)]
fn DSRL() {
    for rd in reg() {
        for rt in reg() {
            for sa in shift() {
                round_trip(Instruction::DSRL(rd, rt, sa));
            }
        }
    }
}

#[test]
#[allow(non_snake_case)]
fn DSRLV() {
    for rt in reg() {
        for rs in reg() {
            for rd in reg() {
                round_trip(Instruction::DSRLV(rt, rs, rd));
            }
        }
    }
}

#[test]
#[allow(non_snake_case)]
fn DSRL32() {
    for rd in reg() {
        for rt in reg() {
            for sa in shift() {
                round_trip(Instruction::DSRL32(rd, rt, sa));
            }
        }
    }
}

#[test]
#[allow(non_snake_case)]
fn DSUB() {
    for rd in reg() {
        for rs in reg() {
            for rt in reg() {
                round_trip(Instruction::DSUB(rd, rs, rt));
            }
        }
    }
}

#[test]
#[allow(non_snake_case)]
fn DSUBU() {
    for rd in reg() {
        for rs in reg() {
            for rt in reg() {
                round_trip(Instruction::DSUBU(rd, rs, rt));
            }
        }
    }
}

#[test]
#[allow(non_snake_case)]
fn J() {
    for target in target() {
        round_trip(Instruction::J(target));
    }
}

#[test]
#[allow(non_snake_case)]
fn JAL() {
    for target in target() {
        round_trip(Instruction::JAL(target));
    }
}

#[test]
#[allow(non_snake_case)]
fn JALR() {
    for rd in reg() {
        for rs in reg() {
            round_trip(Instruction::JALR(rd, rs));
        }
    }
}

#[test]
#[allow(non_snake_case)]
fn JR() {
    for rs in reg() {
        round_trip(Instruction::JR(rs));
    }
}

#[test]
#[allow(non_snake_case)]
fn LB() {
    for rt in reg() {
        for offset in imm() {
            for base in reg() {
                round_trip(Instruction::LB(rt, offset, base));
            }
        }
    }
}

#[test]
#[allow(non_snake_case)]
fn LBU() {
    for rt in reg() {
        for offset in imm() {
            for base in reg() {
                round_trip(Instruction::LBU(rt, offset, base));
            }
        }
    }
}

#[test]
#[allow(non_snake_case)]
fn LD() {
    for rt in reg() {
        for offset in imm() {
            for base in reg() {
                round_trip(Instruction::LD(rt, offset, base));
            }
        }
    }
}

#[test]
#[allow(non_snake_case)]
fn LDCz() {
    for cop in cop() {
        for rt in reg() {
            for offset in imm() {
                for base in reg() {
                    round_trip(Instruction::LDCz(cop, rt, offset, base));
                }
            }
        }
    }
}

#[test]
#[allow(non_snake_case)]
fn LDL() {
    for rt in reg() {
        for offset in imm() {
            for base in reg() {
                round_trip(Instruction::LDL(rt, offset, base));
            }
        }
    }
}

#[test]
#[allow(non_snake_case)]
fn LDR() {
    for rt in reg() {
        for offset in imm() {
            for base in reg() {
                round_trip(Instruction::LDR(rt, offset, base));
            }
        }
    }
}

#[test]
#[allow(non_snake_case)]
fn LH() {
    for rt in reg() {
        for offset in imm() {
            for base in reg() {
                round_trip(Instruction::LH(rt, offset, base));
            }
        }
    }
}

#[test]
#[allow(non_snake_case)]
fn LHU() {
    for rt in reg() {
        for offset in imm() {
            for base in reg() {
                round_trip(Instruction::LHU(rt, offset, base));
            }
        }
    }
}

#[test]
#[allow(non_snake_case)]
fn LL() {
    for rt in reg() {
        for offset in imm() {
            for base in reg() {
                round_trip(Instruction::LL(rt, offset, base));
            }
        }
    }
}

#[test]
#[allow(non_snake_case)]
fn LLD() {
    for rt in reg() {
        for offset in imm() {
            for base in reg() {
                round_trip(Instruction::LLD(rt, offset, base));
            }
        }
    }
}

#[test]
#[allow(non_snake_case)]
fn LUI() {
    for rt in reg() {
        for immediate in imm() {
            round_trip(Instruction::LUI(rt, immediate));
        }
    }
}

#[test]
#[allow(non_snake_case)]
fn LW() {
    for rt in reg() {
        for offset in imm() {
            for base in reg() {
                round_trip(Instruction::LW(rt, offset, base));
            }
        }
    }
}

#[test]
#[allow(non_snake_case)]
fn LWCz() {
    for cop in cop() {
        for rt in reg() {
            for offset in imm() {
                for base in reg() {
                    round_trip(Instruction::LWCz(cop, rt, offset, base));
                }
            }
        }
    }
}

#[test]
#[allow(non_snake_case)]
fn LWL() {
    for rt in reg() {
        for offset in imm() {
            for base in reg() {
                round_trip(Instruction::LWL(rt, offset, base));
            }
        }
    }
}

#[test]
#[allow(non_snake_case)]
fn LWR() {
    for rt in reg() {
        for offset in imm() {
            for base in reg() {
                round_trip(Instruction::LWR(rt, offset, base));
            }
        }
    }
}

#[test]
#[allow(non_snake_case)]
fn LWU() {
    for rt in reg() {
        for offset in imm() {
            for base in reg() {
                round_trip(Instruction::LWU(rt, offset, base));
            }
        }
    }
}

#[test]
#[allow(non_snake_case)]
fn MFC0() {
    for rt in reg() {
        for rd in reg() {
            round_trip(Instruction::MFC0(rt, rd));
        }
    }
}

#[test]
#[allow(non_snake_case)]
fn MFCz() {
    for cop in cop() {
        for rt in reg() {
            for rd in reg() {
                round_trip(Instruction::MFCz(cop, rt, rd));
            }
        }
    }
}

#[test]
#[allow(non_snake_case)]
fn MFHI() {
    for rd in reg() {
        round_trip(Instruction::MFHI(rd));
    }
}

#[test]
#[allow(non_snake_case)]
fn MFLO() {
    for rd in reg() {
        round_trip(Instruction::MFLO(rd));
    }
}

#[test]
#[allow(non_snake_case)]
fn MTC0() {
    for rt in reg() {
        for rd in reg() {
            round_trip(Instruction::MTC0(rt, rd));
        }
    }
}

#[test]
#[allow(non_snake_case)]
fn MTCz() {
    for cop in cop() {
        for rt in reg() {
            for rd in reg() {
                round_trip(Instruction::MTCz(cop, rt, rd));
            }
        }
    }
}

#[test]
#[allow(non_snake_case)]
fn MTHI() {
    for rs in reg() {
        round_trip(Instruction::MTHI(rs));
    }
}

#[test]
#[allow(non_snake_case)]
fn MTLO() {
    for rs in reg() {
        round_trip(Instruction::MTLO(rs));
    }
}

#[test]
#[allow(non_snake_case)]
fn MULT() {
    for rs in reg() {
        for rt in reg() {
            round_trip(Instruction::MULT(rs, rt));
        }
    }
}

#[test]
#[allow(non_snake_case)]
fn MULTU() {
    for rs in reg() {
        for rt in reg() {
            round_trip(Instruction::MULTU(rs, rt));
        }
    }
}

#[test]
#[allow(non_snake_case)]
fn NOR() {
    for rd in reg() {
        for rs in reg() {
            for rt in reg() {
                round_trip(Instruction::NOR(rd, rs, rt));
            }
        }
    }
}

#[test]
#[allow(non_snake_case)]
fn OR() {
    for rd in reg() {
        for rs in reg() {
            for rt in reg() {
                round_trip(Instruction::OR(rd, rs, rt));
            }
        }
    }
}

#[test]
#[allow(non_snake_case)]
fn ORI() {
    for rt in reg() {
        for rs in reg() {
            for immediate in imm() {
                round_trip(Instruction::ORI(rt, rs, immediate));
            }
        }
    }
}

#[test]
#[allow(non_snake_case)]
fn SB() {
    for rt in reg() {
        for offset in imm() {
            for base in reg() {
                round_trip(Instruction::SB(rt, offset, base));
            }
        }
    }
}

#[test]
#[allow(non_snake_case)]
fn SC() {
    for rt in reg() {
        for offset in imm() {
            for base in reg() {
                round_trip(Instruction::SC(rt, offset, base));
            }
        }
    }
}

#[test]
#[allow(non_snake_case)]
fn SCD() {
    for rt in reg() {
        for offset in imm() {
            for base in reg() {
                round_trip(Instruction::SCD(rt, offset, base));
            }
        }
    }
}

#[test]
#[allow(non_snake_case)]
fn SD() {
    for rt in reg() {
        for offset in imm() {
            for base in reg() {
                round_trip(Instruction::SD(rt, offset, base));
            }
        }
    }
}

#[test]
#[allow(non_snake_case)]
fn SDCz() {
    for cop in cop() {
        for rt in reg() {
            for offset in imm() {
                for base in reg() {
                    round_trip(Instruction::SDCz(cop, rt, offset, base));
                }
            }
        }
    }
}

#[test]
#[allow(non_snake_case)]
fn SDL() {
    for rt in reg() {
        for offset in imm() {
            for base in reg() {
                round_trip(Instruction::SDL(rt, offset, base));
            }
        }
    }
}

#[test]
#[allow(non_snake_case)]
fn SDR() {
    for rt in reg() {
        for offset in imm() {
            for base in reg() {
                round_trip(Instruction::SDR(rt, offset, base));
            }
        }
    }
}

#[test]
#[allow(non_snake_case)]
fn SH() {
    for rt in reg() {
        for offset in imm() {
            for base in reg() {
                round_trip(Instruction::SH(rt, offset, base));
            }
        }
    }
}

#[test]
#[allow(non_snake_case)]
fn SLL() {
    for rd in reg() {
        for rt in reg() {
            for sa in shift() {
                round_trip(Instruction::SLL(rd, rt, sa));
            }
        }
    }
}

#[test]
#[allow(non_snake_case)]
fn SLLV() {
    for rt in reg() {
        for rs in reg() {
            for rd in reg() {
                round_trip(Instruction::SLLV(rt, rs, rd));
            }
        }
    }
}

#[test]
#[allow(non_snake_case)]
fn SLT() {
    for rd in reg() {
        for rs in reg() {
            for rt in reg() {
                round_trip(Instruction::SLT(rd, rs, rt));
            }
        }
    }
}

#[test]
#[allow(non_snake_case)]
fn SLTI() {
    for rt in reg() {
        for rs in reg() {
            for immediate in imm() {
                round_trip(Instruction::SLTI(rt, rs, immediate));
            }
        }
    }
}

#[test]
#[allow(non_snake_case)]
fn SLTIU() {
    for rt in reg() {
        for rs in reg() {
            for immediate in imm() {
                round_trip(Instruction::SLTIU(rt, rs, immediate));
            }
        }
    }
}

#[test]
#[allow(non_snake_case)]
fn SLTU() {
    for rd in reg() {
        for rs in reg() {
            for rt in reg() {
                round_trip(Instruction::SLTU(rd, rs, rt));
            }
        }
    }
}

#[test]
#[allow(non_snake_case)]
fn SRA() {
    for rd in reg() {
        for rt in reg() {
            for sa in shift() {
                round_trip(Instruction::SRA(rd, rt, sa));
            }
        }
    }
}

#[test]
#[allow(non_snake_case)]
fn SRAV() {
    for rt in reg() {
        for rs in reg() {
            for rd in reg() {
                round_trip(Instruction::SRAV(rt, rs, rd));
            }
        }
    }
}

#[test]
#[allow(non_snake_case)]
fn SRL() {
    for rd in reg() {
        for rt in reg() {
            for sa in shift() {
                round_trip(Instruction::SRL(rd, rt, sa));
            }
        }
    }
}

#[test]
#[allow(non_snake_case)]
fn SRLV() {
    for rt in reg() {
        for rs in reg() {
            for rd in reg() {
                round_trip(Instruction::SRLV(rt, rs, rd));
            }
        }
    }
}

#[test]
#[allow(non_snake_case)]
fn SUB() {
    for rd in reg() {
        for rs in reg() {
            for rt in reg() {
                round_trip(Instruction::SUB(rd, rs, rt));
            }
        }
    }
}

#[test]
#[allow(non_snake_case)]
fn SUBU() {
    for rd in reg() {
        for rs in reg() {
            for rt in reg() {
                round_trip(Instruction::SUBU(rd, rs, rt));
            }
        }
    }
}

#[test]
#[allow(non_snake_case)]
fn SW() {
    for rt in reg() {
        for offset in imm() {
            for base in reg() {
                round_trip(Instruction::SW(rt, offset, base));
            }
        }
    }
}

#[test]
#[allow(non_snake_case)]
fn SWCz() {
    for cop in cop() {
        for rt in reg() {
            for offset in imm() {
                for base in reg() {
                    round_trip(Instruction::SWCz(cop, rt, offset, base));
                }
            }
        }
    }
}

#[test]
#[allow(non_snake_case)]
fn SWL() {
    for rt in reg() {
        for offset in imm() {
            for base in reg() {
                round_trip(Instruction::SWL(rt, offset, base));
            }
        }
    }
}

#[test]
#[allow(non_snake_case)]
fn SWR() {
    for rt in reg() {
        for offset in imm() {
            for base in reg() {
                round_trip(Instruction::SWR(rt, offset, base));
            }
        }
    }
}

#[test]
#[allow(non_snake_case)]
fn SYSCALL() {
    for code in code20() {
        round_trip(Instruction::SYSCALL(code));
    }
}

#[test]
#[allow(non_snake_case)]
fn TEQ() {
    for rs in reg() {
        for rt in reg() {
            for code in code10() {
                round_trip(Instruction::TEQ(rs, rt, code));
            }
        }
    }
}

#[test]
#[allow(non_snake_case)]
fn TEQI() {
    for rs in reg() {
        for immediate in imm() {
            round_trip(Instruction::TEQI(rs, immediate));
        }
    }
}

#[test]
#[allow(non_snake_case)]
fn TGE() {
    for rs in reg() {
        for rt in reg() {
            for code in code10() {
                round_trip(Instruction::TGE(rs, rt, code));
            }
        }
    }
}

#[test]
#[allow(non_snake_case)]
fn TGEI() {
    for rs in reg() {
        for immediate in imm() {
            round_trip(Instruction::TGEI(rs, immediate));
        }
    }
}

#[test]
#[allow(non_snake_case)]
fn TGEIU() {
    for rs in reg() {
        for immediate in imm() {
            round_trip(Instruction::TGEIU(rs, immediate));
        }
    }
}

#[test]
#[allow(non_snake_case)]
fn TGEU() {
    for rs in reg() {
        for rt in reg() {
            for code in code10() {
                round_trip(Instruction::TGEU(rs, rt, code));
            }
        }
    }
}

#[test]
#[allow(non_snake_case)]
fn TLT() {
    for rs in reg() {
        for rt in reg() {
            for code in code10() {
                round_trip(Instruction::TLT(rs, rt, code));
            }
        }
    }
}

#[test]
#[allow(non_snake_case)]
fn TLTI() {
    for rs in reg() {
        for immediate in imm() {
            round_trip(Instruction::TLTI(rs, immediate));
        }
    }
}

#[test]
#[allow(non_snake_case)]
fn TLTIU() {
    for rs in reg() {
        for immediate in imm() {
            round_trip(Instruction::TLTIU(rs, immediate));
        }
    }
}

#[test]
#[allow(non_snake_case)]
fn TLTU() {
    for rs in reg() {
        for rt in reg() {
            for code in code10() {
                round_trip(Instruction::TLTU(rs, rt, code));
            }
        }
    }
}

#[test]
#[allow(non_snake_case)]
fn TNE() {
    for rs in reg() {
        for rt in reg() {
            for code in code10() {
                round_trip(Instruction::TNE(rs, rt, code));
            }
        }
    }
}

#[test]
#[allow(non_snake_case)]
fn TNEI() {
    for rs in reg() {
        for immediate in imm() {
            round_trip(Instruction::TNEI(rs, immediate));
        }
    }
}

#[test]
#[allow(non_snake_case)]
fn XOR() {
    for rd in reg() {
        for rs in reg() {
            for rt in reg() {
                round_trip(Instruction::XOR(rd, rs, rt));
            }
        }
    }
}

#[test]
#[allow(non_snake_case)]
fn XORI() {
    for rt in reg() {
        for rs in reg() {
            for immediate in imm() {
                round_trip(Instruction::XORI(rt, rs, immediate));
            }
        }
    }
}

#[test]
#[allow(non_snake_case)]
fn ERET() {
    let i = Instruction::ERET;
    let decoded = Instruction::decode(i.encode()).unwrap();
    assert_eq!(decoded, i);
}

#[test]
#[allow(non_snake_case)]
fn SYNC() {
    let i = Instruction::SYNC;
    let decoded = Instruction::decode(i.encode()).unwrap();
    assert_eq!(decoded, i);
}

#[test]
#[allow(non_snake_case)]
fn TLBP() {
    let i = Instruction::TLBP;
    let decoded = Instruction::decode(i.encode()).unwrap();
    assert_eq!(decoded, i);
}

#[test]
#[allow(non_snake_case)]
fn TLBR() {
    let i = Instruction::TLBR;
    let decoded = Instruction::decode(i.encode()).unwrap();
    assert_eq!(decoded, i);
}

#[test]
#[allow(non_snake_case)]
fn TLBWI() {
    let i = Instruction::TLBWI;
    let decoded = Instruction::decode(i.encode()).unwrap();
    assert_eq!(decoded, i);
}

#[test]
#[allow(non_snake_case)]
fn TLBWR() {
    let i = Instruction::TLBWR;
    let decoded = Instruction::decode(i.encode()).unwrap();
    assert_eq!(decoded, i);
}

#[test]
fn decode_then_encode_works() {
    // every word that is read as an instruction is written back as the same
    // bytes; the words are spread over the whole range, 2^22 of them
    let mut word: u32 = 0;
    for _ in 0..(1u32 << 22) {
        let bytes = word.to_be_bytes();
        match Instruction::decode(bytes) {
            None => (),
            Some(inst) => assert_eq!(inst.encode(), bytes, "decoded as {}", inst.render()),
        }
        word = word.wrapping_mul(1_664_525).wrapping_add(1_013_904_223);
    }
}
