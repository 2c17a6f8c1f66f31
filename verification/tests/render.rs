use std::convert::TryFrom;
use ztar_rod::mips::text::{
    digit_str, push_decimal, push_hex_digits, push_hexadecimal, push_register,
    push_signed_decimal,
};
use ztar_rod::mips::{Coprocessor, Instruction, Register};

fn r(index: u8) -> Register {
    Register::try_from(index).unwrap()
}

#[test]
fn registers_in_the_order_of_the_manual() {
    assert_eq!(Instruction::ADD(r(1), r(2), r(3)).render(), "ADD $1, $2, $3");
    assert_eq!(Instruction::SLL(r(0), r(0), 0).render(), "SLL $0, $0, 0");
    assert_eq!(Instruction::DSRA32(r(2), r(4), 31).render(), "DSRA32 $2, $4, 31");
    assert_eq!(Instruction::SLLV(r(2), r(4), r(5)).render(), "SLLV $2, $4, $5");
    assert_eq!(Instruction::MULT(r(4), r(5)).render(), "MULT $4, $5");
    assert_eq!(Instruction::MFHI(r(2)).render(), "MFHI $2");
    assert_eq!(Instruction::MTLO(r(4)).render(), "MTLO $4");
    assert_eq!(Instruction::JR(r(31)).render(), "JR $31");
    assert_eq!(Instruction::JALR(r(31), r(25)).render(), "JALR $31, $25");
    assert_eq!(Instruction::MFC0(r(8), r(12)).render(), "MFC0 $8, $12");
}

#[test]
fn immediates_and_offsets_in_signed_decimal() {
    assert_eq!(Instruction::ADDIU(r(29), r(29), -24).render(), "ADDIU $29, $29, -24");
    assert_eq!(Instruction::LUI(r(1), -32768).render(), "LUI $1, -32768");
    assert_eq!(Instruction::ORI(r(1), r(1), 32767).render(), "ORI $1, $1, 32767");
    assert_eq!(Instruction::BEQ(r(0), r(0), -1).render(), "BEQ $0, $0, -1");
    assert_eq!(Instruction::BGTZL(r(8), 100).render(), "BGTZL $8, 100");
    assert_eq!(Instruction::BGEZAL(r(4), 0).render(), "BGEZAL $4, 0");
    assert_eq!(Instruction::TNEI(r(4), 10).render(), "TNEI $4, 10");
}

#[test]
fn loads_and_stores_with_the_base_in_parentheses() {
    assert_eq!(Instruction::LW(r(31), 20, r(29)).render(), "LW $31, 20($29)");
    assert_eq!(Instruction::SD(r(31), -1, r(31)).render(), "SD $31, -1($31)");
    assert_eq!(Instruction::CACHE(20, 0, r(4)).render(), "CACHE 20, 0($4)");
    assert_eq!(
        Instruction::LDCz(Coprocessor::COP1, r(2), 8, r(29)).render(),
        "LDC1 $2, 8($29)"
    );
    assert_eq!(
        Instruction::SWCz(Coprocessor::COP2, r(0), -4, r(4)).render(),
        "SWC2 $0, -4($4)"
    );
}

#[test]
fn codes_in_decimal_and_addresses_in_hexadecimal() {
    assert_eq!(Instruction::SYSCALL(0).render(), "SYSCALL 0");
    assert_eq!(Instruction::BREAK(1048575).render(), "BREAK 1048575");
    assert_eq!(Instruction::TEQ(r(0), r(0), 7).render(), "TEQ $0, $0, 7");
    assert_eq!(Instruction::J(0).render(), "J 0x0");
    assert_eq!(Instruction::JAL(0x0040_0000).render(), "JAL 0x400000");
    assert_eq!(Instruction::J(0x0fff_fffc).render(), "J 0xffffffc");
}

#[test]
fn coprocessor_number_in_the_mnemonic() {
    assert_eq!(Instruction::MFCz(Coprocessor::COP1, r(8), r(2)).render(), "MFC1 $8, $2");
    assert_eq!(Instruction::CTCz(Coprocessor::COP2, r(8), r(31)).render(), "CTC2 $8, $31");
    assert_eq!(Instruction::BCzF(Coprocessor::COP1, 3).render(), "BC1F 3");
    assert_eq!(Instruction::BCzT(Coprocessor::COP2, -1).render(), "BC2T -1");
    assert_eq!(Instruction::BCzFL(Coprocessor::COP1, -4).render(), "BC1FL -4");
    assert_eq!(Instruction::BCzTL(Coprocessor::COP1, 4).render(), "BC1TL 4");
    assert_eq!(Instruction::COPz(Coprocessor::COP2, 0x1ff_ffff).render(), "COP2 0x1ffffff");
    assert_eq!(Instruction::COPz(Coprocessor::COP0, 0x18).render(), "COP0 0x18");
    assert_eq!(Instruction::LWCz(Coprocessor::COP3, r(1), 0, r(2)).mnemonic(), "LWC3");
}

#[test]
fn instructions_without_operands_are_their_mnemonic() {
    assert_eq!(Instruction::SYNC.render(), "SYNC");
    assert_eq!(Instruction::ERET.render(), "ERET");
    assert_eq!(Instruction::TLBP.render(), "TLBP");
    assert_eq!(Instruction::TLBR.render(), "TLBR");
    assert_eq!(Instruction::TLBWI.render(), "TLBWI");
    assert_eq!(Instruction::TLBWR.render(), "TLBWR");
    assert_eq!(Instruction::ERET.mnemonic(), "ERET");
}

#[test]
fn mnemonic_is_the_first_word_of_the_line() {
    let i = Instruction::DADDIU(r(2), r(4), 1);
    assert_eq!(i.mnemonic(), "DADDIU");
    assert_eq!(i.render(), format!("{} $2, $4, 1", i.mnemonic()));
}

#[test]
fn numbers_as_text() {
    let mut s = String::new();
    push_decimal(&mut s, 0);
    s.push(' ');
    push_decimal(&mut s, 9);
    s.push(' ');
    push_decimal(&mut s, 10);
    s.push(' ');
    push_decimal(&mut s, 4294967295);
    assert_eq!(s, "0 9 10 4294967295");

    let mut s = String::new();
    push_signed_decimal(&mut s, -32768);
    s.push(' ');
    push_signed_decimal(&mut s, -1);
    s.push(' ');
    push_signed_decimal(&mut s, 0);
    s.push(' ');
    push_signed_decimal(&mut s, 32767);
    assert_eq!(s, "-32768 -1 0 32767");

    let mut s = String::new();
    push_hex_digits(&mut s, 0);
    s.push(' ');
    push_hex_digits(&mut s, 0xabcdef);
    s.push(' ');
    push_hexadecimal(&mut s, 0xffff_ffff);
    s.push(' ');
    push_hexadecimal(&mut s, 16);
    assert_eq!(s, "0 abcdef 0xffffffff 0x10");

    let mut s = String::from("at ");
    push_register(&mut s, &r(29));
    assert_eq!(s, "at $29");

    let digits: Vec<&str> = (0..16).map(digit_str).collect();
    assert_eq!(digits.concat(), "0123456789abcdef");
}
