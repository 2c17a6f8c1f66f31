//! The operands of an instruction and their legal ranges.
//!
//! A register is a type of its own, made only through a checked conversion.
//! The narrower fields (shift amounts, codes, jump targets) travel as native
//! integers; each has a predicate that says which values fit the field and a
//! checked constructor that lets only those through.

use vstd::prelude::*;
use vstd::std_specs::convert::TryFromSpecImpl;

verus! {

/// An operand lies outside the range of the field it is meant for.
#[derive(Clone, Copy, Debug, PartialEq, Eq, Structural)]
pub struct InvalidOperand;

/// One of the 32 general-purpose registers.
#[derive(Clone, Copy, Debug, PartialEq, Eq, Structural, Hash)]
pub struct Register {
    index: u8,
}

impl View for Register {
    type V = u8;

    /// The register's number.
    closed spec fn view(&self) -> u8 {
        self.index
    }
}

impl Register {
    /// The number names one of the 32 registers.
    pub open spec fn wf(&self) -> bool {
        self@ < 32
    }

    /// The five bits that name the register in a word.
    pub open spec fn field(&self) -> u32 {
        self@ as u32
    }

    /// The register named by the five bits of a field.
    pub closed spec fn numbered(n: u32) -> Register {
        Register { index: n as u8 }
    }

    /// A register is known by its number: `numbered` and the view are inverse.
    pub proof fn lemma_numbered()
        ensures
            forall|n: u32| n < 32 ==> (#[trigger] Register::numbered(n))@ == n,
            forall|r: Register| Register::numbered(#[trigger] r.field()) == r,
    {
    }

    /// The register's number.
    pub fn index(&self) -> (n: u8)
        ensures
            n == self@,
    {
        self.index
    }

    /// The five bits that name the register in a word.
    pub fn bits(&self) -> (n: u32)
        ensures
            n == self.field(),
    {
        self.index as u32
    }

    /// Tells whether the number names one of the 32 registers.
    pub fn is_valid(&self) -> (b: bool)
        ensures
            b == self.wf(),
    {
        self.index < 32
    }

    /// The register named by a field that was cut from a word.
    pub(crate) fn from_field(n: u32) -> (r: Register)
        requires
            n < 32,
        ensures
            r == Register::numbered(n),
    {
        Register { index: n as u8 }
    }
}

impl TryFrom<u8> for Register {
    type Error = InvalidOperand;

    /// The register with the given number, if there is one.
    fn try_from(index: u8) -> (r: Result<Register, InvalidOperand>) {
        if index < 32 {
            Ok(Register { index })
        } else {
            Err(InvalidOperand)
        }
    }
}

impl TryFromSpecImpl<u8> for Register {
    open spec fn obeys_try_from_spec() -> bool {
        true
    }

    open spec fn try_from_spec(index: u8) -> Result<Register, InvalidOperand> {
        if index < 32 {
            Ok(Register::numbered(index as u32))
        } else {
            Err(InvalidOperand)
        }
    }
}

/// One of the four coprocessor slots.
#[derive(Clone, Copy, Debug, PartialEq, Eq, Structural, Hash)]
pub enum Coprocessor {
    COP0,
    COP1,
    COP2,
    COP3,
}

impl Coprocessor {
    /// The slot's number, 0 to 3.
    pub open spec fn unit(&self) -> u32 {
        match self {
            Coprocessor::COP0 => 0,
            Coprocessor::COP1 => 1,
            Coprocessor::COP2 => 2,
            Coprocessor::COP3 => 3,
        }
    }

    /// The instructions with a `z` in their name exist for this slot.
    pub open spec fn has_generic_form(&self) -> bool {
        *self == Coprocessor::COP1 || *self == Coprocessor::COP2
    }

    /// Tells whether the instructions with a `z` in their name exist for this slot.
    pub fn is_generic(&self) -> (b: bool)
        ensures
            b == self.has_generic_form(),
    {
        match self {
            Coprocessor::COP1 | Coprocessor::COP2 => true,
            _ => false,
        }
    }

    /// The slot's number, 0 to 3.
    pub fn number(&self) -> (n: u32)
        ensures
            n == self.unit(),
    {
        match self {
            Coprocessor::COP0 => 0,
            Coprocessor::COP1 => 1,
            Coprocessor::COP2 => 2,
            Coprocessor::COP3 => 3,
        }
    }
}

/// A shift amount names one of 32 bit positions.
pub open spec fn is_shift_amount(v: u8) -> bool {
    v < 32
}

/// A cache operation is a selector of five bits.
pub open spec fn is_cache_op(v: u8) -> bool {
    v < 32
}

/// The code of a conditional trap has 10 bits.
pub open spec fn is_trap_code(v: u16) -> bool {
    v < 0x400
}

/// The code of a system call or breakpoint has 20 bits.
pub open spec fn is_break_code(v: u32) -> bool {
    v < 0x10_0000
}

/// The function of a coprocessor operation has 25 bits.
pub open spec fn is_cofun(v: u32) -> bool {
    v < 0x200_0000
}

/// A jump target is a byte address that is a multiple of 4 and whose word
/// index fits 26 bits.
pub open spec fn is_jump_target(address: u32) -> bool {
    address % 4 == 0 && address < 0x1000_0000
}

/// A shift amount, if the value is one.
pub fn shift_amount(v: u8) -> (r: Result<u8, InvalidOperand>)
    ensures
        is_shift_amount(v) ==> r == Ok::<u8, InvalidOperand>(v),
        !is_shift_amount(v) ==> r == Err::<u8, InvalidOperand>(InvalidOperand),
{
    if v < 32 {
        Ok(v)
    } else {
        Err(InvalidOperand)
    }
}

/// A cache operation, if the value is one.
pub fn cache_op(v: u8) -> (r: Result<u8, InvalidOperand>)
    ensures
        is_cache_op(v) ==> r == Ok::<u8, InvalidOperand>(v),
        !is_cache_op(v) ==> r == Err::<u8, InvalidOperand>(InvalidOperand),
{
    if v < 32 {
        Ok(v)
    } else {
        Err(InvalidOperand)
    }
}

/// The code of a conditional trap, if the value fits.
pub fn trap_code(v: u16) -> (r: Result<u16, InvalidOperand>)
    ensures
        is_trap_code(v) ==> r == Ok::<u16, InvalidOperand>(v),
        !is_trap_code(v) ==> r == Err::<u16, InvalidOperand>(InvalidOperand),
{
    if v < 0x400 {
        Ok(v)
    } else {
        Err(InvalidOperand)
    }
}

/// The code of a system call or breakpoint, if the value fits.
pub fn break_code(v: u32) -> (r: Result<u32, InvalidOperand>)
    ensures
        is_break_code(v) ==> r == Ok::<u32, InvalidOperand>(v),
        !is_break_code(v) ==> r == Err::<u32, InvalidOperand>(InvalidOperand),
{
    if v < 0x10_0000 {
        Ok(v)
    } else {
        Err(InvalidOperand)
    }
}

/// The function of a coprocessor operation, if the value fits.
pub fn cofun(v: u32) -> (r: Result<u32, InvalidOperand>)
    ensures
        is_cofun(v) ==> r == Ok::<u32, InvalidOperand>(v),
        !is_cofun(v) ==> r == Err::<u32, InvalidOperand>(InvalidOperand),
{
    if v < 0x200_0000 {
        Ok(v)
    } else {
        Err(InvalidOperand)
    }
}

/// A jump target, if the address is aligned and within reach.
pub fn jump_target(address: u32) -> (r: Result<u32, InvalidOperand>)
    ensures
        is_jump_target(address) ==> r == Ok::<u32, InvalidOperand>(address),
        !is_jump_target(address) ==> r == Err::<u32, InvalidOperand>(InvalidOperand),
{
    if address % 4 == 0 && address < 0x1000_0000 {
        Ok(address)
    } else {
        Err(InvalidOperand)
    }
}

} // verus!
