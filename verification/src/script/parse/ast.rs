//! The parts of a script's syntax tree that hold no expression.

use vstd::prelude::*;

verus! {

/// What a call names: a function of the script, or an address in the game.
#[derive(Debug, Clone)]
pub enum Method {
    Identifier(Identifier),
    Pointer(u32),
}

/// Whether a call runs in place or starts a thread.
#[derive(Debug, Clone)]
pub enum MethodThreadType {
    /// `method()`
    No,
    /// `thread method()`
    Yes,
    /// `var = thread method()`
    Assign(Identifier),
}

/// The unit of a wait.
#[derive(Debug, Clone)]
pub enum TimeUnit {
    Frames,
    Seconds,
}

/// The operators of expressions and of the tests of a switch.
#[derive(Debug, Clone)]
pub enum Operator {
    // Arithmetic
    Add,
    Sub,
    Mul,
    Div,
    Mod,
    // Logic
    Eq,
    Ne,
    Gt,
    Lt,
    Gte,
    Lte,
    BitAndZ,
    BitAndNz,
    And,
    Or,
    Not,
    CaseDefault,
}

/// A name in a script.
#[derive(Debug, Clone)]
pub struct Identifier(pub String);

} // verus!
