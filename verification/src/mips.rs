//! Machine words of the MIPS R4300i and the instructions they stand for.
//!
//! Every instruction is one 32-bit word, stored big-endian. [`Instruction::decode`]
//! reads a word, [`Instruction::encode`] writes one, and the public proof functions
//! of [`laws`] state that the two are inverse to each other.

pub mod decode;
pub mod instruction;
pub mod laws;
pub mod operand;
pub mod render;
pub mod text;
pub mod word;

pub use instruction::Instruction;
pub use operand::{Coprocessor, InvalidOperand, Register};
