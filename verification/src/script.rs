//! The mod scripting language.

pub mod parse;
