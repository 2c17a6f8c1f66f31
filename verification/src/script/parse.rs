//! Parsing of scripts.

pub mod ast;
