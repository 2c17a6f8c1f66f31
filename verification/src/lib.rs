//! Tools for modding a Nintendo 64 game: a bit-exact codec for the machine
//! code of its processor, the syntax tree of the mod scripting language, and
//! the controls of the map viewer.

pub mod fly;
pub mod mips;
pub mod script;
