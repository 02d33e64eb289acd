//! The code generators: passes over a widget tree that each append tokens
//! to a stream.

pub mod assign;
pub mod conditional_init;
