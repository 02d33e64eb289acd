//! The parser of the widget grammar.
//!
//! `grammar` states the grammar as functions from tokens to widget trees;
//! the other modules hold the parsers, each proved to compute what the
//! grammar says.

pub mod attr;
pub mod conditional;
pub mod func;
pub mod grammar;
pub mod guarantees;
pub mod properties;
pub mod property;
pub mod returned;
pub mod widget;
