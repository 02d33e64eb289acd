//! A parser and a code generator for descriptions of widget trees.
//!
//! A widget tree is described in a small language of nested blocks: each
//! widget names its constructor and lists its properties, a property is
//! assigned a value once, on every update (`watch`) or on the updates where
//! a guard holds (`track`), and a conditional widget shows one of several
//! children, chosen by an `if` chain or by a `match`.
//!
//! [`parse`] turns the tokens of such a description into a tree of
//! [`widgets`]; [`gen`] walks the tree and emits code as tokens. Both work
//! on the token trees of [`token`], so the library can sit behind any
//! source of tokens. What each function computes is stated over the
//! mathematical view of its arguments and proved.

pub mod cursor;
pub mod error;
pub mod gen;
pub mod parse;
pub mod text;
pub mod token;
pub mod widgets;
