//! A single-pass compiler from the syntax tree of a small C-like language
//! to symbolic assembly for a word-addressed stack machine, with that
//! machine and the loader that runs programs on it.
//!
//! The compiler decides where every variable lives, lowers every
//! expression and statement to instructions, and keeps the tables that
//! this takes: structures, functions, and scopes with their variables.
//! Every executable function has a contract over the mathematical models
//! that stand next to the data types, and every contract is proved.
//!
//! * [`ast`], [`types`]: the input.
//! * [`instruction`], [`listing`], [`text`]: the output and its text.
//! * [`table`], [`symbols`], [`structs`], [`compiler`]: the tables and the
//!   resolution of names.
//! * [`sizing`], [`registry`]: sizes, layout, and the registration of
//!   structures, functions and scopes.
//! * [`literal`], [`names`], [`lowering`], [`expression`], [`statement`],
//!   [`program`]: what each construct lowers to, and the code generator.
//! * [`theorems`], [`slots`], [`frame`]: what holds of all programs.
//! * [`machine`], [`os`]: the machine and the loader.

pub mod ast;
pub mod compiler;
pub mod error;
pub mod expression;
pub mod frame;
pub mod instruction;
pub mod listing;
pub mod literal;
pub mod lowering;
pub mod machine;
pub mod names;
pub mod os;
pub mod program;
pub mod registry;
pub mod sizing;
pub mod slots;
pub mod statement;
pub mod structs;
pub mod symbols;
pub mod table;
pub mod text;
pub mod theorems;
pub mod types;
