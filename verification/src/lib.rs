//! A small interactive command shell with an embedded scripting language.
//!
//! The crate holds the shell's verified core: the scanner that turns a line
//! of input into tokens, the recursive-descent parser that builds an
//! abstract syntax tree over the hybrid command/expression grammar, and the
//! decision logic of the pipeline engine that dispatches parsed statements.
//! Reading input, spawning processes and changing the working directory are
//! left to a thin unverified front end that calls into this crate with plain
//! values.

pub mod engine;
pub mod parser;
pub mod rush_path;
pub mod spans;
pub mod token;
pub mod tokenizer;
