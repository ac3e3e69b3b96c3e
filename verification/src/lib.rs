//! Code generation for a small stack-machine script DSL.
//!
//! The input is an ordered sequence of tokenized syntax items (opcode names,
//! byte literals, integer literals, and escaped host expressions), each with
//! a source-position marker. The output is a single construction expression:
//! a chain of script-builder operations that starts from the empty builder,
//! mirrors the items left to right, and is finalized into a script. An
//! escaped item flushes the chain built so far and feeds it, together with
//! the escaped expression, to a polymorphic push, whose result becomes the
//! new base of the chain.

pub mod catalog;
pub mod chain;
pub mod generate;
pub mod syntax;

pub use catalog::lookup_opcode;
pub use chain::Chain;
pub use chain::Construction;
pub use generate::generate;
pub use generate::GenerateError;
pub use syntax::Syntax;
