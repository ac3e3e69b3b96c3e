use vstd::prelude::*;

verus! {

/// The source-position marker of `proc_macro2`. Every syntax item carries
/// one; the generator never reads it, it only threads the marker through to
/// the construction step, or the error, built from that item.
#[verifier::external_type_specification]
#[verifier::external_body]
pub struct ExSpan(proc_macro2::Span);

/// The token type of `proc_macro2`. An escaped host expression is carried
/// as one of these; the generator treats it as opaque and only decides where
/// it is spliced into the chain.
#[verifier::external_type_specification]
#[verifier::external_body]
pub struct ExTokenStream(proc_macro2::TokenStream);

/// One tokenized item of the script DSL, as the parser hands it over.
pub enum Syntax {
    /// A named instruction; the name must be a member of the opcode catalog,
    /// which the generator checks by looking the name up.
    Opcode(String),
    /// A literal byte sequence, pushed as a single data item.
    Bytes(Vec<u8>),
    /// A literal integer, pushed with the builder's canonical minimal
    /// encoding; the generator passes it through unchanged.
    Int(i64),
    /// An escaped host expression whose runtime value is pushed at this
    /// position through the polymorphic push capability.
    Escape(proc_macro2::TokenStream),
}

} // verus!
