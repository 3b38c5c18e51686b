//! The expansion as tokens, ready to be handed back to the compiler.
use vstd::prelude::*;
use crate::codegen::derived;
use crate::record::{DeriveError, RecordDef};

verus! {

#[verifier::external_type_specification]
#[verifier::external_body]
pub struct ExTokenStream(proc_macro2::TokenStream);

#[verifier::external_type_specification]
#[verifier::external_body]
pub struct ExLexError(proc_macro2::LexError);

/// Why a definition could not be expanded into tokens.
#[derive(Debug, Clone, Copy, PartialEq, Eq, Structural)]
pub enum ExpandError {
    /// The definition is not a struct whose fields are all named.
    UnsupportedShape,
    /// The emitted text did not lex as Rust tokens.
    Lex,
}

/// Whether proc-macro2's own lexer accepts `text` as Rust tokens.
pub uninterp spec fn lexes(text: Seq<char>) -> bool;

/// Relies on `<proc_macro2::TokenStream as FromStr>::from_str`, which lexes
/// Rust source text into tokens. Every path through it runs proc-macro2's own
/// lexer first and fails where that lexer does; inside a procedural macro the
/// compiler's lexer may then still refuse the text, so success is no more
/// than a consequence of that lexer's verdict.
#[verifier::external_body]
fn lex(text: &str) -> (r: Result<proc_macro2::TokenStream, proc_macro2::LexError>)
    ensures
        r is Ok ==> lexes(text@),
{
    text.parse::<proc_macro2::TokenStream>()
}

/// Derives the builder for `def` and lexes it into tokens. A definition of any
/// shape but a struct with named fields is refused with `UnsupportedShape`;
/// for the others the text that `derive` emits is lexed, and `Lex` is returned
/// where lexing fails. Tokens come back only for text that proc-macro2's own
/// lexer accepts.
pub fn expand(def: &RecordDef) -> (r: Result<proc_macro2::TokenStream, ExpandError>)
    ensures
        r matches Err(ExpandError::UnsupportedShape) <==> !(def.shape is Named),
        r matches Err(ExpandError::Lex) ==> derived(*def) is Ok,
        r is Ok ==> (match derived(*def) {
            Ok(text) => lexes(text),
            Err(_) => false,
        }),
{
    match crate::codegen::derive(def) {
        Err(DeriveError::UnsupportedShape) => Err(ExpandError::UnsupportedShape),
        Ok(text) => match lex(text.as_str()) {
            Ok(tokens) => Ok(tokens),
            Err(_) => Err(ExpandError::Lex),
        },
    }
}

} // verus!
