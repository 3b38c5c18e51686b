//! Derivation of a builder for a record with named fields.
//!
//! A record definition is described by plain values (`record`), the builder
//! code for it is emitted as Rust source text (`codegen`) and lexed into
//! tokens (`expand`), and the run-time behaviour of an emitted builder is
//! modelled and proved (`slots`).
pub mod codegen;
pub mod expand;
pub mod record;
pub mod slots;
