//! The shape of a record definition, as the derivation reads it.
use vstd::prelude::*;

verus! {

/// One named field of a record: its name and its type, spelled as source text.
pub struct Member {
    pub name: String,
    pub ty: String,
}

/// The body of a definition handed to the derivation.
pub enum Shape {
    /// A struct with named fields, in declaration order.
    Named(Vec<Member>),
    /// A tuple struct.
    Unnamed,
    /// A struct without fields.
    Unit,
    /// An enum.
    Enum,
    /// A union.
    Union,
}

/// A definition annotated for the derivation: its name and its body.
pub struct RecordDef {
    pub name: String,
    pub shape: Shape,
}

/// Why a definition cannot be given a builder.
#[derive(Debug, Clone, Copy, PartialEq, Eq, Structural)]
pub enum DeriveError {
    /// The definition is not a struct whose fields are all named.
    UnsupportedShape,
}

impl Member {
    pub fn new(name: &str, ty: &str) -> (r: Member)
        ensures
            r.name@ == name@,
            r.ty@ == ty@,
    {
        Member { name: name.to_string(), ty: ty.to_string() }
    }
}

} // verus!
