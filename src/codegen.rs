//! Emission of the builder code for a record with named fields.
//!
//! The derivation writes four fragments, each one walk over the fields in
//! declaration order, and splices them into one expansion:
//! - the builder's fields, one `Option` of each field's type;
//! - the initializers of those fields, all `None`, used by `builder()`;
//! - one setter per field, which stores `Some` of its argument and returns the
//!   builder for chaining;
//! - the arguments of the record literal that `build` assembles, each a clone of
//!   the stored value or an early `Err` for the first field left unset.
use vstd::prelude::*;
use vstd::string::StringExecFns;
use crate::record::{DeriveError, Member, RecordDef, Shape};

verus! {

/// The four per-field fragments of an expansion.
#[derive(Clone, Copy, Debug, PartialEq, Eq, Structural)]
pub enum Fragment {
    /// `name: Option<T>` for each field, comma-separated.
    FieldDecls,
    /// `name: None` for each field, comma-separated.
    Initializers,
    /// One setter method for each field.
    Setters,
    /// `name: <clone of the stored value, or Err>` for each field,
    /// comma-separated.
    BuildArgs,
}

/// The name of the builder type: the record's name followed by `Builder`.
pub open spec fn builder_name(name: Seq<char>) -> Seq<char> {
    name + "Builder"@
}

/// What a fragment holds for one field.
pub open spec fn piece(kind: Fragment, m: Member) -> Seq<char> {
    let n = m.name@;
    let t = m.ty@;
    match kind {
        Fragment::FieldDecls => n + ": std::option::Option<"@ + t + ">"@,
        Fragment::Initializers => n + ": std::option::Option::None"@,
        Fragment::Setters => "pub fn "@ + n + "(&mut self, "@ + n + ": "@ + t
            + ") -> &mut Self { self."@ + n + " = std::option::Option::Some("@ + n
            + "); self }"@,
        Fragment::BuildArgs => n + ": match self."@ + n
            + " { std::option::Option::Some(ref v) => v.clone(), std::option::Option::None => return std::result::Result::Err(std::string::String::from(\"Fields not filled\").into()), }"@,
    }
}

/// What stands between two pieces of a fragment: a comma in the lists (field
/// declarations, initializers, record literal arguments), a space between the
/// setter methods. Nothing follows the last piece.
pub open spec fn separator(kind: Fragment) -> Seq<char> {
    match kind {
        Fragment::Setters => " "@,
        _ => ", "@,
    }
}

/// A fragment: the pieces of the fields, in declaration order, with the
/// separator of its kind between each two of them.
pub open spec fn fragment(kind: Fragment, ms: Seq<Member>) -> Seq<char>
    decreases ms.len(),
{
    if ms.len() == 0 {
        seq![]
    } else if ms.len() == 1 {
        piece(kind, ms[0])
    } else {
        fragment(kind, ms.drop_last()) + separator(kind) + piece(kind, ms.last())
    }
}

/// The whole expansion for a record named `name` with fields `ms`: the factory
/// `builder()` on the record, the builder type, its setters and `build`.
pub open spec fn expansion(name: Seq<char>, ms: Seq<Member>) -> Seq<char> {
    let b = builder_name(name);
    "impl "@ + name + " { pub fn builder() -> "@ + b + " { "@ + b + " { "@
        + fragment(Fragment::Initializers, ms) + " } } } pub struct "@ + b + " { "@
        + fragment(Fragment::FieldDecls, ms) + " } impl "@ + b + " { "@
        + fragment(Fragment::Setters, ms)
        + " pub fn build(&mut self) -> std::result::Result<"@ + name
        + ", std::boxed::Box<dyn std::error::Error>> { std::result::Result::Ok("@ + name
        + " { "@ + fragment(Fragment::BuildArgs, ms) + " }) } }"@
}

/// What the derivation gives for a definition: the expansion for a struct with
/// named fields, and an error for every other shape.
pub open spec fn derived(def: RecordDef) -> Result<Seq<char>, DeriveError> {
    match def.shape {
        Shape::Named(ms) => Ok(expansion(def.name@, ms@)),
        _ => Err(DeriveError::UnsupportedShape),
    }
}

/// Emits the builder type's name for a record named `name`.
pub fn make_builder_ident(name: &str) -> (r: String)
    ensures
        r@ == builder_name(name@),
{
    let mut r = name.to_string();
    r.append("Builder");
    r
}

fn emit_piece(kind: Fragment, m: &Member, out: &mut String)
    ensures
        final(out)@ == old(out)@ + piece(kind, *m),
{
    let n = m.name.as_str();
    let t = m.ty.as_str();
    match kind {
        Fragment::FieldDecls => {
            out.append(n);
            out.append(": std::option::Option<");
            out.append(t);
            out.append(">");
        },
        Fragment::Initializers => {
            out.append(n);
            out.append(": std::option::Option::None");
        },
        Fragment::Setters => {
            out.append("pub fn ");
            out.append(n);
            out.append("(&mut self, ");
            out.append(n);
            out.append(": ");
            out.append(t);
            out.append(") -> &mut Self { self.");
            out.append(n);
            out.append(" = std::option::Option::Some(");
            out.append(n);
            out.append("); self }");
        },
        Fragment::BuildArgs => {
            out.append(n);
            out.append(": match self.");
            out.append(n);
            out.append(
                " { std::option::Option::Some(ref v) => v.clone(), std::option::Option::None => return std::result::Result::Err(std::string::String::from(\"Fields not filled\").into()), }",
            );
        },
    }
    assert(final(out)@ =~= old(out)@ + piece(kind, *m));
}

/// Emits one fragment: the pieces of `members`, in their order.
pub fn emit_fragment(kind: Fragment, members: &Vec<Member>) -> (r: String)
    ensures
        r@ == fragment(kind, members@),
{
    let mut r = String::new();
    let mut i: usize = 0;
    while i < members.len()
        invariant
            i <= members.len(),
            r@ == fragment(kind, members@.subrange(0, i as int)),
        decreases members.len() - i,
    {
        if i > 0 {
            match kind {
                Fragment::Setters => r.append(" "),
                _ => r.append(", "),
            }
        }
        emit_piece(kind, &members[i], &mut r);
        assert(members@.subrange(0, i + 1).drop_last() =~= members@.subrange(0, i as int));
        assert(members@.subrange(0, i + 1)[0] == members@[0]);
        i += 1;
    }
    assert(members@.subrange(0, members.len() as int) =~= members@);
    r
}

/// The builder's field declarations.
pub fn make_builder_fields(fields: &Vec<Member>) -> (r: String)
    ensures
        r@ == fragment(Fragment::FieldDecls, fields@),
{
    emit_fragment(Fragment::FieldDecls, fields)
}

/// The initializers of the builder's fields, each to `None`.
pub fn make_builder_method_fields(fields: &Vec<Member>) -> (r: String)
    ensures
        r@ == fragment(Fragment::Initializers, fields@),
{
    emit_fragment(Fragment::Initializers, fields)
}

/// One setter method per field.
pub fn make_builder_setters(fields: &Vec<Member>) -> (r: String)
    ensures
        r@ == fragment(Fragment::Setters, fields@),
{
    emit_fragment(Fragment::Setters, fields)
}

/// The arguments of the record literal that `build` assembles.
pub fn make_build(fields: &Vec<Member>) -> (r: String)
    ensures
        r@ == fragment(Fragment::BuildArgs, fields@),
{
    emit_fragment(Fragment::BuildArgs, fields)
}

/// Derives a builder for `def`: the expansion as Rust source text, or
/// `UnsupportedShape` where `def` is not a struct with named fields.
pub fn derive(def: &RecordDef) -> (r: Result<String, DeriveError>)
    ensures
        match r {
            Ok(s) => derived(*def) == Ok::<Seq<char>, DeriveError>(s@),
            Err(e) => derived(*def) == Err::<Seq<char>, DeriveError>(e),
        },
{
    match &def.shape {
        Shape::Named(fields) => {
            let ident = def.name.as_str();
            let builder_ident = make_builder_ident(ident);
            let b = builder_ident.as_str();
            let method_fields = make_builder_method_fields(fields);
            let builder_fields = make_builder_fields(fields);
            let setter_methods = make_builder_setters(fields);
            let built = make_build(fields);
            let mut out = String::new();
            out.append("impl ");
            out.append(ident);
            out.append(" { pub fn builder() -> ");
            out.append(b);
            out.append(" { ");
            out.append(b);
            out.append(" { ");
            out.append(method_fields.as_str());
            out.append(" } } } pub struct ");
            out.append(b);
            out.append(" { ");
            out.append(builder_fields.as_str());
            out.append(" } impl ");
            out.append(b);
            out.append(" { ");
            out.append(setter_methods.as_str());
            out.append(" pub fn build(&mut self) -> std::result::Result<");
            out.append(ident);
            out.append(", std::boxed::Box<dyn std::error::Error>> { std::result::Result::Ok(");
            out.append(ident);
            out.append(" { ");
            out.append(built.as_str());
            out.append(" }) } }");
            assert(out@ =~= expansion(def.name@, fields@));
            Ok(out)
        },
        _ => Err(DeriveError::UnsupportedShape),
    }
}

} // verus!
