use builder::codegen::{
    emit_fragment, make_build, make_builder_fields, make_builder_ident,
    make_builder_method_fields, make_builder_setters, Fragment,
};
use builder::expand::{expand, ExpandError};
use builder::record::{DeriveError, Member, RecordDef, Shape};

fn record(name: &str, members: Vec<Member>) -> RecordDef {
    RecordDef { name: name.to_string(), shape: Shape::Named(members) }
}

fn other(name: &str, shape: Shape) -> RecordDef {
    RecordDef { name: name.to_string(), shape }
}

#[test]
fn builder_name_appends_suffix() {
    assert_eq!(make_builder_ident("Command"), "CommandBuilder");
    assert_eq!(make_builder_ident(""), "Builder");
}

#[test]
fn field_declarations_wrap_types_in_option() {
    let fields = vec![Member::new("executable", "String"), Member::new("args", "Vec<String>")];
    assert_eq!(
        make_builder_fields(&fields),
        "executable: std::option::Option<String>, args: std::option::Option<Vec<String>>"
    );
}

#[test]
fn initializers_are_all_none() {
    let fields = vec![Member::new("a", "u8"), Member::new("b", "u16")];
    assert_eq!(
        make_builder_method_fields(&fields),
        "a: std::option::Option::None, b: std::option::Option::None"
    );
}

#[test]
fn setters_store_some_and_return_self() {
    let fields = vec![Member::new("current_dir", "String")];
    assert_eq!(
        make_builder_setters(&fields),
        "pub fn current_dir(&mut self, current_dir: String) -> &mut Self { self.current_dir = std::option::Option::Some(current_dir); self }"
    );
}

#[test]
fn setters_are_separated_by_a_space() {
    let fields = vec![Member::new("a", "u8"), Member::new("b", "u8")];
    assert_eq!(
        make_builder_setters(&fields),
        "pub fn a(&mut self, a: u8) -> &mut Self { self.a = std::option::Option::Some(a); self } \
pub fn b(&mut self, b: u8) -> &mut Self { self.b = std::option::Option::Some(b); self }"
    );
}

#[test]
fn build_arguments_are_comma_separated() {
    let fields = vec![Member::new("x", "u8"), Member::new("y", "u8")];
    let arm = " { std::option::Option::Some(ref v) => v.clone(), std::option::Option::None => return std::result::Result::Err(std::string::String::from(\"Fields not filled\").into()), }";
    let expected = format!("x: match self.x{}, y: match self.y{}", arm, arm);
    assert_eq!(make_build(&fields), expected);
}

#[test]
fn build_arguments_clone_or_fail() {
    let fields = vec![Member::new("env", "Vec<String>")];
    assert_eq!(
        make_build(&fields),
        "env: match self.env { std::option::Option::Some(ref v) => v.clone(), std::option::Option::None => return std::result::Result::Err(std::string::String::from(\"Fields not filled\").into()), }"
    );
}

#[test]
fn fragments_of_no_fields_are_empty() {
    let fields: Vec<Member> = Vec::new();
    assert_eq!(emit_fragment(Fragment::FieldDecls, &fields), "");
    assert_eq!(emit_fragment(Fragment::Initializers, &fields), "");
    assert_eq!(emit_fragment(Fragment::Setters, &fields), "");
    assert_eq!(emit_fragment(Fragment::BuildArgs, &fields), "");
}

#[test]
fn fragments_keep_declaration_order() {
    let fields = vec![Member::new("c", "u8"), Member::new("a", "u8"), Member::new("b", "u8")];
    let text = emit_fragment(Fragment::Initializers, &fields);
    assert_eq!(
        text,
        "c: std::option::Option::None, a: std::option::Option::None, b: std::option::Option::None"
    );
}

#[test]
fn derive_emits_whole_expansion() {
    let def = record("Command", vec![Member::new("executable", "String")]);
    let expected = "impl Command { pub fn builder() -> CommandBuilder { CommandBuilder { \
executable: std::option::Option::None } } } pub struct CommandBuilder { \
executable: std::option::Option<String> } impl CommandBuilder { \
pub fn executable(&mut self, executable: String) -> &mut Self { self.executable = std::option::Option::Some(executable); self } \
pub fn build(&mut self) -> std::result::Result<Command, std::boxed::Box<dyn std::error::Error>> { \
std::result::Result::Ok(Command { executable: match self.executable { std::option::Option::Some(ref v) => v.clone(), \
std::option::Option::None => return std::result::Result::Err(std::string::String::from(\"Fields not filled\").into()), } }) } }";
    assert_eq!(builder::codegen::derive(&def), Ok(expected.to_string()));
}

#[test]
fn derive_of_struct_without_fields_list() {
    let def = record("Empty", Vec::new());
    let text = builder::codegen::derive(&def).unwrap();
    assert!(text.starts_with("impl Empty { pub fn builder() -> EmptyBuilder { EmptyBuilder {  } } }"));
    assert!(text.contains("pub struct EmptyBuilder {  }"));
}

#[test]
fn derive_rejects_unsupported_shapes() {
    for shape in [Shape::Unnamed, Shape::Unit, Shape::Enum, Shape::Union] {
        let def = other("Point", shape);
        assert_eq!(builder::codegen::derive(&def), Err(DeriveError::UnsupportedShape));
        assert_eq!(expand(&def).err(), Some(ExpandError::UnsupportedShape));
    }
}

#[test]
fn expand_lexes_into_valid_items() {
    let def = record(
        "Command",
        vec![
            Member::new("executable", "String"),
            Member::new("args", "Vec<String>"),
            Member::new("current_dir", "String"),
        ],
    );
    let tokens = expand(&def).unwrap();
    let file: syn::File = syn::parse2(tokens).unwrap();
    assert_eq!(file.items.len(), 3);
    let text = expand(&def).unwrap().to_string();
    assert!(text.contains("CommandBuilder"));
    assert!(text.contains("pub fn args"));
    assert!(text.contains("\"Fields not filled\""));
}

#[test]
fn expand_reports_text_that_does_not_lex() {
    let def = record("Broken", vec![Member::new("a", "\"unterminated")]);
    assert_eq!(expand(&def).err(), Some(ExpandError::Lex));
}
