//! Rendering of single fields: as a Rust struct field, and as a TypeScript
//! ambient constant declaration.

use crate::schema::{rust_type_spelling, Prop, PropView};
use convert_case::{Case, Casing};
use vstd::prelude::*;
use vstd::string::StringExecFns;

verus! {

/// The camelCase form of an identifier, as convert_case computes it.
pub uninterp spec fn camel_of(name: Seq<char>) -> Seq<char>;

/// Relies on convert_case's `Casing::to_case` with `Case::Camel`: the first
/// word in lower case, each later word capitalised, separators removed.
#[verifier::external_body]
fn to_camel_case(name: &str) -> (r: String)
    ensures
        r@ == camel_of(name@),
{
    name.to_case(Case::Camel)
}

/// The Rust type that a field is declared with.
pub open spec fn rust_field_type(p: PropView) -> Seq<char> {
    match p {
        PropView::Boolean { .. } => "bool"@,
        PropView::Text { .. } => "String"@,
        PropView::Number { ty, .. } => rust_type_spelling(ty),
    }
}

/// A Rust struct field: the identifier verbatim, then its type.
pub open spec fn rust_field_text(p: PropView) -> Seq<char> {
    p.name() + ": "@ + rust_field_type(p)
}

/// The TypeScript type of a field: every numeric class is `number`.
pub open spec fn ts_field_type(p: PropView) -> Seq<char> {
    match p {
        PropView::Boolean { .. } => "boolean"@,
        PropView::Text { .. } => "string"@,
        PropView::Number { .. } => "number"@,
    }
}

/// A TypeScript ambient declaration of a field, under its camelCase name.
pub open spec fn ts_field_text(p: PropView) -> Seq<char> {
    "export declare const "@ + camel_of(p.name()) + ": "@ + ts_field_type(p) + ";"@
}

fn prop_name(p: &Prop) -> (r: &String)
    ensures
        r@ == p@.name(),
{
    match p {
        Prop::Boolean { name } => name,
        Prop::String { name } => name,
        Prop::Number { name, .. } => name,
    }
}

/// Renders one field as text of a target language.
pub trait FieldRenderer {
    /// The text that this field renders to.
    spec fn rendered(&self) -> Seq<char>;

    fn render(&self) -> (r: String)
        ensures
            r@ == self.rendered(),
    ;
}

/// A field rendered as a Rust struct field.
#[derive(Debug, Clone)]
pub struct RustProp(pub Prop);

impl FieldRenderer for RustProp {
    /// The field as `name: type`, the name unchanged.
    open spec fn rendered(&self) -> Seq<char> {
        rust_field_text(self.0@)
    }

    fn render(&self) -> (r: String) {
        rust_field(&self.0)
    }
}

/// Renders `p` as a Rust struct field.
pub fn rust_field(p: &Prop) -> (r: String)
    ensures
        r@ == rust_field_text(p@),
{
    let mut out = String::new();
    out.append(prop_name(p).as_str());
    out.append(": ");
    match p {
        Prop::Boolean { .. } => out.append("bool"),
        Prop::String { .. } => out.append("String"),
        Prop::Number { ty, .. } => out.append(ty.as_str()),
    }
    out
}

/// A field rendered as a TypeScript ambient declaration.
#[derive(Debug, Clone)]
pub struct TypescriptProp(pub Prop);

impl FieldRenderer for TypescriptProp {
    /// The field as `export declare const name: type;`, the name in camelCase.
    open spec fn rendered(&self) -> Seq<char> {
        ts_field_text(self.0@)
    }

    fn render(&self) -> (r: String) {
        ts_field(&self.0)
    }
}

/// Renders `p` as a TypeScript ambient declaration.
pub fn ts_field(p: &Prop) -> (r: String)
    ensures
        r@ == ts_field_text(p@),
{
    let camel = to_camel_case(prop_name(p).as_str());
    ts_declaration(camel.as_str(), p)
}

/// The ambient declaration of `p` under the already converted name `camel`.
pub fn ts_declaration(camel: &str, p: &Prop) -> (r: String)
    ensures
        r@ == "export declare const "@ + camel@ + ": "@ + ts_field_type(p@) + ";"@,
{
    let mut out = String::from_str("export declare const ");
    out.append(camel);
    out.append(": ");
    match p {
        Prop::Boolean { .. } => out.append("boolean"),
        Prop::String { .. } => out.append("string"),
        Prop::Number { .. } => out.append("number"),
    }
    out.append(";");
    out
}

} // verus!
