//! The parts of a parsed Rust source file that extraction reads, held as plain
//! values, and the parser that produces them.

use vstd::prelude::*;

verus! {

/// One field of a struct declaration: its identifier (absent for a tuple
/// field) and, when its type is a path, the identifier of the path's last
/// segment.
#[derive(Debug, Clone, PartialEq, Eq)]
pub struct SourceField {
    pub ident: Option<String>,
    pub type_ident: Option<String>,
}

/// A top-level item of a source file: a struct with its fields, or anything else.
#[derive(Debug, Clone, PartialEq, Eq)]
pub enum SourceItem {
    Struct { ident: String, fields: Vec<SourceField> },
    Other,
}

/// The value of a `SourceField`: identifiers as characters.
pub struct FieldSyntax {
    pub ident: Option<Seq<char>>,
    pub type_ident: Option<Seq<char>>,
}

/// The value of a `SourceItem`: identifiers as characters.
pub enum ItemSyntax {
    Struct { ident: Seq<char>, fields: Seq<FieldSyntax> },
    Other,
}

/// The characters of an optional identifier.
pub open spec fn opt_view(s: Option<String>) -> Option<Seq<char>> {
    match s {
        Some(x) => Some(x@),
        None => None,
    }
}

impl View for SourceField {
    type V = FieldSyntax;

    open spec fn view(&self) -> FieldSyntax {
        FieldSyntax { ident: opt_view(self.ident), type_ident: opt_view(self.type_ident) }
    }
}

/// The values of a field list, in order.
pub open spec fn fields_view(fields: Seq<SourceField>) -> Seq<FieldSyntax> {
    fields.map_values(|f: SourceField| f@)
}

impl View for SourceItem {
    type V = ItemSyntax;

    open spec fn view(&self) -> ItemSyntax {
        match self {
            SourceItem::Struct { ident, fields } => ItemSyntax::Struct {
                ident: ident@,
                fields: fields_view(fields@),
            },
            SourceItem::Other => ItemSyntax::Other,
        }
    }
}

/// The values of an item list, in order.
pub open spec fn items_view(items: Seq<SourceItem>) -> Seq<ItemSyntax> {
    items.map_values(|i: SourceItem| i@)
}

#[verifier::external_type_specification]
#[verifier::external_body]
pub struct ExSynError(syn::Error);

/// The top-level items of the Rust source file `source`, or `None` when it
/// is not a syntactically valid file.
pub uninterp spec fn parsed_items(source: Seq<char>) -> Option<Seq<ItemSyntax>>;

/// Relies on syn::parse_file to parse a whole source file; its items are
/// copied field by field into the plain model above.
#[verifier::external_body]
pub(crate) fn parse_source(source: &str) -> (r: Result<Vec<SourceItem>, syn::Error>)
    ensures
        r is Ok <==> parsed_items(source@) is Some,
        r is Ok ==> parsed_items(source@) == Some(items_view(r->Ok_0@)),
{
    syn::parse_file(source).map(|file| file.items.iter().map(|item| match item {
        syn::Item::Struct(s) => SourceItem::Struct {
            ident: s.ident.to_string(),
            fields: s.fields.iter().map(|f| SourceField {
                ident: f.ident.as_ref().map(|i| i.to_string()),
                type_ident: match &f.ty {
                    syn::Type::Path(p) => p.path.segments.last().map(|g| g.ident.to_string()),
                    _ => None,
                },
            }).collect(),
        },
        _ => SourceItem::Other,
    }).collect())
}

} // verus!
