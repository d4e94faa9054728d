//! A route's schema: its extraction from source text and its two documents.

use crate::render::{rust_field, rust_field_text, ts_field, ts_field_text};
use crate::schema::{canonical_prop, props_view, Prop, PropView};
use crate::source::{fields_view, items_view, parse_source, parsed_items, FieldSyntax, ItemSyntax, SourceField, SourceItem};
use vstd::prelude::*;
use vstd::string::StringExecFns;

verus! {

/// The field that one declared field yields: only a named field whose type is
/// a recognised primitive yields one.
pub open spec fn field_prop(f: FieldSyntax) -> Option<PropView> {
    match (f.ident, f.type_ident) {
        (Some(name), Some(t)) => canonical_prop(name, t),
        _ => None,
    }
}

/// The fields that a struct's field list yields, in declaration order.
pub open spec fn fields_props(fields: Seq<FieldSyntax>) -> Seq<PropView>
    decreases fields.len(),
{
    if fields.len() == 0 {
        Seq::empty()
    } else {
        let before = fields_props(fields.drop_last());
        match field_prop(fields.last()) {
            Some(p) => before.push(p),
            None => before,
        }
    }
}

/// The fields that one top-level item contributes: those of a struct named
/// `Props`, nothing for any other item.
pub open spec fn item_props(item: ItemSyntax) -> Seq<PropView> {
    match item {
        ItemSyntax::Struct { ident, fields } => if ident == "Props"@ {
            fields_props(fields)
        } else {
            Seq::empty()
        },
        ItemSyntax::Other => Seq::empty(),
    }
}

/// The schema of a file: the contributions of its items, in file order.
pub open spec fn schema_of(items: Seq<ItemSyntax>) -> Seq<PropView>
    decreases items.len(),
{
    if items.len() == 0 {
        Seq::empty()
    } else {
        schema_of(items.drop_last()) + item_props(items.last())
    }
}

/// One struct field of the Rust module, indented.
pub open spec fn rust_field_line(p: PropView) -> Seq<char> {
    "    "@ + rust_field_text(p)
}

/// The struct fields of the Rust module, one line each, separated by commas.
pub open spec fn rust_fields_text(props: Seq<PropView>) -> Seq<char>
    decreases props.len(),
{
    if props.len() == 0 {
        Seq::empty()
    } else if props.len() == 1 {
        rust_field_line(props[0])
    } else {
        rust_fields_text(props.drop_last()) + ",\n"@ + rust_field_line(props.last())
    }
}

/// The Rust module: one `Props` struct holding every field in schema order.
pub open spec fn rust_module_text(props: Seq<PropView>) -> Seq<char> {
    if props.len() == 0 {
        "#[derive(Debug, Clone)]\npub struct Props {\n"@ + "}\n"@
    } else {
        "#[derive(Debug, Clone)]\npub struct Props {\n"@ + rust_fields_text(props) + "\n}\n"@
    }
}

/// The TypeScript declarations: one line per field in schema order.
pub open spec fn js_declarations_text(props: Seq<PropView>) -> Seq<char>
    decreases props.len(),
{
    if props.len() == 0 {
        Seq::empty()
    } else {
        js_declarations_text(props.drop_last()) + ts_field_text(props.last()) + "\n"@
    }
}

/// Why a schema could not be extracted.
#[derive(Debug, Clone, Copy, PartialEq, Eq, Structural)]
pub enum ExtractError {
    /// The source could not be read.
    Io,
    /// The source is not a syntactically valid Rust file.
    Parse,
}

/// The ordered fields of the `Props` declaration of one source file.
pub struct Route {
    pub props: Vec<Prop>,
}

impl View for Route {
    type V = Seq<PropView>;

    open spec fn view(&self) -> Seq<PropView> {
        props_view(self.props@)
    }
}

const PROPS_STRUCT_NAME: &'static str = "Props";

fn field_to_prop(f: &SourceField) -> (r: Option<Prop>)
    ensures
        match r {
            Some(p) => field_prop(f@) == Some(p@),
            None => field_prop(f@) is None,
        },
{
    match (&f.ident, &f.type_ident) {
        (Some(name), Some(t)) => Prop::from_declared_type(name.clone(), t),
        _ => None,
    }
}

fn push_field_props(props: &mut Vec<Prop>, fields: &Vec<SourceField>)
    ensures
        props_view(final(props)@) == props_view(old(props)@) + fields_props(fields_view(fields@)),
{
    let ghost start = props_view(props@);
    let mut j: usize = 0;
    while j < fields.len()
        invariant
            j <= fields.len(),
            props_view(props@) == start + fields_props(fields_view(fields@.take(j as int))),
        decreases fields.len() - j,
    {
        let ghost done = props@;
        let prop = field_to_prop(&fields[j]);
        proof {
            assert(fields@.take(j + 1).drop_last() == fields@.take(j as int));
            assert(fields_view(fields@.take(j + 1)).drop_last() == fields_view(fields@.take(j as int)));
        }
        match prop {
            Some(p) => {
                props.push(p);
                assert(props_view(props@) == props_view(done).push(p@));
            },
            None => {},
        }
        j = j + 1;
    }
    assert(fields@.take(j as int) == fields@);
}

impl Route {
    /// Extracts the schema from the items of a parsed file: the recognised
    /// fields of every struct named `Props`, in declaration order.
    pub fn from_items(items: &Vec<SourceItem>) -> (r: Route)
        ensures
            r@ == schema_of(items_view(items@)),
    {
        let mut props: Vec<Prop> = Vec::new();
        let mut i: usize = 0;
        while i < items.len()
            invariant
                i <= items.len(),
                props_view(props@) == schema_of(items_view(items@.take(i as int))),
            decreases items.len() - i,
        {
            proof {
                assert(items@.take(i + 1).drop_last() == items@.take(i as int));
                assert(items_view(items@.take(i + 1)).drop_last() == items_view(items@.take(i as int)));
            }
            match &items[i] {
                SourceItem::Struct { ident, fields } => {
                    let wanted = String::from_str(PROPS_STRUCT_NAME);
                    proof {
                        reveal_strlit("Props");
                    }
                    if *ident == wanted {
                        push_field_props(&mut props, fields);
                    } else {
                        assert(props_view(props@) == props_view(props@) + Seq::<PropView>::empty());
                    }
                },
                SourceItem::Other => {
                    assert(props_view(props@) == props_view(props@) + Seq::<PropView>::empty());
                },
            }
            i = i + 1;
        }
        assert(items@.take(i as int) == items@);
        Route { props }
    }

    /// Parses `source` and extracts its schema; fails with `Parse` exactly
    /// when the text is not a valid Rust file.
    pub fn from_source(source: &str) -> (r: Result<Route, ExtractError>)
        ensures
            match parsed_items(source@) {
                Some(items) => r is Ok && r->Ok_0@ == schema_of(items),
                None => r == Err::<Route, ExtractError>(ExtractError::Parse),
            },
    {
        match parse_source(source) {
            Ok(items) => Ok(Route::from_items(&items)),
            Err(_) => Err(ExtractError::Parse),
        }
    }

    /// The Rust module document for this schema.
    pub fn rust_module(&self) -> (r: String)
        ensures
            r@ == rust_module_text(self@),
    {
        let mut out = String::from_str("#[derive(Debug, Clone)]\npub struct Props {\n");
        let ghost head = out@;
        let mut i: usize = 0;
        while i < self.props.len()
            invariant
                i <= self.props.len(),
                out@ == head + rust_fields_text(self@.take(i as int)),
            decreases self.props.len() - i,
        {
            let field = rust_field(&self.props[i]);
            if i > 0 {
                out.append(",\n");
            }
            out.append("    ");
            out.append(field.as_str());
            proof {
                assert(self@.take(i + 1).drop_last() == self@.take(i as int));
                assert(self@.take(i + 1).last() == self@[i as int]);
            }
            i = i + 1;
        }
        assert(self@.take(i as int) == self@);
        if i > 0 {
            out.append("\n}\n");
        } else {
            out.append("}\n");
        }
        out
    }

    /// The TypeScript declarations document for this schema.
    pub fn js_declarations(&self) -> (r: String)
        ensures
            r@ == js_declarations_text(self@),
    {
        let mut out = String::new();
        let mut i: usize = 0;
        while i < self.props.len()
            invariant
                i <= self.props.len(),
                out@ == js_declarations_text(self@.take(i as int)),
            decreases self.props.len() - i,
        {
            let field = ts_field(&self.props[i]);
            out.append(field.as_str());
            out.append("\n");
            proof {
                assert(self@.take(i + 1).drop_last() == self@.take(i as int));
            }
            i = i + 1;
        }
        assert(self@.take(i as int) == self@);
        out
    }
}

} // verus!
