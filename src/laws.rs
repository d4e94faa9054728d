//! Laws that relate extraction and rendering across all inputs.

use crate::render::{camel_of, rust_field_text, rust_field_type, ts_field_text, ts_field_type};
use crate::route::{field_prop, fields_props, item_props, js_declarations_text, rust_module_text, schema_of, Route};
use crate::schema::{canonical_prop, is_float_name, is_signed_name, is_unsigned_name, PropView, RustType};
use crate::source::{parsed_items, FieldSyntax, ItemSyntax};
use vstd::prelude::*;

verus! {

/// The fields of a field list that are recognised.
pub open spec fn recognized(fields: Seq<FieldSyntax>) -> Seq<FieldSyntax> {
    fields.filter(|f: FieldSyntax| field_prop(f) is Some)
}

/// An item is a declaration named `Props`.
pub open spec fn is_props_decl(item: ItemSyntax) -> bool {
    item matches ItemSyntax::Struct { ident, .. } && ident == "Props"@
}

/// Extraction from a field list splits over concatenation.
pub proof fn lemma_fields_props_concat(a: Seq<FieldSyntax>, b: Seq<FieldSyntax>)
    ensures
        fields_props(a + b) == fields_props(a) + fields_props(b),
    decreases b.len(),
{
    if b.len() == 0 {
        assert(a + b == a);
    } else {
        lemma_fields_props_concat(a, b.drop_last());
        assert((a + b).drop_last() == a + b.drop_last());
        assert((a + b).last() == b.last());
    }
}

/// Extraction from a file splits over concatenation of its items.
pub proof fn lemma_schema_concat(a: Seq<ItemSyntax>, b: Seq<ItemSyntax>)
    ensures
        schema_of(a + b) == schema_of(a) + schema_of(b),
    decreases b.len(),
{
    if b.len() == 0 {
        assert(a + b == a);
    } else {
        lemma_schema_concat(a, b.drop_last());
        assert((a + b).drop_last() == a + b.drop_last());
        assert((a + b).last() == b.last());
    }
}

/// Extraction keeps exactly the recognised fields, each as its canonical
/// field, in their relative declaration order; so a list with N recognised
/// fields among unrecognised ones yields exactly N fields.
pub proof fn lemma_recognized_fields_kept_in_order(fields: Seq<FieldSyntax>)
    ensures
        fields_props(fields) == recognized(fields).map_values(|f: FieldSyntax| field_prop(f)->Some_0),
        fields_props(fields).len() == recognized(fields).len(),
    decreases fields.len(),
{
    reveal(Seq::filter);
    if fields.len() > 0 {
        lemma_recognized_fields_kept_in_order(fields.drop_last());
    }
    assert(fields_props(fields) =~= recognized(fields).map_values(|f: FieldSyntax| field_prop(f)->Some_0));
}

/// A file with no declaration named `Props` yields the empty schema.
pub proof fn lemma_no_props_declaration_yields_empty(items: Seq<ItemSyntax>)
    requires
        forall|i: int| 0 <= i < items.len() ==> !is_props_decl(#[trigger] items[i]),
    ensures
        schema_of(items) == Seq::<PropView>::empty(),
    decreases items.len(),
{
    if items.len() > 0 {
        lemma_no_props_declaration_yields_empty(items.drop_last());
        assert(!is_props_decl(items[items.len() - 1]));
    }
}

/// A file whose one `Props` declaration is item `k` yields exactly the
/// recognised fields of that declaration, in declaration order.
pub proof fn lemma_single_props_declaration(items: Seq<ItemSyntax>, k: int)
    requires
        0 <= k < items.len(),
        is_props_decl(items[k]),
        forall|i: int| 0 <= i < items.len() && i != k ==> !is_props_decl(#[trigger] items[i]),
    ensures
        schema_of(items) == fields_props(items[k]->Struct_fields),
        schema_of(items).len() == recognized(items[k]->Struct_fields).len(),
{
    let before = items.take(k);
    let after = items.skip(k + 1);
    assert(items == before + seq![items[k]] + after);
    lemma_schema_concat(before + seq![items[k]], after);
    lemma_schema_concat(before, seq![items[k]]);
    assert forall|i: int| 0 <= i < before.len() implies !is_props_decl(#[trigger] before[i]) by {
        assert(before[i] == items[i]);
    }
    assert forall|i: int| 0 <= i < after.len() implies !is_props_decl(#[trigger] after[i]) by {
        assert(after[i] == items[i + k + 1]);
    }
    lemma_no_props_declaration_yields_empty(before);
    lemma_no_props_declaration_yields_empty(after);
    assert(seq![items[k]].drop_last() =~= Seq::<ItemSyntax>::empty());
    assert(schema_of(seq![items[k]].drop_last()) == Seq::<PropView>::empty());
    assert(seq![items[k]].last() == items[k]);
    assert(schema_of(seq![items[k]]) =~= item_props(items[k]));
    assert(schema_of(before) + item_props(items[k]) + schema_of(after) =~= item_props(items[k]));
    lemma_recognized_fields_kept_in_order(items[k]->Struct_fields);
}

/// A field whose type is not recognised is omitted, and the fields around
/// it are extracted exactly as if it were absent.
pub proof fn lemma_unsupported_field_omitted(
    before: Seq<FieldSyntax>,
    f: FieldSyntax,
    after: Seq<FieldSyntax>,
)
    requires
        field_prop(f) is None,
    ensures
        fields_props(before + seq![f] + after) == fields_props(before + after),
{
    lemma_fields_props_concat(before + seq![f], after);
    lemma_fields_props_concat(before, seq![f]);
    lemma_fields_props_concat(before, after);
    assert(seq![f].drop_last() =~= Seq::<FieldSyntax>::empty());
    assert(fields_props(seq![f].drop_last()) == Seq::<PropView>::empty());
    assert(seq![f].last() == f);
    assert(fields_props(seq![f]) == Seq::<PropView>::empty());
    assert(fields_props(before) + Seq::<PropView>::empty() =~= fields_props(before));
}

/// Every width of a numeric family renders the same way: as the family's
/// 32-bit Rust type, and as `number` in TypeScript.
pub proof fn lemma_numeric_widths_render_alike(name: Seq<char>, t1: Seq<char>, t2: Seq<char>)
    requires
        (is_signed_name(t1) && is_signed_name(t2)) || (is_unsigned_name(t1) && is_unsigned_name(t2))
            || (is_float_name(t1) && is_float_name(t2)),
    ensures
        canonical_prop(name, t1) is Some,
        canonical_prop(name, t1) == canonical_prop(name, t2),
        rust_field_text(canonical_prop(name, t1)->Some_0) == rust_field_text(canonical_prop(name, t2)->Some_0),
        ts_field_text(canonical_prop(name, t1)->Some_0) == ts_field_text(canonical_prop(name, t2)->Some_0),
        ts_field_type(canonical_prop(name, t1)->Some_0) == "number"@,
        is_signed_name(t1) ==> rust_field_type(canonical_prop(name, t1)->Some_0) == "i32"@,
        is_unsigned_name(t1) ==> rust_field_type(canonical_prop(name, t1)->Some_0) == "u32"@,
        is_float_name(t1) ==> rust_field_type(canonical_prop(name, t1)->Some_0) == "f32"@,
{
    reveal_strlit("String");
    reveal_strlit("bool");
    reveal_strlit("i8");
    reveal_strlit("i16");
    reveal_strlit("i32");
    reveal_strlit("i64");
    reveal_strlit("u8");
    reveal_strlit("u16");
    reveal_strlit("u32");
    reveal_strlit("u64");
    reveal_strlit("f32");
    reveal_strlit("f64");
    assert(is_signed_name(t1) ==> t1.len() == 2 && t1[0] == 'i' || t1.len() == 3 && t1[0] == 'i');
    assert(is_unsigned_name(t1) ==> t1.len() == 2 && t1[0] == 'u' || t1.len() == 3 && t1[0] == 'u');
    assert(is_float_name(t1) ==> t1.len() == 3 && t1[0] == 'f');
    assert(is_signed_name(t2) ==> t2.len() == 2 && t2[0] == 'i' || t2.len() == 3 && t2[0] == 'i');
    assert(is_unsigned_name(t2) ==> t2.len() == 2 && t2[0] == 'u' || t2.len() == 3 && t2[0] == 'u');
    assert(is_float_name(t2) ==> t2.len() == 3 && t2[0] == 'f');
    assert("String"@.len() == 6 && "bool"@.len() == 4);
}

/// The Rust rendering starts with the identifier exactly as declared; the
/// TypeScript rendering carries the identifier's camelCase form.
pub proof fn lemma_rendered_names(p: PropView)
    ensures
        rust_field_text(p).take(p.name().len() as int) == p.name(),
        ts_field_text(p).subrange(21, 21 + camel_of(p.name()).len() as int) == camel_of(p.name()),
{
    reveal_strlit("export declare const ");
    assert(rust_field_text(p).take(p.name().len() as int) =~= p.name());
    assert(ts_field_text(p).subrange(21, 21 + camel_of(p.name()).len() as int) =~= camel_of(p.name()));
}

/// Two runs of extraction on the same source, each followed by emission,
/// produce identical documents.
pub proof fn lemma_rerun_reproduces_documents(source: Seq<char>, first: Route, second: Route)
    requires
        parsed_items(source) is Some,
        first@ == schema_of(parsed_items(source)->Some_0),
        second@ == schema_of(parsed_items(source)->Some_0),
    ensures
        rust_module_text(first@) == rust_module_text(second@),
        js_declarations_text(first@) == js_declarations_text(second@),
{
}

} // verus!
