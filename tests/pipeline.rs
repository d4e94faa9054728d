use route_props::render::{ts_declaration, FieldRenderer, RustProp, TypescriptProp};
use route_props::route::{ExtractError, Route};
use route_props::schema::{Prop, RustType};
use route_props::source::{SourceField, SourceItem};

fn extract(source: &str) -> Route {
    Route::from_source(source).unwrap()
}

fn number(name: &str, ty: RustType) -> Prop {
    Prop::Number { name: name.to_string(), ty }
}

#[test]
fn end_to_end_props_scenario() {
    let route = extract("pub struct Props { user_id: u32, name: String, is_active: bool }");
    assert_eq!(
        route.props,
        vec![
            number("user_id", RustType::UInt32),
            Prop::String { name: "name".to_string() },
            Prop::Boolean { name: "is_active".to_string() },
        ]
    );
    assert_eq!(
        route.rust_module(),
        "#[derive(Debug, Clone)]\npub struct Props {\n    user_id: u32,\n    name: String,\n    is_active: bool\n}\n"
    );
    assert_eq!(
        route.js_declarations(),
        "export declare const userId: number;\nexport declare const name: string;\nexport declare const isActive: boolean;\n"
    );
}

#[test]
fn unrecognized_fields_are_skipped_in_order() {
    let route = extract(
        "struct Props { a: u8, b: Vec<u8>, c: bool, d: Option<i32>, e: f64, f: Other, g: &'static str }",
    );
    assert_eq!(
        route.props,
        vec![
            number("a", RustType::UInt32),
            Prop::Boolean { name: "c".to_string() },
            number("e", RustType::Float32),
        ]
    );
}

#[test]
fn nested_struct_and_array_fields_are_omitted() {
    let route = extract("struct Inner { x: u8 }\nstruct Props { before: i16, inner: Inner, arr: [u8; 4], after: String }");
    assert_eq!(
        route.props,
        vec![number("before", RustType::Int32), Prop::String { name: "after".to_string() }]
    );
}

#[test]
fn rerun_gives_identical_documents() {
    let source = "struct Props { user_id: u32, display_name: String, score: f32 }";
    let first = extract(source);
    let second = extract(source);
    assert_eq!(first.rust_module(), second.rust_module());
    assert_eq!(first.js_declarations(), second.js_declarations());
}

#[test]
fn native_keeps_case_foreign_uses_camel_case() {
    let snake = Prop::Boolean { name: "user_id".to_string() };
    let camel = Prop::Boolean { name: "isActive".to_string() };
    assert_eq!(RustProp(snake.clone()).render(), "user_id: bool");
    assert_eq!(RustProp(camel.clone()).render(), "isActive: bool");
    assert_eq!(TypescriptProp(snake).render(), "export declare const userId: boolean;");
    assert_eq!(TypescriptProp(camel).render(), "export declare const isActive: boolean;");
}

#[test]
fn numeric_widths_collapse_per_family() {
    let families: [(&[&str], &str); 3] = [
        (&["i8", "i16", "i32", "i64"], "i32"),
        (&["u8", "u16", "u32", "u64"], "u32"),
        (&["f32", "f64"], "f32"),
    ];
    for (names, native) in families {
        for t in names {
            let route = extract(&format!("struct Props {{ x: {} }}", t));
            assert_eq!(route.rust_module(), format!("#[derive(Debug, Clone)]\npub struct Props {{\n    x: {}\n}}\n", native));
            assert_eq!(route.js_declarations(), "export declare const x: number;\n");
        }
    }
}

#[test]
fn no_props_declaration_gives_empty_schema() {
    let route = extract("struct Other { a: u32 }\nfn main() {}\nenum Props { A }");
    assert!(route.props.is_empty());
    assert_eq!(route.rust_module(), "#[derive(Debug, Clone)]\npub struct Props {\n}\n");
    assert_eq!(route.js_declarations(), "");
}

#[test]
fn empty_source_gives_empty_schema() {
    assert!(extract("").props.is_empty());
}

#[test]
fn invalid_source_is_a_parse_error() {
    assert_eq!(Route::from_source("struct Props { a: u32").err(), Some(ExtractError::Parse));
    assert_eq!(Route::from_source("this is not rust").err(), Some(ExtractError::Parse));
}

#[test]
fn every_props_declaration_contributes_in_file_order() {
    let route = extract("struct Props { a: bool }\nstruct Props { a: String, b: u64 }");
    assert_eq!(
        route.props,
        vec![
            Prop::Boolean { name: "a".to_string() },
            Prop::String { name: "a".to_string() },
            number("b", RustType::UInt32),
        ]
    );
}

#[test]
fn tuple_fields_are_skipped() {
    assert!(extract("struct Props(u32, bool);").props.is_empty());
}

#[test]
fn qualified_paths_use_last_segment() {
    let route = extract("struct Props { s: std::string::String, n: core::primitive::u16 }");
    assert_eq!(
        route.props,
        vec![Prop::String { name: "s".to_string() }, number("n", RustType::UInt32)]
    );
}

#[test]
fn rust_type_spellings() {
    assert_eq!(RustType::Int32.as_str(), "i32");
    assert_eq!(RustType::Int64.as_str(), "i64");
    assert_eq!(RustType::UInt32.as_str(), "u32");
    assert_eq!(RustType::UInt64.as_str(), "u64");
    assert_eq!(RustType::Float32.as_str(), "f32");
    assert_eq!(RustType::Float64.as_str(), "f64");
    assert_eq!(RustType::Boolean.as_str(), "bool");
}

#[test]
fn declared_type_mapping() {
    let name = || "v".to_string();
    assert_eq!(Prop::from_declared_type(name(), &"String".to_string()), Some(Prop::String { name: name() }));
    assert_eq!(Prop::from_declared_type(name(), &"bool".to_string()), Some(Prop::Boolean { name: name() }));
    assert_eq!(Prop::from_declared_type(name(), &"i64".to_string()), Some(number("v", RustType::Int32)));
    assert_eq!(Prop::from_declared_type(name(), &"u8".to_string()), Some(number("v", RustType::UInt32)));
    assert_eq!(Prop::from_declared_type(name(), &"f64".to_string()), Some(number("v", RustType::Float32)));
    assert_eq!(Prop::from_declared_type(name(), &"usize".to_string()), None);
    assert_eq!(Prop::from_declared_type(name(), &"str".to_string()), None);
}

#[test]
fn extraction_from_items() {
    let field = |ident: Option<&str>, ty: Option<&str>| SourceField {
        ident: ident.map(|s| s.to_string()),
        type_ident: ty.map(|s| s.to_string()),
    };
    let items = vec![
        SourceItem::Other,
        SourceItem::Struct { ident: "Props".to_string(), fields: vec![
            field(Some("id"), Some("u64")),
            field(None, Some("bool")),
            field(Some("tags"), None),
            field(Some("label"), Some("String")),
        ] },
        SourceItem::Struct { ident: "props".to_string(), fields: vec![field(Some("x"), Some("bool"))] },
    ];
    let route = Route::from_items(&items);
    assert_eq!(
        route.props,
        vec![number("id", RustType::UInt32), Prop::String { name: "label".to_string() }]
    );
}

#[test]
fn foreign_rendering_of_each_kind() {
    let route = Route {
        props: vec![
            number("max_count", RustType::Int64),
            number("ratio", RustType::Float64),
            Prop::String { name: "FirstName".to_string() },
        ],
    };
    assert_eq!(
        route.js_declarations(),
        "export declare const maxCount: number;\nexport declare const ratio: number;\nexport declare const firstName: string;\n"
    );
    assert_eq!(
        route.rust_module(),
        "#[derive(Debug, Clone)]\npub struct Props {\n    max_count: i64,\n    ratio: f64,\n    FirstName: String\n}\n"
    );
}

#[test]
fn declaration_from_converted_name() {
    let p = number("user_id", RustType::UInt64);
    assert_eq!(ts_declaration("userId", &p), "export declare const userId: number;");
    let q = Prop::String { name: "label".to_string() };
    assert_eq!(ts_declaration("label", &q), "export declare const label: string;");
}
