//! Canonical field types, the fields extracted from a `Props` declaration,
//! and the mapping from declared type names onto them.

use vstd::prelude::*;
use vstd::string::StringExecFns;

verus! {

/// The canonical numeric classes a source numeric type collapses to.
#[derive(Debug, Clone, Copy, PartialEq, Eq, Structural)]
pub enum RustType {
    Int32,
    Int64,
    UInt32,
    UInt64,
    Float32,
    Float64,
    Boolean,
}

/// The Rust spelling of a numeric class.
pub open spec fn rust_type_spelling(t: RustType) -> Seq<char> {
    match t {
        RustType::Int32 => "i32"@,
        RustType::Int64 => "i64"@,
        RustType::UInt32 => "u32"@,
        RustType::UInt64 => "u64"@,
        RustType::Float32 => "f32"@,
        RustType::Float64 => "f64"@,
        RustType::Boolean => "bool"@,
    }
}

impl RustType {
    /// The Rust primitive type name of this class.
    pub fn as_str(&self) -> (r: &'static str)
        ensures
            r@ == rust_type_spelling(*self),
    {
        match self {
            RustType::Int32 => "i32",
            RustType::Int64 => "i64",
            RustType::UInt32 => "u32",
            RustType::UInt64 => "u64",
            RustType::Float32 => "f32",
            RustType::Float64 => "f64",
            RustType::Boolean => "bool",
        }
    }
}

/// One extracted field: its declared identifier and its canonical type.
#[derive(Debug, Clone, PartialEq, Eq)]
pub enum Prop {
    Boolean { name: String },
    String { name: String },
    Number { name: String, ty: RustType },
}

/// The mathematical value of a `Prop`: the identifier as characters.
pub enum PropView {
    Boolean { name: Seq<char> },
    Text { name: Seq<char> },
    Number { name: Seq<char>, ty: RustType },
}

impl PropView {
    /// The declared identifier of the field.
    pub open spec fn name(self) -> Seq<char> {
        match self {
            PropView::Boolean { name } => name,
            PropView::Text { name } => name,
            PropView::Number { name, .. } => name,
        }
    }
}

impl View for Prop {
    type V = PropView;

    open spec fn view(&self) -> PropView {
        match self {
            Prop::Boolean { name } => PropView::Boolean { name: name@ },
            Prop::String { name } => PropView::Text { name: name@ },
            Prop::Number { name, ty } => PropView::Number { name: name@, ty: *ty },
        }
    }
}

/// The views of a sequence of fields, in order.
pub open spec fn props_view(props: Seq<Prop>) -> Seq<PropView> {
    props.map_values(|p: Prop| p@)
}

/// The signed integer type names.
pub open spec fn is_signed_name(t: Seq<char>) -> bool {
    t == "i8"@ || t == "i16"@ || t == "i32"@ || t == "i64"@
}

/// The unsigned integer type names.
pub open spec fn is_unsigned_name(t: Seq<char>) -> bool {
    t == "u8"@ || t == "u16"@ || t == "u32"@ || t == "u64"@
}

/// The floating-point type names.
pub open spec fn is_float_name(t: Seq<char>) -> bool {
    t == "f32"@ || t == "f64"@
}

/// The field that a declaration `name: t` yields, if the type name `t` is
/// recognised. Every width of a signedness class collapses onto one class.
pub open spec fn canonical_prop(name: Seq<char>, t: Seq<char>) -> Option<PropView> {
    if t == "String"@ {
        Some(PropView::Text { name })
    } else if t == "bool"@ {
        Some(PropView::Boolean { name })
    } else if is_signed_name(t) {
        Some(PropView::Number { name, ty: RustType::Int32 })
    } else if is_unsigned_name(t) {
        Some(PropView::Number { name, ty: RustType::UInt32 })
    } else if is_float_name(t) {
        Some(PropView::Number { name, ty: RustType::Float32 })
    } else {
        None
    }
}

fn is_named(s: &String, literal: &str) -> (r: bool)
    ensures
        r == (s@ == literal@),
{
    let l = String::from_str(literal);
    *s == l
}

impl Prop {
    /// Canonicalises the declared type name of the field `name`; `None` when
    /// the type name is not one of the recognised primitives.
    pub fn from_declared_type(name: String, declared: &String) -> (r: Option<Prop>)
        ensures
            match r {
                Some(p) => canonical_prop(name@, declared@) == Some(p@),
                None => canonical_prop(name@, declared@) is None,
            },
    {
        if is_named(declared, "String") {
            Some(Prop::String { name })
        } else if is_named(declared, "bool") {
            Some(Prop::Boolean { name })
        } else if is_named(declared, "i8") || is_named(declared, "i16") || is_named(
            declared,
            "i32",
        ) || is_named(declared, "i64") {
            Some(Prop::Number { name, ty: RustType::Int32 })
        } else if is_named(declared, "u8") || is_named(declared, "u16") || is_named(
            declared,
            "u32",
        ) || is_named(declared, "u64") {
            Some(Prop::Number { name, ty: RustType::UInt32 })
        } else if is_named(declared, "f32") || is_named(declared, "f64") {
            Some(Prop::Number { name, ty: RustType::Float32 })
        } else {
            None
        }
    }
}

} // verus!
