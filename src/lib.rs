//! Extracts the typed fields of a `Props` declaration from Rust source text and
//! renders them as a Rust struct and as TypeScript ambient declarations.

pub mod render;
pub mod route;
pub mod schema;
pub mod source;
pub mod laws;
