//! Code generation for Python bindings of a strongly typed data model.
//!
//! The generator works from an explicit schema of enum and struct
//! declarations and produces Rust binding code as text, Python stub
//! (`.pyi`) fragments, and field-by-field conversions between a type
//! and its exposed mirror.
pub mod text;
pub mod enum_bridge;
pub mod schema;
pub mod derive;
pub mod stub;
pub mod mirror;
pub mod laws;
