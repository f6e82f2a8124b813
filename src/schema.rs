//! Declarations of the structs that bindings are derived for.
use vstd::prelude::*;

verus! {

/// A named field: its name and its type as written.
pub struct FieldDecl {
    pub name: String,
    pub ty: String,
}

/// What a declaration holds: named fields in declaration order, or a shape
/// that derivation does not support (an enum, a tuple or unit struct).
pub enum DeclBody {
    NamedFields(Vec<FieldDecl>),
    Unsupported,
}

/// A type declaration with the path named by its `map` attribute, if any.
pub struct TypeDecl {
    pub name: String,
    pub map_type: Option<String>,
    pub body: DeclBody,
}

/// Why no code could be derived for a declaration.
#[derive(Debug, PartialEq, Eq, Structural, Clone, Copy)]
pub enum DeriveError {
    /// The declaration is not a struct with named fields.
    UnsupportedType,
    /// The declaration names no type to map to.
    MissingMapType,
}

/// The field names as text, in declaration order.
pub open spec fn field_names(fields: Seq<FieldDecl>) -> Seq<Seq<char>> {
    fields.map_values(|f: FieldDecl| f.name@)
}

/// The field types as text, in declaration order.
pub open spec fn field_types(fields: Seq<FieldDecl>) -> Seq<Seq<char>> {
    fields.map_values(|f: FieldDecl| f.ty@)
}

} // verus!
