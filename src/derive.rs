//! Code for the `Pyi` and `MapPy` impls of a struct.
use vstd::prelude::*;
use crate::schema::{field_names, field_types, DeclBody, DeriveError, FieldDecl, TypeDecl};
use crate::text::{debug_of, debug_quote};

verus! {

/// The statement of the `pyi` method that adds one field's stub line.
pub open spec fn pyi_field_line(quoted_field: Seq<char>, ty: Seq<char>) -> Seq<char> {
    "        result += &format!(\"    {}: {}\\n\", "@ + quoted_field + ", <"@ + ty
        + ">::py_type_string());\n"@
}

/// The `Pyi` and `PyTypeString` impls of a struct, given its name, its name
/// as a string literal, its fields and their names as string literals.
pub open spec fn pyi_impl_text(
    name: Seq<char>,
    quoted_name: Seq<char>,
    quoted_fields: Seq<Seq<char>>,
    types: Seq<Seq<char>>,
) -> Seq<char> {
    "impl Pyi for "@ + name
        + " {\n    fn pyi() -> String {\n        let mut result = format!(\"class {}:\\n\", "@
        + quoted_name + ");\n"@ + Seq::new(
        quoted_fields.len(),
        |i: int| pyi_field_line(quoted_fields[i], types[i]),
    ).flatten() + "        result\n    }\n}\n\nimpl PyTypeString for "@ + name
        + " {\n    fn py_type_string() -> String {\n        "@ + quoted_name
        + ".to_string()\n    }\n}\n"@
}

/// The names of the fields as string literals.
pub open spec fn quoted_fields(fields: Seq<FieldDecl>) -> Seq<Seq<char>> {
    field_names(fields).map_values(|f: Seq<char>| debug_of(f))
}

/// What deriving `Pyi` gives for a declaration.
pub open spec fn pyi_derive_result(decl: TypeDecl) -> Result<Seq<char>, DeriveError> {
    match decl.body {
        DeclBody::NamedFields(fields) => Ok(
            pyi_impl_text(
                decl.name@,
                debug_of(decl.name@),
                quoted_fields(fields@),
                field_types(fields@),
            ),
        ),
        DeclBody::Unsupported => Err(DeriveError::UnsupportedType),
    }
}

/// The `Pyi` and `PyTypeString` impls of a struct: `pyi` builds the stub
/// class with one line per field, in declaration order.
pub fn pyi_impl(name: &str, quoted_name: &str, fields: &Vec<FieldDecl>, quoted: &Vec<String>) -> (r:
    String)
    requires
        quoted@.len() == fields@.len(),
    ensures
        r@ == pyi_impl_text(
            name@,
            quoted_name@,
            quoted@.map_values(|q: String| q@),
            field_types(fields@),
        ),
{
    let ghost qs = quoted@.map_values(|q: String| q@);
    let ghost lines = Seq::new(qs.len(), |i: int| pyi_field_line(qs[i], field_types(fields@)[i]));
    let mut out = String::new();
    out.append("impl Pyi for ");
    out.append(name);
    out.append(" {\n    fn pyi() -> String {\n        let mut result = format!(\"class {}:\\n\", ");
    out.append(quoted_name);
    out.append(");\n");
    let ghost head = out@;
    assert(out@ =~= head + lines.take(0).flatten());
    let mut i: usize = 0;
    while i < fields.len()
        invariant
            0 <= i <= fields@.len(),
            quoted@.len() == fields@.len(),
            qs == quoted@.map_values(|q: String| q@),
            lines == Seq::new(qs.len(), |i: int| pyi_field_line(qs[i], field_types(fields@)[i])),
            out@ == head + lines.take(i as int).flatten(),
        decreases fields@.len() - i,
    {
        let ghost before = out@;
        out.append("        result += &format!(\"    {}: {}\\n\", ");
        out.append(quoted[i].as_str());
        out.append(", <");
        out.append(fields[i].ty.as_str());
        out.append(">::py_type_string());\n");
        proof {
            assert(lines.take(i + 1) =~= lines.take(i as int).push(lines[i as int]));
            lines.take(i as int).lemma_flatten_push(lines[i as int]);
            assert(out@ =~= before + lines[i as int]);
        }
        i = i + 1;
    }
    assert(lines.take(i as int) =~= lines);
    out.append("        result\n    }\n}\n\nimpl PyTypeString for ");
    out.append(name);
    out.append(" {\n    fn py_type_string() -> String {\n        ");
    out.append(quoted_name);
    out.append(".to_string()\n    }\n}\n");
    assert(out@ =~= pyi_impl_text(name@, quoted_name@, qs, field_types(fields@)));
    out
}

/// Derives `Pyi` for a declaration: only a struct with named fields has it.
pub fn pyi_derive(decl: &TypeDecl) -> (r: Result<String, DeriveError>)
    ensures
        match (r, pyi_derive_result(*decl)) {
            (Ok(code), Ok(text)) => code@ == text,
            (Err(e), Err(f)) => e == f,
            _ => false,
        },
{
    match &decl.body {
        DeclBody::NamedFields(fields) => {
            let quoted_name = debug_quote(decl.name.as_str());
            let mut quoted: Vec<String> = Vec::new();
            let mut i: usize = 0;
            while i < fields.len()
                invariant
                    0 <= i <= fields@.len(),
                    quoted@.len() == i,
                    quoted@.map_values(|q: String| q@) =~= quoted_fields(fields@).take(i as int),
                decreases fields@.len() - i,
            {
                quoted.push(debug_quote(fields[i].name.as_str()));
                i = i + 1;
            }
            assert(quoted@.map_values(|q: String| q@) =~= quoted_fields(fields@));
            Ok(pyi_impl(decl.name.as_str(), quoted_name.as_str(), fields, &quoted))
        },
        DeclBody::Unsupported => Err(DeriveError::UnsupportedType),
    }
}


/// One field of a struct expression that maps the field of `self` with the
/// same name; fields after the first are separated by a comma.
pub open spec fn map_field_piece(field: Seq<char>, i: int) -> Seq<char> {
    (if i == 0 { Seq::empty() } else { ",\n"@ }) + "                "@ + field + ": self."@ + field
        + ".map_py(py)?"@
}

/// The fields of a struct expression that maps each named field, in order.
pub open spec fn map_fields_text(fields: Seq<Seq<char>>) -> Seq<char> {
    Seq::new(fields.len(), |i: int| map_field_piece(fields[i], i)).flatten()
}

/// One `MapPy` impl from `from` to `to`, whose struct expression holds
/// `map_data`.
pub open spec fn map_impl_text(from: Seq<char>, to: Seq<char>, map_data: Seq<char>) -> Seq<char> {
    "impl crate::MapPy<"@ + to + "> for "@ + from
        + " {\n    fn map_py(\n        &self,\n        py: pyo3::Python,\n    ) -> pyo3::prelude::PyResult<"@
        + to + "> {\n        Ok(\n            "@ + to + " {\n"@ + map_data
        + "\n            }\n        )\n    }\n}\n\n"@
}

/// The four `MapPy` impls of a struct `name` and the type `map_type` that it
/// mirrors: each way between the two, and each way between `map_type` and a
/// Python object.
pub open spec fn map_py_text(name: Seq<char>, map_type: Seq<char>, map_data: Seq<char>) -> Seq<
    char,
> {
    map_impl_text(name, map_type, map_data) + map_impl_text(map_type, name, map_data)
        + "impl crate::MapPy<pyo3::PyObject> for "@ + map_type
        + " {\n    fn map_py(\n        &self,\n        py: pyo3::Python,\n    ) -> pyo3::prelude::PyResult<pyo3::PyObject> {\n        let x: "@
        + name + " = self.map_py(py)?;\n        Ok(x.into_py(py))\n    }\n}\n\n"@
        + "impl crate::MapPy<"@ + map_type
        + "> for pyo3::PyObject {\n    fn map_py(&self, py: pyo3::Python) -> pyo3::prelude::PyResult<"@
        + map_type + "> {\n        let x: "@ + name
        + " = self.extract(py)?;\n        x.map_py(py)\n    }\n}\n"@
}

/// What deriving `MapPy` gives for a declaration.
pub open spec fn map_py_derive_result(decl: TypeDecl) -> Result<Seq<char>, DeriveError> {
    match decl.map_type {
        None => Err(DeriveError::MissingMapType),
        Some(m) => match decl.body {
            DeclBody::NamedFields(fields) => Ok(
                map_py_text(decl.name@, m@, map_fields_text(field_names(fields@))),
            ),
            DeclBody::Unsupported => Err(DeriveError::UnsupportedType),
        },
    }
}

/// The fields of a struct expression that maps each field of `self`.
pub fn map_fields(fields: &Vec<FieldDecl>) -> (r: String)
    ensures
        r@ == map_fields_text(field_names(fields@)),
{
    let ghost pieces = Seq::new(
        fields@.len(),
        |i: int| map_field_piece(field_names(fields@)[i], i),
    );
    let mut out = String::new();
    assert(out@ =~= pieces.take(0).flatten());
    let mut i: usize = 0;
    while i < fields.len()
        invariant
            0 <= i <= fields@.len(),
            pieces == Seq::new(
                fields@.len(),
                |i: int| map_field_piece(field_names(fields@)[i], i),
            ),
            out@ == pieces.take(i as int).flatten(),
        decreases fields@.len() - i,
    {
        let ghost before = out@;
        if i > 0 {
            out.append(",\n");
        }
        out.append("                ");
        out.append(fields[i].name.as_str());
        out.append(": self.");
        out.append(fields[i].name.as_str());
        out.append(".map_py(py)?");
        proof {
            assert(pieces.take(i + 1) =~= pieces.take(i as int).push(pieces[i as int]));
            pieces.take(i as int).lemma_flatten_push(pieces[i as int]);
            assert(out@ =~= before + pieces[i as int]);
        }
        i = i + 1;
    }
    assert(pieces.take(i as int) =~= pieces);
    out
}

fn push_map_impl(out: &mut String, from: &str, to: &str, map_data: &str)
    ensures
        final(out)@ == old(out)@ + map_impl_text(from@, to@, map_data@),
{
    let ghost start = out@;
    out.append("impl crate::MapPy<");
    out.append(to);
    out.append("> for ");
    out.append(from);
    out.append(" {\n    fn map_py(\n        &self,\n        py: pyo3::Python,\n    ) -> pyo3::prelude::PyResult<");
    out.append(to);
    out.append("> {\n        Ok(\n            ");
    out.append(to);
    out.append(" {\n");
    out.append(map_data);
    out.append("\n            }\n        )\n    }\n}\n\n");
    assert(out@ =~= start + map_impl_text(from@, to@, map_data@));
}

/// The four `MapPy` impls between the struct `name` and `map_type`, whose
/// struct expressions hold `map_data`.
pub fn generate_map_py(name: &str, map_type: &str, map_data: &str) -> (r: String)
    ensures
        r@ == map_py_text(name@, map_type@, map_data@),
{
    let mut out = String::new();
    push_map_impl(&mut out, name, map_type, map_data);
    push_map_impl(&mut out, map_type, name, map_data);
    let ghost mid = out@;
    out.append("impl crate::MapPy<pyo3::PyObject> for ");
    out.append(map_type);
    out.append(" {\n    fn map_py(\n        &self,\n        py: pyo3::Python,\n    ) -> pyo3::prelude::PyResult<pyo3::PyObject> {\n        let x: ");
    out.append(name);
    out.append(" = self.map_py(py)?;\n        Ok(x.into_py(py))\n    }\n}\n\n");
    out.append("impl crate::MapPy<");
    out.append(map_type);
    out.append("> for pyo3::PyObject {\n    fn map_py(&self, py: pyo3::Python) -> pyo3::prelude::PyResult<");
    out.append(map_type);
    out.append("> {\n        let x: ");
    out.append(name);
    out.append(" = self.extract(py)?;\n        x.map_py(py)\n    }\n}\n");
    assert(out@ =~= map_py_text(name@, map_type@, map_data@));
    out
}

/// Derives `MapPy` for a declaration: it must name the type it mirrors, and
/// be a struct with named fields, which map by name.
pub fn map_py_derive(decl: &TypeDecl) -> (r: Result<String, DeriveError>)
    ensures
        match (r, map_py_derive_result(*decl)) {
            (Ok(code), Ok(text)) => code@ == text,
            (Err(e), Err(f)) => e == f,
            _ => false,
        },
{
    match &decl.map_type {
        None => Err(DeriveError::MissingMapType),
        Some(map_type) => match &decl.body {
            DeclBody::NamedFields(fields) => {
                let map_data = map_fields(fields);
                Ok(generate_map_py(decl.name.as_str(), map_type.as_str(), map_data.as_str()))
            },
            DeclBody::Unsupported => Err(DeriveError::UnsupportedType),
        },
    }
}

} // verus!
