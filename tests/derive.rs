use ssbh_data_py_derive::derive::{generate_map_py, map_fields, map_py_derive, pyi_derive, pyi_impl};
use ssbh_data_py_derive::schema::{DeclBody, DeriveError, FieldDecl, TypeDecl};
use ssbh_data_py_derive::stub::{aggregate_stubs, struct_stub};

fn field(name: &str, ty: &str) -> FieldDecl {
    FieldDecl { name: name.to_string(), ty: ty.to_string() }
}

fn point(map_type: Option<&str>) -> TypeDecl {
    TypeDecl {
        name: "Point".to_string(),
        map_type: map_type.map(|m| m.to_string()),
        body: DeclBody::NamedFields(vec![field("x", "f32"), field("y", "f32")]),
    }
}

const POINT_PYI: &str = "impl Pyi for Point {
    fn pyi() -> String {
        let mut result = format!(\"class {}:\\n\", \"Point\");
        result += &format!(\"    {}: {}\\n\", \"x\", <f32>::py_type_string());
        result += &format!(\"    {}: {}\\n\", \"y\", <f32>::py_type_string());
        result
    }
}

impl PyTypeString for Point {
    fn py_type_string() -> String {
        \"Point\".to_string()
    }
}
";

#[test]
fn pyi_of_point() {
    assert_eq!(pyi_derive(&point(None)), Ok(POINT_PYI.to_string()));
}

#[test]
fn pyi_takes_given_literals() {
    let r = pyi_impl(
        "Point",
        "\"Point\"",
        &vec![field("x", "f32"), field("y", "f32")],
        &vec!["\"x\"".to_string(), "\"y\"".to_string()],
    );
    assert_eq!(r, POINT_PYI);
}

#[test]
fn pyi_quotes_names() {
    let decl = TypeDecl {
        name: "Odd".to_string(),
        map_type: None,
        body: DeclBody::NamedFields(vec![field("r#type", "u8")]),
    };
    let r = pyi_derive(&decl).unwrap();
    assert!(r.contains("format!(\"class {}:\\n\", \"Odd\")"));
    assert!(r.contains("\"r#type\", <u8>::py_type_string()"));
}

#[test]
fn pyi_of_unsupported_shape() {
    let decl = TypeDecl { name: "E".to_string(), map_type: None, body: DeclBody::Unsupported };
    assert_eq!(pyi_derive(&decl), Err(DeriveError::UnsupportedType));
}

#[test]
fn map_fields_of_point() {
    let r = map_fields(&vec![field("x", "f32"), field("y", "f32")]);
    assert_eq!(
        r,
        "                x: self.x.map_py(py)?,\n                y: self.y.map_py(py)?"
    );
    assert_eq!(map_fields(&vec![]), "");
}

const POINT_MAP: &str = "impl crate::MapPy<m::Point> for Point {
    fn map_py(
        &self,
        py: pyo3::Python,
    ) -> pyo3::prelude::PyResult<m::Point> {
        Ok(
            m::Point {
                x: self.x.map_py(py)?
            }
        )
    }
}

impl crate::MapPy<Point> for m::Point {
    fn map_py(
        &self,
        py: pyo3::Python,
    ) -> pyo3::prelude::PyResult<Point> {
        Ok(
            Point {
                x: self.x.map_py(py)?
            }
        )
    }
}

impl crate::MapPy<pyo3::PyObject> for m::Point {
    fn map_py(
        &self,
        py: pyo3::Python,
    ) -> pyo3::prelude::PyResult<pyo3::PyObject> {
        let x: Point = self.map_py(py)?;
        Ok(x.into_py(py))
    }
}

impl crate::MapPy<m::Point> for pyo3::PyObject {
    fn map_py(&self, py: pyo3::Python) -> pyo3::prelude::PyResult<m::Point> {
        let x: Point = self.extract(py)?;
        x.map_py(py)
    }
}
";

#[test]
fn map_py_impls() {
    let r = generate_map_py("Point", "m::Point", "                x: self.x.map_py(py)?");
    assert_eq!(r, POINT_MAP);
}

#[test]
fn map_py_derive_of_point() {
    let decl = TypeDecl {
        name: "Point".to_string(),
        map_type: Some("m::Point".to_string()),
        body: DeclBody::NamedFields(vec![field("x", "f32")]),
    };
    assert_eq!(map_py_derive(&decl), Ok(POINT_MAP.to_string()));
    let two = map_py_derive(&point(Some("m::Point"))).unwrap();
    assert!(two.contains("                x: self.x.map_py(py)?,\n                y: self.y.map_py(py)?\n"));
}

#[test]
fn map_py_needs_map_type() {
    assert_eq!(map_py_derive(&point(None)), Err(DeriveError::MissingMapType));
    let decl = TypeDecl { name: "E".to_string(), map_type: None, body: DeclBody::Unsupported };
    assert_eq!(map_py_derive(&decl), Err(DeriveError::MissingMapType));
}

#[test]
fn map_py_of_unsupported_shape() {
    let decl = TypeDecl {
        name: "E".to_string(),
        map_type: Some("m::E".to_string()),
        body: DeclBody::Unsupported,
    };
    assert_eq!(map_py_derive(&decl), Err(DeriveError::UnsupportedType));
}

#[test]
fn derive_is_the_same_on_every_run() {
    assert_eq!(pyi_derive(&point(None)), pyi_derive(&point(None)));
    assert_eq!(map_py_derive(&point(Some("a::P"))), map_py_derive(&point(Some("a::P"))));
}

#[test]
fn stub_of_point() {
    let r = struct_stub("Point", &vec![field("x", "float"), field("y", "float")]);
    assert_eq!(r, "class Point:\n    x: float\n    y: float\n");
    assert_eq!(struct_stub("Unit", &vec![]), "class Unit:\n");
}

#[test]
fn stubs_gathered_in_order() {
    let r = aggregate_stubs(&vec!["class B:\n    x: int\n".to_string(), "class A:".to_string(), "class A:".to_string()]);
    assert_eq!(r, "class B:\n    x: int\n\n\nclass A:\n\nclass A:\n\n");
    assert_eq!(aggregate_stubs(&vec![]), "");
}
