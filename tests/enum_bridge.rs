use ssbh_data_py_derive::enum_bridge::{
    enum_impls, enum_pymethods, enum_section, generate_enum_file, write_enum_pymethods, EnumDecl,
};

fn color() -> EnumDecl {
    EnumDecl {
        name: "Color".to_string(),
        variants: vec!["Red".to_string(), "Green".to_string(), "Blue".to_string()],
    }
}

#[test]
fn color_lookups() {
    let c = color();
    assert_eq!(c.by_ordinal(1), Some("Green".to_string()));
    assert_eq!(c.by_name("Blue"), Some(2));
    assert_eq!(c.by_ordinal(9), None);
    assert_eq!(c.by_name("red"), None);
}

#[test]
fn every_variant_found_by_ordinal_and_name() {
    let c = color();
    for (i, v) in c.variants.iter().enumerate() {
        assert_eq!(c.by_ordinal(i), Some(v.clone()));
        assert_eq!(c.by_name(v), Some(i));
    }
    assert_eq!(c.by_ordinal(3), None);
    assert_eq!(c.by_ordinal(usize::MAX), None);
    assert_eq!(c.by_name("BLUE"), None);
    assert_eq!(c.by_name(""), None);
    assert_eq!(c.by_name("Blue "), None);
}

#[test]
fn empty_enum_finds_nothing() {
    let e = EnumDecl { name: "Empty".to_string(), variants: vec![] };
    assert_eq!(e.by_ordinal(0), None);
    assert_eq!(e.by_name("Empty"), None);
}

#[test]
fn duplicate_name_gives_first_ordinal() {
    let e = EnumDecl {
        name: "Twice".to_string(),
        variants: vec!["A".to_string(), "B".to_string(), "A".to_string()],
    };
    assert_eq!(e.by_name("A"), Some(0));
}

#[test]
fn color_stub() {
    let expected = "class Color:\n    name: str\n    value: int\n    Red: ClassVar[Color]\n    Green: ClassVar[Color]\n    Blue: ClassVar[Color]\n\n    @staticmethod\n    def from_value(value: int) -> Optional[Color]: ...\n\n    @staticmethod\n    def from_str(value: str) -> Optional[Color]: ...";
    assert_eq!(color().stub(), expected);
}

#[test]
fn stub_lists_variants_in_order() {
    let s = color().stub();
    let red = s.find("Red").unwrap();
    let green = s.find("Green").unwrap();
    let blue = s.find("Blue").unwrap();
    assert!(red < green && green < blue);
}

const RED_METHODS: &str = "#[pymethods]
impl Color {
    #[classattr]
    #[pyo3(name = \"Red\")]
    pub fn red() -> Color {
        p::Color::Red.into()
    }

    #[staticmethod]
    pub fn from_value(value: usize) -> Option<Color> {
        p::Color::from_repr(value).map(Into::into)
    }

    #[staticmethod]
    pub fn from_str(value: &str) -> Option<Color> {
        p::Color::from_str(value).map(Into::into).ok()
    }
}
";

#[test]
fn pymethods_of_one_variant() {
    let r = write_enum_pymethods("Color", "p", &vec!["Red".to_string()]);
    assert_eq!(r, RED_METHODS);
}

#[test]
fn pymethods_take_given_names() {
    let r = enum_pymethods(
        "Color",
        "p",
        &vec!["Red".to_string()],
        &vec!["red".to_string()],
        &vec!["\"Red\"".to_string()],
    );
    assert_eq!(r, RED_METHODS);
}

#[test]
fn accessor_names_are_lower_case() {
    let r = write_enum_pymethods("Mode", "m", &vec!["CullNone".to_string()]);
    assert!(r.contains("    pub fn cullnone() -> Mode {\n"));
    assert!(r.contains("    #[pyo3(name = \"CullNone\")]\n"));
    assert!(r.contains("        m::Mode::CullNone.into()\n"));
}

#[test]
fn impls_of_enum() {
    let r = enum_impls("Fill", "ssbh_data_py.matl_data", &vec!["Line".to_string(), "Solid".to_string()]);
    let expected = "impl crate::PyiClass for Fill {
    fn pyi_class() -> String {
        \"class Fill:\\n    name: str\\n    value: int\".to_string()
    }
}
impl crate::PyiMethods for Fill {
    fn pyi_methods() -> String {
        \"    Line: ClassVar[Fill]
    Solid: ClassVar[Fill]

    @staticmethod
    def from_value(value: int) -> Optional[Fill]: ...

    @staticmethod
    def from_str(value: str) -> Optional[Fill]: ...\".to_string()
    }
}
impl crate::PyRepr for Fill {
    fn py_repr(&self) -> String {
        \"ssbh_data_py.matl_data.Fill\".to_string()
    }
}

#[pyproto]
impl pyo3::PyObjectProtocol for Fill {
    fn __repr__(&self) -> String {
        self.py_repr()
    }
}
";
    assert_eq!(r, expected);
}

#[test]
fn file_uses_python_module_path() {
    let decl = EnumDecl { name: "GroupType".to_string(), variants: vec!["Transform".to_string()] };
    let f = generate_enum_file("ssbh_data::anim_data", &vec![decl]);
    assert!(f.starts_with("// Do not edit: changes made to this file will not be saved.\nuse pyo3::prelude::*;\nuse super::*;\nuse std::str::FromStr;\n\n"));
    assert!(f.contains("\"ssbh_data_py.anim_data.GroupType\".to_string()"));
    assert!(f.contains("ssbh_data::anim_data::GroupType::Transform.into()"));
    assert!(f.contains("    pub fn transform() -> GroupType {\n"));
}

#[test]
fn file_holds_sections_in_order() {
    let a = EnumDecl { name: "Alpha".to_string(), variants: vec!["One".to_string()] };
    let b = EnumDecl { name: "Beta".to_string(), variants: vec!["Two".to_string()] };
    let sa = enum_section("x", "x", &a);
    let sb = enum_section("x", "x", &b);
    let f = generate_enum_file("x", &vec![a, b]);
    let head = "// Do not edit: changes made to this file will not be saved.\nuse pyo3::prelude::*;\nuse super::*;\nuse std::str::FromStr;\n\n";
    assert_eq!(f, format!("{}{}{}", head, sa, sb));
}

#[test]
fn file_is_the_same_on_every_run() {
    let first = generate_enum_file("ssbh_data::matl_data", &vec![color()]);
    let second = generate_enum_file("ssbh_data::matl_data", &vec![color()]);
    assert_eq!(first, second);
}
