//! Enum declarations: lookup by ordinal and by name, the stub class, and
//! the `#[pymethods]` binding code and files of enums.
use vstd::prelude::*;
use crate::text::{debug_of, debug_quote, lower_of, replace_all, replace_of, to_lower};

verus! {

broadcast use vstd::string::to_string_from_display_ensures_for_str;

/// An enum as declared: its name and its variant names in declaration
/// order. A variant's ordinal is its position in that order.
pub struct EnumDecl {
    pub name: String,
    pub variants: Vec<String>,
}

/// The variant names as text.
pub open spec fn names_of(variants: Seq<String>) -> Seq<Seq<char>> {
    variants.map_values(|v: String| v@)
}

impl EnumDecl {
    pub open spec fn variant_names(&self) -> Seq<Seq<char>> {
        names_of(self.variants@)
    }

    /// Variant names are unique, so that each names exactly one ordinal.
    pub open spec fn wf(&self) -> bool {
        self.variant_names().no_duplicates()
    }

    /// The variant declared at `ordinal`, or `None` where there is none.
    pub fn by_ordinal(&self, ordinal: usize) -> (r: Option<String>)
        ensures
            match r {
                Some(v) => ordinal_lookup(self.variant_names(), ordinal as int) == Some(v@),
                None => ordinal_lookup(self.variant_names(), ordinal as int) is None,
            },
    {
        if ordinal < self.variants.len() {
            Some(self.variants[ordinal].clone())
        } else {
            None
        }
    }

    /// The ordinal of the variant named exactly `name`, or `None`.
    pub fn by_name(&self, name: &str) -> (r: Option<usize>)
        ensures
            match r {
                Some(i) => name_lookup(self.variant_names(), name@) == Some(i as int),
                None => name_lookup(self.variant_names(), name@) is None,
            },
    {
        let wanted = name.to_string();
        let ghost names = self.variant_names();
        let mut i: usize = 0;
        while i < self.variants.len()
            invariant
                0 <= i <= self.variants@.len(),
                wanted@ == name@,
                names == self.variant_names(),
                forall|j: int| 0 <= j < i ==> names[j] != name@,
            decreases self.variants@.len() - i,
        {
            if self.variants[i] == wanted {
                proof {
                    assert(is_first_name(names, name@, i as int));
                    let c = choose|c: int| is_first_name(names, name@, c);
                    if c < i {
                        assert(names[c] != name@);
                    } else if c > i {
                        assert(names[i as int] != name@);
                    }
                }
                return Some(i);
            }
            i = i + 1;
        }
        None
    }
}

/// The variant at `ordinal` among `names`, if there is one.
pub open spec fn ordinal_lookup(names: Seq<Seq<char>>, ordinal: int) -> Option<Seq<char>> {
    if 0 <= ordinal < names.len() {
        Some(names[ordinal])
    } else {
        None
    }
}

/// Ordinal `i` is the first among `names` that is named `name`.
pub open spec fn is_first_name(names: Seq<Seq<char>>, name: Seq<char>, i: int) -> bool {
    &&& 0 <= i < names.len()
    &&& names[i] == name
    &&& forall|j: int| 0 <= j < i ==> names[j] != name
}

/// The first ordinal among `names` that is named exactly `name`, if any.
pub open spec fn name_lookup(names: Seq<Seq<char>>, name: Seq<char>) -> Option<int> {
    if exists|i: int| is_first_name(names, name, i) {
        Some(choose|i: int| is_first_name(names, name, i))
    } else {
        None
    }
}


/// Text of one variant's class attribute in the stub; every attribute but the
/// first starts on a new line.
pub open spec fn attr_piece(class_name: Seq<char>, variant: Seq<char>, i: int) -> Seq<char> {
    (if i == 0 { Seq::empty() } else { "\n"@ }) + "    "@ + variant + ": ClassVar["@
        + class_name + "]"@
}

/// The class attributes of all variants, one line each, in declaration order.
pub open spec fn attr_pieces(class_name: Seq<char>, variants: Seq<Seq<char>>) -> Seq<Seq<char>> {
    Seq::new(variants.len(), |i: int| attr_piece(class_name, variants[i], i))
}

/// The stub text of the two lookups, after the attributes.
pub open spec fn lookup_stub(class_name: Seq<char>) -> Seq<char> {
    "\n\n    @staticmethod\n    def from_value(value: int) -> Optional["@ + class_name
        + "]: ...\n\n    @staticmethod\n    def from_str(value: str) -> Optional["@ + class_name
        + "]: ..."@
}

/// The stub class of an enum, without its class attributes and lookups.
pub open spec fn enum_class_head(class_name: Seq<char>) -> Seq<char> {
    "class "@ + class_name + ":\n    name: str\n    value: int"@
}

/// The whole stub of an enum.
pub open spec fn enum_stub_text(class_name: Seq<char>, variants: Seq<Seq<char>>) -> Seq<char> {
    enum_class_head(class_name) + "\n"@ + attr_pieces(class_name, variants).flatten()
        + lookup_stub(class_name)
}

/// Appends the class attributes of `variants`, in order.
fn push_class_attributes(out: &mut String, class_name: &str, variants: &Vec<String>)
    ensures
        final(out)@ == old(out)@ + attr_pieces(class_name@, names_of(variants@)).flatten(),
{
    let ghost start = out@;
    let ghost pieces = attr_pieces(class_name@, names_of(variants@));
    let mut i: usize = 0;
    while i < variants.len()
        invariant
            0 <= i <= variants@.len(),
            pieces == attr_pieces(class_name@, names_of(variants@)),
            out@ == start + pieces.take(i as int).flatten(),
        decreases variants@.len() - i,
    {
        let ghost before = out@;
        if i > 0 {
            out.append("\n");
        }
        out.append("    ");
        out.append(variants[i].as_str());
        out.append(": ClassVar[");
        out.append(class_name);
        out.append("]");
        proof {
            assert(pieces.take(i + 1) =~= pieces.take(i as int).push(pieces[i as int]));
            pieces.take(i as int).lemma_flatten_push(pieces[i as int]);
            assert(out@ =~= before + pieces[i as int]);
        }
        i = i + 1;
    }
    proof {
        assert(pieces.take(i as int) =~= pieces);
    }
}

/// Appends the stub text of the two lookups.
fn push_lookup_stub(out: &mut String, class_name: &str)
    ensures
        final(out)@ == old(out)@ + lookup_stub(class_name@),
{
    let ghost start = out@;
    out.append("\n\n    @staticmethod\n    def from_value(value: int) -> Optional[");
    out.append(class_name);
    out.append("]: ...\n\n    @staticmethod\n    def from_str(value: str) -> Optional[");
    out.append(class_name);
    out.append("]: ...");
    assert(out@ =~= start + lookup_stub(class_name@));
}

impl EnumDecl {
    /// The stub class of this enum: a header, one class attribute per
    /// variant in declaration order, and the signatures of the two lookups.
    pub fn stub(&self) -> (r: String)
        ensures
            r@ == enum_stub_text(self.name@, self.variant_names()),
    {
        let mut out = String::new();
        out.append("class ");
        out.append(self.name.as_str());
        out.append(":\n    name: str\n    value: int");
        out.append("\n");
        push_class_attributes(&mut out, self.name.as_str(), &self.variants);
        push_lookup_stub(&mut out, self.name.as_str());
        assert(out@ =~= enum_stub_text(self.name@, self.variant_names()));
        out
    }
}


/// Opening of the `#[pymethods]` block of an enum.
pub open spec fn pymethods_head(class_name: Seq<char>) -> Seq<char> {
    "#[pymethods]\nimpl "@ + class_name + " {\n"@
}

/// The class-attribute accessor of one variant: `quoted` is the variant's
/// name as a string literal and `lowered` the accessor's name.
pub open spec fn accessor_text(
    class_name: Seq<char>,
    enum_path: Seq<char>,
    variant: Seq<char>,
    lowered: Seq<char>,
    quoted: Seq<char>,
) -> Seq<char> {
    "    #[classattr]\n    #[pyo3(name = "@ + quoted + ")]\n    pub fn "@ + lowered + "() -> "@
        + class_name + " {\n        "@ + enum_path + "::"@ + class_name + "::"@ + variant
        + ".into()\n    }\n\n"@
}

/// The accessors of all variants, in declaration order.
pub open spec fn accessor_pieces(
    class_name: Seq<char>,
    enum_path: Seq<char>,
    variants: Seq<Seq<char>>,
    lowered: Seq<Seq<char>>,
    quoted: Seq<Seq<char>>,
) -> Seq<Seq<char>> {
    Seq::new(
        variants.len(),
        |i: int| accessor_text(class_name, enum_path, variants[i], lowered[i], quoted[i]),
    )
}

/// The lookup by ordinal and the lookup by name, and the end of the block.
pub open spec fn lookup_methods(class_name: Seq<char>, enum_path: Seq<char>) -> Seq<char> {
    "    #[staticmethod]\n    pub fn from_value(value: usize) -> Option<"@ + class_name
        + "> {\n        "@ + enum_path + "::"@ + class_name
        + "::from_repr(value).map(Into::into)\n    }\n\n"@
        + "    #[staticmethod]\n    pub fn from_str(value: &str) -> Option<"@ + class_name
        + "> {\n        "@ + enum_path + "::"@ + class_name
        + "::from_str(value).map(Into::into).ok()\n    }\n}\n"@
}

/// The whole `#[pymethods]` block of an enum.
pub open spec fn pymethods_text(
    class_name: Seq<char>,
    enum_path: Seq<char>,
    variants: Seq<Seq<char>>,
    lowered: Seq<Seq<char>>,
    quoted: Seq<Seq<char>>,
) -> Seq<char> {
    pymethods_head(class_name) + accessor_pieces(
        class_name,
        enum_path,
        variants,
        lowered,
        quoted,
    ).flatten() + lookup_methods(class_name, enum_path)
}

fn push_lookup_methods(out: &mut String, class_name: &str, enum_path: &str)
    ensures
        final(out)@ == old(out)@ + lookup_methods(class_name@, enum_path@),
{
    let ghost start = out@;
    out.append("    #[staticmethod]\n    pub fn from_value(value: usize) -> Option<");
    out.append(class_name);
    out.append("> {\n        ");
    out.append(enum_path);
    out.append("::");
    out.append(class_name);
    out.append("::from_repr(value).map(Into::into)\n    }\n\n");
    out.append("    #[staticmethod]\n    pub fn from_str(value: &str) -> Option<");
    out.append(class_name);
    out.append("> {\n        ");
    out.append(enum_path);
    out.append("::");
    out.append(class_name);
    out.append("::from_str(value).map(Into::into).ok()\n    }\n}\n");
    assert(out@ =~= start + lookup_methods(class_name@, enum_path@));
}

/// The `#[pymethods]` block of an enum, given for each variant its accessor
/// name (`lowered`) and its name as a string literal (`quoted`).
pub fn enum_pymethods(
    class_name: &str,
    enum_path: &str,
    variants: &Vec<String>,
    lowered: &Vec<String>,
    quoted: &Vec<String>,
) -> (r: String)
    requires
        lowered@.len() == variants@.len(),
        quoted@.len() == variants@.len(),
    ensures
        r@ == pymethods_text(
            class_name@,
            enum_path@,
            names_of(variants@),
            names_of(lowered@),
            names_of(quoted@),
        ),
{
    let ghost pieces = accessor_pieces(
        class_name@,
        enum_path@,
        names_of(variants@),
        names_of(lowered@),
        names_of(quoted@),
    );
    let mut out = String::new();
    out.append("#[pymethods]\nimpl ");
    out.append(class_name);
    out.append(" {\n");
    assert(out@ =~= pymethods_head(class_name@) + pieces.take(0).flatten());
    let mut i: usize = 0;
    while i < variants.len()
        invariant
            0 <= i <= variants@.len(),
            lowered@.len() == variants@.len(),
            quoted@.len() == variants@.len(),
            pieces == accessor_pieces(
                class_name@,
                enum_path@,
                names_of(variants@),
                names_of(lowered@),
                names_of(quoted@),
            ),
            out@ == pymethods_head(class_name@) + pieces.take(i as int).flatten(),
        decreases variants@.len() - i,
    {
        let ghost before = out@;
        out.append("    #[classattr]\n    #[pyo3(name = ");
        out.append(quoted[i].as_str());
        out.append(")]\n    pub fn ");
        out.append(lowered[i].as_str());
        out.append("() -> ");
        out.append(class_name);
        out.append(" {\n        ");
        out.append(enum_path);
        out.append("::");
        out.append(class_name);
        out.append("::");
        out.append(variants[i].as_str());
        out.append(".into()\n    }\n\n");
        proof {
            assert(pieces.take(i + 1) =~= pieces.take(i as int).push(pieces[i as int]));
            pieces.take(i as int).lemma_flatten_push(pieces[i as int]);
            assert(out@ =~= before + pieces[i as int]);
        }
        i = i + 1;
    }
    proof {
        assert(pieces.take(i as int) =~= pieces);
    }
    push_lookup_methods(&mut out, class_name, enum_path);
    out
}

/// The accessor names of the variants: each name in lower case.
pub open spec fn lowered_names(variants: Seq<Seq<char>>) -> Seq<Seq<char>> {
    variants.map_values(|v: Seq<char>| lower_of(v))
}

/// The variant names as string literals.
pub open spec fn quoted_names(variants: Seq<Seq<char>>) -> Seq<Seq<char>> {
    variants.map_values(|v: Seq<char>| debug_of(v))
}

/// The `#[pymethods]` block of an enum: one class-attribute accessor per
/// variant, named after the variant in lower case, then the lookups by
/// ordinal and by name.
pub fn write_enum_pymethods(class_name: &str, enum_path: &str, variants: &Vec<String>) -> (r:
    String)
    ensures
        r@ == pymethods_text(
            class_name@,
            enum_path@,
            names_of(variants@),
            lowered_names(names_of(variants@)),
            quoted_names(names_of(variants@)),
        ),
{
    let mut lowered: Vec<String> = Vec::new();
    let mut quoted: Vec<String> = Vec::new();
    let mut i: usize = 0;
    while i < variants.len()
        invariant
            0 <= i <= variants@.len(),
            lowered@.len() == i,
            quoted@.len() == i,
            names_of(lowered@) =~= lowered_names(names_of(variants@)).take(i as int),
            names_of(quoted@) =~= quoted_names(names_of(variants@)).take(i as int),
        decreases variants@.len() - i,
    {
        lowered.push(to_lower(variants[i].as_str()));
        quoted.push(debug_quote(variants[i].as_str()));
        i = i + 1;
    }
    assert(names_of(lowered@) =~= lowered_names(names_of(variants@)));
    assert(names_of(quoted@) =~= quoted_names(names_of(variants@)));
    enum_pymethods(class_name, enum_path, variants, &lowered, &quoted)
}


/// The stub and `repr` impls of one enum, after its `#[pymethods]` block.
/// `repr_path` is the Python module path of the enum's class.
pub open spec fn enum_impls_text(
    class_name: Seq<char>,
    repr_path: Seq<char>,
    variants: Seq<Seq<char>>,
) -> Seq<char> {
    "impl crate::PyiClass for "@ + class_name
        + " {\n    fn pyi_class() -> String {\n        \"class "@ + class_name
        + ":\\n    name: str\\n    value: int\".to_string()\n    }\n}\n"@
        + "impl crate::PyiMethods for "@ + class_name
        + " {\n    fn pyi_methods() -> String {\n        \""@ + attr_pieces(
        class_name,
        variants,
    ).flatten() + lookup_stub(class_name) + "\".to_string()\n    }\n}\n"@
        + "impl crate::PyRepr for "@ + class_name
        + " {\n    fn py_repr(&self) -> String {\n        \""@ + repr_path + "."@ + class_name
        + "\".to_string()\n    }\n}\n\n#[pyproto]\nimpl pyo3::PyObjectProtocol for "@
        + class_name + " {\n    fn __repr__(&self) -> String {\n        self.py_repr()\n    }\n}\n"@
}

/// All the binding code of one enum.
pub open spec fn enum_section_text(enum_path: Seq<char>, repr_path: Seq<char>, decl: EnumDecl) -> Seq<
    char,
> {
    pymethods_text(
        decl.name@,
        enum_path,
        decl.variant_names(),
        lowered_names(decl.variant_names()),
        quoted_names(decl.variant_names()),
    ) + enum_impls_text(decl.name@, repr_path, decl.variant_names())
}

/// The lines that open a file of enum bindings.
pub open spec fn enum_file_head() -> Seq<char> {
    "// Do not edit: changes made to this file will not be saved.\nuse pyo3::prelude::*;\nuse super::*;\nuse std::str::FromStr;\n\n"@
}

/// The Python module path that corresponds to a Rust module path.
pub open spec fn python_path(enum_path: Seq<char>) -> Seq<char> {
    replace_of(enum_path, "ssbh_data::"@, "ssbh_data_py."@)
}

/// A file of enum bindings: the opening lines, then each enum's section in
/// the order given.
pub open spec fn enum_file_text(enum_path: Seq<char>, enums: Seq<EnumDecl>) -> Seq<char> {
    enum_file_head() + Seq::new(
        enums.len(),
        |e: int| enum_section_text(enum_path, python_path(enum_path), enums[e]),
    ).flatten()
}

/// Appends the stub and `repr` impls of one enum.
pub fn enum_impls(class_name: &str, repr_path: &str, variants: &Vec<String>) -> (r: String)
    ensures
        r@ == enum_impls_text(class_name@, repr_path@, names_of(variants@)),
{
    let mut out = String::new();
    out.append("impl crate::PyiClass for ");
    out.append(class_name);
    out.append(" {\n    fn pyi_class() -> String {\n        \"class ");
    out.append(class_name);
    out.append(":\\n    name: str\\n    value: int\".to_string()\n    }\n}\n");
    out.append("impl crate::PyiMethods for ");
    out.append(class_name);
    out.append(" {\n    fn pyi_methods() -> String {\n        \"");
    push_class_attributes(&mut out, class_name, variants);
    push_lookup_stub(&mut out, class_name);
    out.append("\".to_string()\n    }\n}\n");
    out.append("impl crate::PyRepr for ");
    out.append(class_name);
    out.append(" {\n    fn py_repr(&self) -> String {\n        \"");
    out.append(repr_path);
    out.append(".");
    out.append(class_name);
    out.append("\".to_string()\n    }\n}\n\n#[pyproto]\nimpl pyo3::PyObjectProtocol for ");
    out.append(class_name);
    out.append(" {\n    fn __repr__(&self) -> String {\n        self.py_repr()\n    }\n}\n");
    assert(out@ =~= enum_impls_text(class_name@, repr_path@, names_of(variants@)));
    out
}

/// All the binding code of one enum, with `repr_path` as the Python module
/// path of its class.
pub fn enum_section(enum_path: &str, repr_path: &str, decl: &EnumDecl) -> (r: String)
    ensures
        r@ == enum_section_text(enum_path@, repr_path@, *decl),
{
    let mut out = write_enum_pymethods(decl.name.as_str(), enum_path, &decl.variants);
    let impls = enum_impls(decl.name.as_str(), repr_path, &decl.variants);
    out.append(impls.as_str());
    out
}

/// The text of a file of enum bindings for the enums of the Rust module
/// `enum_path`, in the order given.
pub fn generate_enum_file(enum_path: &str, enums: &Vec<EnumDecl>) -> (r: String)
    ensures
        r@ == enum_file_text(enum_path@, enums@),
{
    let repr_path = replace_all(enum_path, "ssbh_data::", "ssbh_data_py.");
    let ghost sections = Seq::new(
        enums@.len(),
        |e: int| enum_section_text(enum_path@, python_path(enum_path@), enums@[e]),
    );
    proof {
        reveal_strlit("ssbh_data::");
        reveal_strlit("ssbh_data_py.");
    }
    assert(repr_path@ == python_path(enum_path@));
    let mut out = String::new();
    out.append("// Do not edit: changes made to this file will not be saved.\nuse pyo3::prelude::*;\nuse super::*;\nuse std::str::FromStr;\n\n");
    assert(out@ =~= enum_file_head() + sections.take(0).flatten());
    let mut e: usize = 0;
    while e < enums.len()
        invariant
            0 <= e <= enums@.len(),
            repr_path@ == python_path(enum_path@),
            sections == Seq::new(
                enums@.len(),
                |e: int| enum_section_text(enum_path@, python_path(enum_path@), enums@[e]),
            ),
            out@ == enum_file_head() + sections.take(e as int).flatten(),
        decreases enums@.len() - e,
    {
        let section = enum_section(enum_path, repr_path.as_str(), &enums[e]);
        out.append(section.as_str());
        proof {
            assert(sections.take(e + 1) =~= sections.take(e as int).push(sections[e as int]));
            sections.take(e as int).lemma_flatten_push(sections[e as int]);
        }
        e = e + 1;
    }
    assert(sections.take(e as int) =~= sections);
    out
}

} // verus!
