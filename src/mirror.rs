//! Field-by-field mapping between a type and its mirror.
use vstd::prelude::*;

verus! {

/// The value of one field.
#[derive(Debug, PartialEq, Eq)]
pub enum Value {
    Int(i64),
    Bool(bool),
    Text(String),
    /// An optional field that holds nothing.
    Absent,
}

/// A named field and its value.
#[derive(Debug, PartialEq, Eq)]
pub struct Field {
    pub name: String,
    pub value: Value,
}

/// Why a record could not be mapped: its fields do not have the shape that
/// the target type declares.
#[derive(Debug, PartialEq, Eq, Structural, Clone, Copy)]
pub enum MapError {
    ShapeMismatch,
}

/// A type and its mirror, each given by its field names in declaration
/// order. Fields correspond by name.
pub struct MirrorPair {
    pub internal: Vec<String>,
    pub exposed: Vec<String>,
}

/// The names as text.
pub open spec fn texts(names: Seq<String>) -> Seq<Seq<char>> {
    names.map_values(|n: String| n@)
}

/// The field names of a record, in order.
pub open spec fn record_names(rec: Seq<Field>) -> Seq<Seq<char>> {
    rec.map_values(|f: Field| f.name@)
}

impl MirrorPair {
    /// Both sides name each field once, and name the same fields.
    pub open spec fn wf(&self) -> bool {
        &&& texts(self.internal@).no_duplicates()
        &&& texts(self.exposed@).no_duplicates()
        &&& texts(self.internal@).to_set() == texts(self.exposed@).to_set()
    }
}

/// Field `j` is the first of `rec` named `name`.
pub open spec fn is_first_match(rec: Seq<Field>, name: Seq<char>, j: int) -> bool {
    &&& 0 <= j < rec.len()
    &&& rec[j].name@ == name
    &&& forall|k: int| 0 <= k < j ==> rec[k].name@ != name
}

/// `rec` has a field named `name`.
pub open spec fn has_field(rec: Seq<Field>, name: Seq<char>) -> bool {
    exists|j: int| is_first_match(rec, name, j)
}

/// The index of the first field of `rec` named `name`.
pub open spec fn first_match(rec: Seq<Field>, name: Seq<char>) -> int {
    choose|j: int| is_first_match(rec, name, j)
}

/// `rec` has as many fields as `names`, and a field of each name.
pub open spec fn fits(names: Seq<Seq<char>>, rec: Seq<Field>) -> bool {
    &&& rec.len() == names.len()
    &&& forall|i: int| 0 <= i < names.len() ==> has_field(rec, #[trigger] names[i])
}

/// `rec` mapped to the type whose fields are `names`: the fields in that
/// order, each taken from the field of `rec` with the same name; `None`
/// where `rec` does not fit.
pub open spec fn map_record_spec(names: Seq<Seq<char>>, rec: Seq<Field>) -> Option<Seq<Field>> {
    if fits(names, rec) {
        Some(Seq::new(names.len(), |i: int| rec[first_match(rec, names[i])]))
    } else {
        None
    }
}

/// A copy of a value, equal to it.
pub fn copy_value(v: &Value) -> (r: Value)
    ensures
        r == *v,
{
    match v {
        Value::Int(i) => Value::Int(*i),
        Value::Bool(b) => Value::Bool(*b),
        Value::Text(s) => Value::Text(s.clone()),
        Value::Absent => Value::Absent,
    }
}

/// A copy of a field, equal to it.
pub fn copy_field(f: &Field) -> (r: Field)
    ensures
        r == *f,
{
    Field { name: f.name.clone(), value: copy_value(&f.value) }
}

/// The index of the first field of `rec` named `name`, if any.
pub fn find_field(rec: &Vec<Field>, name: &String) -> (r: Option<usize>)
    ensures
        match r {
            Some(j) => is_first_match(rec@, name@, j as int),
            None => forall|j: int| !is_first_match(rec@, name@, j),
        },
{
    let mut i: usize = 0;
    while i < rec.len()
        invariant
            0 <= i <= rec@.len(),
            forall|k: int| 0 <= k < i ==> rec@[k].name@ != name@,
        decreases rec@.len() - i,
    {
        if rec[i].name == *name {
            return Some(i);
        }
        i = i + 1;
    }
    None
}

/// Maps `rec` to the type whose fields are `names`, in that order. Fails,
/// with nothing built, where `rec` has another number of fields or lacks
/// one of the names.
pub fn map_record(names: &Vec<String>, rec: &Vec<Field>) -> (r: Result<Vec<Field>, MapError>)
    ensures
        match (r, map_record_spec(texts(names@), rec@)) {
            (Ok(out), Some(m)) => out@ == m,
            (Err(e), None) => e == MapError::ShapeMismatch,
            _ => false,
        },
{
    let ghost ns = texts(names@);
    if rec.len() != names.len() {
        return Err(MapError::ShapeMismatch);
    }
    let mut out: Vec<Field> = Vec::new();
    let mut i: usize = 0;
    while i < names.len()
        invariant
            0 <= i <= names@.len(),
            ns == texts(names@),
            rec@.len() == names@.len(),
            out@.len() == i,
            forall|k: int| 0 <= k < i ==> has_field(rec@, #[trigger] ns[k]),
            forall|k: int| 0 <= k < i ==> out@[k] == rec@[first_match(rec@, #[trigger] ns[k])],
        decreases names@.len() - i,
    {
        match find_field(rec, &names[i]) {
            Some(j) => {
                proof {
                    assert(ns[i as int] == names@[i as int]@);
                    assert(is_first_match(rec@, ns[i as int], j as int));
                    let c = first_match(rec@, ns[i as int]);
                    assert(is_first_match(rec@, ns[i as int], c));
                    if c < j {
                        assert(rec@[c].name@ != ns[i as int]);
                    } else if j < c {
                        assert(rec@[j as int].name@ != ns[i as int]);
                    }
                }
                out.push(copy_field(&rec[j]));
            },
            None => {
                proof {
                    assert(ns[i as int] == names@[i as int]@);
                    assert(!fits(ns, rec@));
                }
                return Err(MapError::ShapeMismatch);
            },
        }
        i = i + 1;
    }
    assert(fits(ns, rec@));
    assert(out@ =~= Seq::new(ns.len(), |i: int| rec@[first_match(rec@, ns[i])]));
    Ok(out)
}

/// Each record mapped to the type whose fields are `names`, in order;
/// `None` where any record does not fit.
pub open spec fn map_records_spec(names: Seq<Seq<char>>, recs: Seq<Vec<Field>>) -> Option<
    Seq<Seq<Field>>,
> {
    if forall|i: int| 0 <= i < recs.len() ==> fits(names, #[trigger] recs[i]@) {
        Some(Seq::new(recs.len(), |i: int| map_record_spec(names, recs[i]@)->0))
    } else {
        None
    }
}

/// Maps a sequence of records element by element, keeping their order and
/// number. Fails, with nothing built, where any record fails.
pub fn map_records(names: &Vec<String>, recs: &Vec<Vec<Field>>) -> (r: Result<
    Vec<Vec<Field>>,
    MapError,
>)
    ensures
        match (r, map_records_spec(texts(names@), recs@)) {
            (Ok(out), Some(m)) => out@.len() == m.len() && forall|i: int|
                0 <= i < m.len() ==> #[trigger] out@[i]@ == m[i],
            (Err(e), None) => e == MapError::ShapeMismatch,
            _ => false,
        },
{
    let ghost ns = texts(names@);
    let mut out: Vec<Vec<Field>> = Vec::new();
    let mut i: usize = 0;
    while i < recs.len()
        invariant
            0 <= i <= recs@.len(),
            ns == texts(names@),
            out@.len() == i,
            forall|k: int| 0 <= k < i ==> fits(ns, #[trigger] recs@[k]@),
            forall|k: int|
                0 <= k < i ==> #[trigger] out@[k]@ == map_record_spec(ns, recs@[k]@)->0,
        decreases recs@.len() - i,
    {
        match map_record(names, &recs[i]) {
            Ok(mapped) => {
                out.push(mapped);
            },
            Err(e) => {
                assert(!fits(ns, recs@[i as int]@));
                return Err(e);
            },
        }
        i = i + 1;
    }
    Ok(out)
}

impl MirrorPair {
    /// Maps a record of the internal type to the exposed type.
    pub fn to_exposed(&self, rec: &Vec<Field>) -> (r: Result<Vec<Field>, MapError>)
        ensures
            match (r, map_record_spec(texts(self.exposed@), rec@)) {
                (Ok(out), Some(m)) => out@ == m,
                (Err(e), None) => e == MapError::ShapeMismatch,
                _ => false,
            },
    {
        map_record(&self.exposed, rec)
    }

    /// Maps a record of the exposed type to the internal type.
    pub fn to_internal(&self, rec: &Vec<Field>) -> (r: Result<Vec<Field>, MapError>)
        ensures
            match (r, map_record_spec(texts(self.internal@), rec@)) {
                (Ok(out), Some(m)) => out@ == m,
                (Err(e), None) => e == MapError::ShapeMismatch,
                _ => false,
            },
    {
        map_record(&self.internal, rec)
    }
}

} // verus!
