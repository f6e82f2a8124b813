//! Stub classes of structs, and the stub file that gathers the fragments.
use vstd::prelude::*;
use crate::schema::{field_names, field_types, FieldDecl};

verus! {

/// One field line of a stub class.
pub open spec fn stub_field_line(name: Seq<char>, ty: Seq<char>) -> Seq<char> {
    "    "@ + name + ": "@ + ty + "\n"@
}

/// The field lines of a stub class, in declaration order.
pub open spec fn stub_field_lines(fields: Seq<FieldDecl>) -> Seq<Seq<char>> {
    Seq::new(
        fields.len(),
        |i: int| stub_field_line(field_names(fields)[i], field_types(fields)[i]),
    )
}

/// The stub class of a struct.
pub open spec fn struct_stub_text(name: Seq<char>, fields: Seq<FieldDecl>) -> Seq<char> {
    "class "@ + name + ":\n"@ + stub_field_lines(fields).flatten()
}

/// The stub class of a struct whose fields carry their Python types: a
/// header, then one `name: type` line per field in declaration order.
pub fn struct_stub(name: &str, fields: &Vec<FieldDecl>) -> (r: String)
    ensures
        r@ == struct_stub_text(name@, fields@),
{
    let ghost lines = stub_field_lines(fields@);
    let mut out = String::new();
    out.append("class ");
    out.append(name);
    out.append(":\n");
    let ghost head = out@;
    assert(out@ =~= head + lines.take(0).flatten());
    let mut i: usize = 0;
    while i < fields.len()
        invariant
            0 <= i <= fields@.len(),
            lines == stub_field_lines(fields@),
            head == "class "@ + name@ + ":\n"@,
            out@ == head + lines.take(i as int).flatten(),
        decreases fields@.len() - i,
    {
        let ghost before = out@;
        out.append("    ");
        out.append(fields[i].name.as_str());
        out.append(": ");
        out.append(fields[i].ty.as_str());
        out.append("\n");
        proof {
            assert(lines.take(i + 1) =~= lines.take(i as int).push(lines[i as int]));
            lines.take(i as int).lemma_flatten_push(lines[i as int]);
            assert(out@ =~= before + lines[i as int]);
        }
        i = i + 1;
    }
    assert(lines.take(i as int) =~= lines);
    out
}

/// Each fragment followed by an empty line.
pub open spec fn stub_pieces(fragments: Seq<Seq<char>>) -> Seq<Seq<char>> {
    fragments.map_values(|f: Seq<char>| f + "\n\n"@)
}

/// The stub file of a module: the fragments in the order given, each
/// followed by an empty line, with nothing left out or added.
pub fn aggregate_stubs(fragments: &Vec<String>) -> (r: String)
    ensures
        r@ == stub_pieces(fragments@.map_values(|f: String| f@)).flatten(),
{
    let ghost pieces = stub_pieces(fragments@.map_values(|f: String| f@));
    let mut out = String::new();
    assert(out@ =~= pieces.take(0).flatten());
    let mut i: usize = 0;
    while i < fragments.len()
        invariant
            0 <= i <= fragments@.len(),
            pieces == stub_pieces(fragments@.map_values(|f: String| f@)),
            out@ == pieces.take(i as int).flatten(),
        decreases fragments@.len() - i,
    {
        let ghost before = out@;
        out.append(fragments[i].as_str());
        out.append("\n\n");
        proof {
            assert(pieces.take(i + 1) =~= pieces.take(i as int).push(pieces[i as int]));
            pieces.take(i as int).lemma_flatten_push(pieces[i as int]);
            assert(out@ =~= before + pieces[i as int]);
        }
        i = i + 1;
    }
    assert(pieces.take(i as int) =~= pieces);
    out
}

} // verus!
