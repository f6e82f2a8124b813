//! Laws that relate the generator's functions to one another.
use vstd::prelude::*;
use crate::derive::{map_py_derive_result, pyi_derive_result};
use crate::enum_bridge::{
    attr_pieces, enum_class_head, enum_file_text, enum_stub_text, name_lookup, ordinal_lookup,
    EnumDecl,
};
use crate::schema::{field_names, field_types, DeclBody, TypeDecl};
use crate::stub::{stub_field_lines, struct_stub_text};
use crate::text::{lemma_piece_in_flatten, piece_offset};
use crate::mirror::{
    first_match, fits, has_field, is_first_match, map_record_spec, record_names, texts, Field,
    MirrorPair,
};

verus! {

/// In a record whose field names are distinct, a field is the first of its
/// name.
proof fn lemma_unique_match(rec: Seq<Field>, j: int)
    requires
        record_names(rec).no_duplicates(),
        0 <= j < rec.len(),
    ensures
        is_first_match(rec, rec[j].name@, j),
        has_field(rec, rec[j].name@),
        first_match(rec, rec[j].name@) == j,
{
    let name = rec[j].name@;
    assert forall|k: int| 0 <= k < rec.len() && k != j implies rec[k].name@ != name by {
        assert(record_names(rec)[k] == rec[k].name@);
        assert(record_names(rec)[j] == rec[j].name@);
    }
    assert(is_first_match(rec, name, j));
    let c = first_match(rec, name);
    assert(is_first_match(rec, name, c));
}

/// Mapping a record whose fields are `from` to the field order `to`, and the
/// result back to `from`, gives the record again, where both orders name
/// the same fields once each.
pub proof fn lemma_map_there_and_back(from: Seq<Seq<char>>, to: Seq<Seq<char>>, v: Seq<Field>)
    requires
        from.no_duplicates(),
        to.no_duplicates(),
        from.to_set() == to.to_set(),
        record_names(v) == from,
    ensures
        map_record_spec(to, v) is Some,
        map_record_spec(from, map_record_spec(to, v)->0) == Some(v),
{
    from.unique_seq_to_set();
    to.unique_seq_to_set();
    assert(v.len() == from.len());
    assert forall|i: int| 0 <= i < to.len() implies has_field(v, #[trigger] to[i])
        && exists|k: int| 0 <= k < from.len() && from[k] == to[i] && first_match(v, to[i]) == k by {
        assert(to.to_set().contains(to[i]));
        assert(from.to_set().contains(to[i]));
        let k = choose|k: int| 0 <= k < from.len() && from[k] == to[i];
        assert(record_names(v)[k] == v[k].name@);
        lemma_unique_match(v, k);
    }
    assert(fits(to, v));
    let m1 = Seq::new(to.len(), |i: int| v[first_match(v, to[i])]);
    assert(map_record_spec(to, v) == Some(m1));
    assert(record_names(m1) =~= to) by {
        assert forall|i: int| 0 <= i < to.len() implies record_names(m1)[i] == to[i] by {
            let k = choose|k: int| 0 <= k < from.len() && from[k] == to[i] && first_match(v, to[i]) == k;
            assert(record_names(v)[k] == v[k].name@);
        }
    }
    assert forall|k: int| 0 <= k < from.len() implies has_field(m1, #[trigger] from[k])
        && m1[first_match(m1, from[k])] == v[k] by {
        assert(from.to_set().contains(from[k]));
        assert(to.to_set().contains(from[k]));
        let i = choose|i: int| 0 <= i < to.len() && to[i] == from[k];
        assert(record_names(m1)[i] == m1[i].name@);
        lemma_unique_match(m1, i);
        assert(record_names(v)[k] == v[k].name@);
        lemma_unique_match(v, k);
    }
    assert(fits(from, m1));
    assert(map_record_spec(from, m1)->0 =~= v);
}

/// For a well-formed mirror pair, a value of either type mapped to the other
/// and back is the value again.
pub proof fn lemma_round_trip(pair: MirrorPair, internal: Seq<Field>, exposed: Seq<Field>)
    requires
        pair.wf(),
        record_names(internal) == texts(pair.internal@),
        record_names(exposed) == texts(pair.exposed@),
    ensures
        map_record_spec(
            texts(pair.internal@),
            map_record_spec(texts(pair.exposed@), internal)->0,
        ) == Some(internal),
        map_record_spec(
            texts(pair.exposed@),
            map_record_spec(texts(pair.internal@), exposed)->0,
        ) == Some(exposed),
{
    lemma_map_there_and_back(texts(pair.internal@), texts(pair.exposed@), internal);
    lemma_map_there_and_back(texts(pair.exposed@), texts(pair.internal@), exposed);
}

/// For an enum whose variant names are distinct, each variant is found at
/// its declared ordinal and by its exact name, and no other ordinal or name
/// finds anything.
pub proof fn lemma_enum_completeness(decl: EnumDecl)
    requires
        decl.wf(),
    ensures
        forall|i: int|
            0 <= i < decl.variant_names().len() ==> ordinal_lookup(decl.variant_names(), i)
                == Some(decl.variant_names()[i]) && name_lookup(
                decl.variant_names(),
                #[trigger] decl.variant_names()[i],
            ) == Some(i),
        forall|n: int| n >= decl.variant_names().len() ==> #[trigger] ordinal_lookup(decl.variant_names(), n) is None,
        forall|name: Seq<char>| !decl.variant_names().contains(name) ==> #[trigger] name_lookup(decl.variant_names(), name) is None,
{
    let names = decl.variant_names();
    assert forall|i: int| 0 <= i < names.len() implies name_lookup(names, #[trigger] names[i])
        == Some(i) by {
        assert(crate::enum_bridge::is_first_name(names, names[i], i));
        let c = choose|c: int| crate::enum_bridge::is_first_name(names, names[i], c);
        assert(names[c] == names[i]);
    }
}

/// Where variant `i`'s name starts in the stub of an enum.
pub open spec fn variant_offset(name: Seq<char>, variants: Seq<Seq<char>>, i: int) -> int {
    enum_class_head(name).len() + 1 + piece_offset(attr_pieces(name, variants), i) + (if i == 0 {
        0int
    } else {
        1int
    }) + 4
}

/// The stub of an enum lists every variant name, in declaration order.
pub proof fn lemma_enum_stub_lists_variants(name: Seq<char>, variants: Seq<Seq<char>>)
    ensures
        forall|i: int|
            0 <= i < variants.len() ==> enum_stub_text(name, variants).subrange(
                variant_offset(name, variants, i),
                variant_offset(name, variants, i) + variants[i].len(),
            ) == #[trigger] variants[i],
        forall|i: int|
            0 <= i < variants.len() - 1 ==> variant_offset(name, variants, i) + variants[i].len()
                < #[trigger] variant_offset(name, variants, i + 1),
{
    reveal_strlit("    ");
    reveal_strlit("\n");
    let pieces = attr_pieces(name, variants);
    let head = enum_class_head(name) + "\n"@;
    let stub = enum_stub_text(name, variants);
    assert forall|i: int| 0 <= i < variants.len() implies stub.subrange(
        variant_offset(name, variants, i),
        variant_offset(name, variants, i) + variants[i].len(),
    ) == #[trigger] variants[i] && (i < variants.len() - 1 ==> variant_offset(name, variants, i)
        + variants[i].len() < variant_offset(name, variants, i + 1)) by {
        lemma_piece_in_flatten(pieces, i);
        let flat = pieces.flatten();
        let po = piece_offset(pieces, i);
        let sep: Seq<char> = if i == 0 { Seq::empty() } else { "\n"@ };
        let pre = sep + "    "@;
        assert(pieces[i] == pre + variants[i] + ": ClassVar["@ + name + "]"@);
        assert(stub =~= head + flat + crate::enum_bridge::lookup_stub(name));
        let off = variant_offset(name, variants, i);
        assert(off == head.len() + po + pre.len());
        assert(stub.subrange(off, off + variants[i].len()) =~= variants[i]) by {
            assert forall|k: int| 0 <= k < variants[i].len() implies stub[off + k] == variants[i][k] by {
                assert(stub[off + k] == flat[po + pre.len() + k]);
                assert(flat.subrange(po, po + pieces[i].len())[pre.len() + k] == pieces[i][pre.len()
                    + k]);
            }
        }
        if i < variants.len() - 1 {
            lemma_piece_in_flatten(pieces, i + 1);
        }
    }
}

/// Where field `i`'s name starts in the stub class of a struct.
pub open spec fn field_offset(name: Seq<char>, fields: Seq<crate::schema::FieldDecl>, i: int) -> int {
    ("class "@ + name + ":\n"@).len() + piece_offset(stub_field_lines(fields), i) + 4
}

/// The stub class of a struct lists every field name, in declaration order.
pub proof fn lemma_struct_stub_lists_fields(name: Seq<char>, fields: Seq<crate::schema::FieldDecl>)
    ensures
        forall|i: int|
            0 <= i < fields.len() ==> struct_stub_text(name, fields).subrange(
                field_offset(name, fields, i),
                field_offset(name, fields, i) + field_names(fields)[i].len(),
            ) == #[trigger] field_names(fields)[i],
        forall|i: int|
            0 <= i < fields.len() - 1 ==> field_offset(name, fields, i) + field_names(fields)[i].len()
                < #[trigger] field_offset(name, fields, i + 1),
{
    reveal_strlit("    ");
    let lines = stub_field_lines(fields);
    let names = field_names(fields);
    let head = "class "@ + name + ":\n"@;
    let stub = struct_stub_text(name, fields);
    assert forall|i: int| 0 <= i < fields.len() implies stub.subrange(
        field_offset(name, fields, i),
        field_offset(name, fields, i) + names[i].len(),
    ) == #[trigger] names[i] && (i < fields.len() - 1 ==> field_offset(name, fields, i)
        + names[i].len() < field_offset(name, fields, i + 1)) by {
        lemma_piece_in_flatten(lines, i);
        let flat = lines.flatten();
        let po = piece_offset(lines, i);
        assert(lines[i] == "    "@ + names[i] + ": "@ + field_types(fields)[i] + "\n"@);
        assert(stub =~= head + flat);
        let off = field_offset(name, fields, i);
        assert(stub.subrange(off, off + names[i].len()) =~= names[i]) by {
            assert forall|k: int| 0 <= k < names[i].len() implies stub[off + k] == names[i][k] by {
                assert(stub[off + k] == flat[po + 4 + k]);
                assert(flat.subrange(po, po + lines[i].len())[4 + k] == lines[i][4 + k]);
            }
        }
        if i < fields.len() - 1 {
            lemma_piece_in_flatten(lines, i + 1);
        }
    }
}

/// Two enum declarations that read the same: the same name and the same
/// variant names in the same order.
pub open spec fn same_enum_text(a: EnumDecl, b: EnumDecl) -> bool {
    a.name@ == b.name@ && a.variant_names() == b.variant_names()
}

/// A file of enum bindings depends on the declarations' text alone: two
/// runs on unchanged declarations write the same file.
pub proof fn lemma_enum_file_deterministic(enum_path: Seq<char>, a: Seq<EnumDecl>, b: Seq<EnumDecl>)
    requires
        a.len() == b.len(),
        forall|i: int| 0 <= i < a.len() ==> same_enum_text(#[trigger] a[i], b[i]),
    ensures
        enum_file_text(enum_path, a) == enum_file_text(enum_path, b),
{
    let repr = crate::enum_bridge::python_path(enum_path);
    let sa = Seq::new(
        a.len(),
        |e: int| crate::enum_bridge::enum_section_text(enum_path, repr, a[e]),
    );
    let sb = Seq::new(
        b.len(),
        |e: int| crate::enum_bridge::enum_section_text(enum_path, repr, b[e]),
    );
    assert forall|e: int| 0 <= e < a.len() implies sa[e] == sb[e] by {
        assert(same_enum_text(a[e], b[e]));
    }
    assert(sa =~= sb);
}

/// Two struct declarations that read the same: the same name, the same
/// `map` path, and the same shape with the same fields in the same order.
pub open spec fn same_decl_text(a: TypeDecl, b: TypeDecl) -> bool {
    &&& a.name@ == b.name@
    &&& match (a.map_type, b.map_type) {
        (Some(x), Some(y)) => x@ == y@,
        (None, None) => true,
        _ => false,
    }
    &&& match (a.body, b.body) {
        (DeclBody::NamedFields(x), DeclBody::NamedFields(y)) => field_names(x@) == field_names(y@)
            && field_types(x@) == field_types(y@),
        (DeclBody::Unsupported, DeclBody::Unsupported) => true,
        _ => false,
    }
}

/// The derived impls depend on the declaration's text alone: two runs on
/// an unchanged declaration give the same code, or the same error.
pub proof fn lemma_derive_deterministic(a: TypeDecl, b: TypeDecl)
    requires
        same_decl_text(a, b),
    ensures
        pyi_derive_result(a) == pyi_derive_result(b),
        map_py_derive_result(a) == map_py_derive_result(b),
{
    match (a.body, b.body) {
        (DeclBody::NamedFields(x), DeclBody::NamedFields(y)) => {
            assert(crate::derive::quoted_fields(x@) =~= crate::derive::quoted_fields(y@));
        },
        _ => {},
    }
}

} // verus!
