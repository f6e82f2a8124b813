//! Facts about text assembled from ordered pieces.
use vstd::prelude::*;

verus! {

/// Where piece `i` of `pieces` starts in `pieces.flatten()`.
pub open spec fn piece_offset(pieces: Seq<Seq<char>>, i: int) -> int {
    pieces.take(i).flatten().len() as int
}

/// Each piece stands, unchanged, at its offset in the flattened text, and
/// the pieces follow one another in order.
pub proof fn lemma_piece_in_flatten(pieces: Seq<Seq<char>>, i: int)
    requires
        0 <= i < pieces.len(),
    ensures
        piece_offset(pieces, i) + pieces[i].len() == piece_offset(pieces, i + 1),
        piece_offset(pieces, i + 1) <= pieces.flatten().len(),
        pieces.flatten().subrange(
            piece_offset(pieces, i),
            piece_offset(pieces, i) + pieces[i].len(),
        ) == pieces[i],
{
    let head = pieces.take(i);
    let tail = pieces.skip(i + 1);
    let one = seq![pieces[i]];
    assert(pieces.take(i + 1) =~= head + one);
    assert(pieces =~= (head + one) + tail);
    vstd::seq_lib::lemma_flatten_concat(head, one);
    vstd::seq_lib::lemma_flatten_concat(head + one, tail);
    one.lemma_flatten_singleton();
    let whole = pieces.flatten();
    let off = head.flatten().len() as int;
    assert(whole =~= head.flatten() + pieces[i] + tail.flatten());
    assert(whole.subrange(off, off + pieces[i].len()) =~= pieces[i]);
}

/// What `str::to_lowercase` gives for a text.
pub uninterp spec fn lower_of(s: Seq<char>) -> Seq<char>;

/// Relies on `str::to_lowercase`: the result depends on the characters alone.
#[verifier::external_body]
pub(crate) fn to_lower(s: &str) -> (r: String)
    ensures
        r@ == lower_of(s@),
{
    s.to_lowercase()
}

/// What the `Debug` format of a `str` gives: the text quoted and escaped as a
/// Rust string literal.
pub uninterp spec fn debug_of(s: Seq<char>) -> Seq<char>;

/// Relies on `<str as Debug>::fmt`: the result depends on the characters alone.
#[verifier::external_body]
pub(crate) fn debug_quote(s: &str) -> (r: String)
    ensures
        r@ == debug_of(s@),
{
    format!("{:?}", s)
}

/// What `str::replace` gives for a text, a pattern and its replacement.
pub uninterp spec fn replace_of(s: Seq<char>, from: Seq<char>, to: Seq<char>) -> Seq<char>;

/// Relies on `str::replace`: the result depends on the three texts alone.
#[verifier::external_body]
pub(crate) fn replace_all(s: &str, from: &str, to: &str) -> (r: String)
    ensures
        r@ == replace_of(s@, from@, to@),
{
    s.replace(from, to)
}

} // verus!
