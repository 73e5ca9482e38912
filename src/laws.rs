use crate::pad::{clamped, cycled, graphemes_of, padded, row_too_large, row_value, MAX_LENGTH};
use vstd::prelude::*;

verus! {

/// A row with a null source, length or fill is null, and never fails the
/// range check.
pub proof fn lemma_null_row_is_null(
    source: Option<Seq<char>>,
    length: Option<i64>,
    fill: Option<Seq<char>>,
)
    requires
        source is None || length is None || fill is None,
    ensures
        row_value(source, length, fill) is None,
        !row_too_large(source, length, fill),
{
}

/// A length of zero or less gives the empty string, whatever the source and
/// the fill.
pub proof fn lemma_nonpositive_length_is_empty(source: Seq<char>, length: i64, fill: Seq<char>)
    requires
        length <= 0,
    ensures
        padded(source, length, fill) == Seq::<char>::empty(),
{
}

/// A length up to the grapheme count of the source keeps exactly the first
/// `length` graphemes of the source, whatever the fill.
/// (The requirement holds of every string: `graphemes` ensures it.)
pub proof fn lemma_short_length_truncates(source: Seq<char>, length: i64, fill: Seq<char>)
    requires
        graphemes_of(source).flatten() == source,
        clamped(length) <= graphemes_of(source).len(),
    ensures
        padded(source, length, fill) == graphemes_of(source).take(clamped(length) as int).flatten(),
{
    let g = graphemes_of(source);
    if clamped(length) == g.len() {
        assert(g.take(g.len() as int) =~= g);
        if fill.len() > 0 {
            assert(source + cycled(fill, 0) =~= source);
        }
    }
}

/// With a single space as fill (the default), a length beyond the grapheme
/// count of the source appends exactly `length - count` spaces.
pub proof fn lemma_space_fill_appends_spaces(source: Seq<char>, length: i64)
    requires
        clamped(length) > graphemes_of(source).len(),
    ensures
        " "@ == seq![' '],
        padded(source, length, " "@) == source + Seq::new(
            (clamped(length) - graphemes_of(source).len()) as nat,
            |i: int| ' ',
        ),
{
    reveal_strlit(" ");
    let k = (clamped(length) - graphemes_of(source).len()) as nat;
    assert(cycled(" "@, k) =~= Seq::new(k, |i: int| ' '));
}

/// With a non-empty fill and a length of at least the grapheme count of the
/// source, the source is kept whole and followed by the fill's characters,
/// cycled, one for each grapheme missing: the source's graphemes and the
/// added characters number `length` together.
/// (The requirement holds of every string: `graphemes` ensures it.)
pub proof fn lemma_fill_is_cycled(source: Seq<char>, length: i64, fill: Seq<char>)
    requires
        graphemes_of(source).flatten() == source,
        fill.len() > 0,
        clamped(length) >= graphemes_of(source).len(),
    ensures
        padded(source, length, fill) == source + cycled(
            fill,
            (clamped(length) - graphemes_of(source).len()) as nat,
        ),
        graphemes_of(source).len() + (padded(source, length, fill).len() - source.len())
            == clamped(length),
        forall|i: int|
            0 <= i < clamped(length) - graphemes_of(source).len() ==> padded(
                source,
                length,
                fill,
            )[source.len() + i] == #[trigger] fill[i % (fill.len() as int)],
{
    let g = graphemes_of(source);
    if clamped(length) == 0 {
        assert(g =~= Seq::<Seq<char>>::empty());
        assert(source + cycled(fill, 0) =~= Seq::<char>::empty());
    }
}

/// An empty fill leaves a source of at most `length` graphemes unchanged.
/// (The requirement holds of every string: `graphemes` ensures it.)
pub proof fn lemma_empty_fill_keeps_source(source: Seq<char>, length: i64)
    requires
        graphemes_of(source).flatten() == source,
        clamped(length) >= graphemes_of(source).len(),
    ensures
        padded(source, length, Seq::<char>::empty()) == source,
{
    if clamped(length) == 0 {
        assert(graphemes_of(source) =~= Seq::<Seq<char>>::empty());
    }
}

/// A length above `MAX_LENGTH` fails the range check in every row whose
/// source and fill are present, whatever they hold.
pub proof fn lemma_length_over_limit_fails(source: Seq<char>, length: i64, fill: Seq<char>)
    requires
        length > MAX_LENGTH,
    ensures
        row_too_large(Some(source), Some(length), Some(fill)),
{
}

} // verus!
