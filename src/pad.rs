use unicode_segmentation::UnicodeSegmentation;
use vstd::prelude::*;

verus! {

/// The extended grapheme clusters of a string, in order.
pub uninterp spec fn graphemes_of(s: Seq<char>) -> Seq<Seq<char>>;

/// Relies on `UnicodeSegmentation::graphemes(s, true)`: it yields consecutive
/// slices of `s`, from one cluster boundary to the next, that together make
/// up the whole string.
#[verifier::external_body]
fn graphemes<'a>(s: &'a str) -> (r: Vec<&'a str>)
    ensures
        r@.map_values(|g: &str| g@) == graphemes_of(s@),
        r@.map_values(|g: &str| g@).flatten() == s@,
{
    s.graphemes(true).collect()
}

/// Relies on `String::push`: appends one character.
#[verifier::external_body]
fn push_char(s: &mut String, c: char)
    ensures
        final(s)@ == old(s)@.push(c),
{
    s.push(c)
}

/// The largest length that may be requested.
pub const MAX_LENGTH: i64 = 2147483647;

/// A requested length with negative values read as zero.
pub open spec fn clamped(length: i64) -> nat {
    if length < 0 {
        0
    } else {
        length as nat
    }
}

/// `count` characters taken from `fill` round-robin, starting at its first.
pub open spec fn cycled(fill: Seq<char>, count: nat) -> Seq<char>
    recommends
        fill.len() > 0,
{
    Seq::new(count, |i: int| fill[i % (fill.len() as int)])
}

/// The value that right padding gives for a non-null source split into the
/// graphemes `g`, a length and a fill: at most `length` graphemes are kept,
/// and a source shorter than that is extended with the characters of `fill`,
/// cycled.
pub open spec fn padded_with(
    source: Seq<char>,
    g: Seq<Seq<char>>,
    length: i64,
    fill: Seq<char>,
) -> Seq<char> {
    let n = clamped(length);
    if n == 0 {
        Seq::empty()
    } else if n < g.len() {
        g.take(n as int).flatten()
    } else if fill.len() == 0 {
        source
    } else {
        source + cycled(fill, (n - g.len()) as nat)
    }
}

/// The value that right padding gives for a non-null source, length and fill.
pub open spec fn padded(source: Seq<char>, length: i64, fill: Seq<char>) -> Seq<char> {
    padded_with(source, graphemes_of(source), length, fill)
}

/// Right-pads (or truncates) a non-null `source` to `length` graphemes,
/// using the characters of `fill` as padding.
pub fn pad_str(source: &str, length: i64, fill: &str) -> (r: String)
    requires
        length <= MAX_LENGTH,
    ensures
        r@ == padded(source@, length, fill@),
{
    if length <= 0 {
        return String::new();
    }
    let g = graphemes(source);
    pad_segmented(source, &g, length, fill)
}

/// Right-pads (or truncates) `source`, given as the graphemes `g`, to
/// `length` graphemes, using the characters of `fill` as padding.
pub fn pad_segmented(source: &str, g: &Vec<&str>, length: i64, fill: &str) -> (r: String)
    requires
        length <= MAX_LENGTH,
    ensures
        r@ == padded_with(source@, g@.map_values(|x: &str| x@), length, fill@),
{
    let n: usize = if length < 0 {
        0
    } else {
        length as usize
    };
    if n == 0 {
        return String::new();
    }
    let ghost gs = g@.map_values(|x: &str| x@);
    if n < g.len() {
        let mut out = String::new();
        let mut i: usize = 0;
        while i < n
            invariant
                i <= n,
                n < g@.len(),
                gs == g@.map_values(|x: &str| x@),
                out@ == gs.take(i as int).flatten(),
            decreases n - i,
        {
            proof {
                assert(gs.take(i + 1) =~= gs.take(i as int).push(gs[i as int]));
                gs.take(i as int).lemma_flatten_push(gs[i as int]);
            }
            out.append(g[i]);
            i = i + 1;
        }
        out
    } else {
        let mut out = String::from_str(source);
        let fill_chars = chars_of(fill);
        if fill_chars.len() == 0 {
            return out;
        }
        let k: usize = n - g.len();
        let mut i: usize = 0;
        while i < k
            invariant
                i <= k,
                fill_chars@ == fill@,
                fill_chars@.len() > 0,
                out@ == source@ + cycled(fill@, i as nat),
            decreases k - i,
        {
            let c = fill_chars[i % fill_chars.len()];
            push_char(&mut out, c);
            proof {
                assert(source@ + cycled(fill@, (i + 1) as nat) =~= (source@ + cycled(
                    fill@,
                    i as nat,
                )).push(c));
            }
            i = i + 1;
        }
        out
    }
}

/// The characters of `s`, in order.
pub fn chars_of(s: &str) -> (r: Vec<char>)
    ensures
        r@ == s@,
{
    let mut r: Vec<char> = Vec::new();
    for c in it: s.chars()
        invariant
            r@ == it.seq().take(it.index() as int),
    {
        r.push(c);
    }
    r
}

} // verus!
verus! {

/// Why a padding call failed.
#[derive(Debug)]
pub enum RpadError {
    /// The call had neither two nor three arguments; holds the count given.
    UnsupportedArity(usize),
    /// The argument types match no accepted combination; holds the type
    /// name of each argument.
    UnsupportedInput(Vec<String>),
    /// A non-null row asked for more than `MAX_LENGTH`; holds that length.
    RequestedLengthTooLarge(i64),
}

/// Whether a row fails the range check: all of its values are present and
/// the length is above `MAX_LENGTH`.
pub open spec fn row_too_large(
    source: Option<Seq<char>>,
    length: Option<i64>,
    fill: Option<Seq<char>>,
) -> bool {
    &&& source is Some
    &&& fill is Some
    &&& length matches Some(n) && n > MAX_LENGTH
}

/// The value of a row: null when any of its values is null, else the padded
/// source.
pub open spec fn row_value(
    source: Option<Seq<char>>,
    length: Option<i64>,
    fill: Option<Seq<char>>,
) -> Option<Seq<char>> {
    match (source, length, fill) {
        (Some(s), Some(n), Some(f)) => Some(padded(s, n, f)),
        _ => None,
    }
}

/// The characters of an optional string slice.
pub open spec fn opt_str(o: Option<&str>) -> Option<Seq<char>> {
    match o {
        Some(s) => Some(s@),
        None => None,
    }
}

/// The characters of an optional string.
pub open spec fn opt_text(o: Option<String>) -> Option<Seq<char>> {
    match o {
        Some(s) => Some(s@),
        None => None,
    }
}

/// Pads one row. In the two-argument form the caller passes `Some(" ")` as
/// the fill.
pub fn pad_row(source: Option<&str>, length: Option<i64>, fill: Option<&str>) -> (r: Result<
    Option<String>,
    RpadError,
>)
    ensures
        r is Err <==> row_too_large(opt_str(source), length, opt_str(fill)),
        r matches Err(e) ==> e == RpadError::RequestedLengthTooLarge(length->0),
        r matches Ok(v) ==> opt_text(v) == row_value(opt_str(source), length, opt_str(fill)),
{
    match (source, length, fill) {
        (Some(s), Some(n), Some(f)) => {
            if n > MAX_LENGTH {
                Err(RpadError::RequestedLengthTooLarge(n))
            } else {
                Ok(Some(pad_str(s, n, f)))
            }
        },
        _ => Ok(None),
    }
}

} // verus!
