use crate::pad::{opt_str, opt_text, pad_row, row_too_large, row_value, RpadError};
use vstd::prelude::*;

verus! {

/// How a text column stores its values: 32-bit offsets, 64-bit offsets, or
/// inlined views. All three hold the same logical strings.
#[derive(Clone, Copy, PartialEq, Eq, Structural, Debug)]
pub enum TextKind {
    Utf8,
    LargeUtf8,
    Utf8View,
}

/// A column handed to the padding function: text of some storage kind,
/// 64-bit integers, or a column of a type this function does not take
/// (kept by its type name).
#[derive(Debug)]
pub enum Column {
    Text(TextKind, Vec<Option<String>>),
    Int64(Vec<Option<i64>>),
    Other(String),
}

/// The row count of a column, where it has rows that this function reads.
pub open spec fn row_count(c: Column) -> Option<nat> {
    match c {
        Column::Text(_, rows) => Some(rows.len() as nat),
        Column::Int64(rows) => Some(rows.len() as nat),
        Column::Other(_) => None,
    }
}

/// All columns with rows have the same number of them.
pub open spec fn rows_agree(args: Seq<Column>) -> bool {
    forall|i: int, j: int|
        0 <= i < args.len() && 0 <= j < args.len() && row_count(args[i]) is Some && row_count(
            args[j],
        ) is Some ==> row_count(args[i]) == row_count(args[j])
}

/// The name of a column's logical type.
pub open spec fn kind_name(c: Column) -> Seq<char> {
    match c {
        Column::Text(TextKind::Utf8, _) => "Utf8"@,
        Column::Text(TextKind::LargeUtf8, _) => "LargeUtf8"@,
        Column::Text(TextKind::Utf8View, _) => "Utf8View"@,
        Column::Int64(_) => "Int64"@,
        Column::Other(name) => name@,
    }
}

impl Column {
    /// The name of this column's logical type.
    pub fn kind_name(&self) -> (r: String)
        ensures
            r@ == kind_name(*self),
    {
        match self {
            Column::Text(TextKind::Utf8, _) => String::from_str("Utf8"),
            Column::Text(TextKind::LargeUtf8, _) => String::from_str("LargeUtf8"),
            Column::Text(TextKind::Utf8View, _) => String::from_str("Utf8View"),
            Column::Int64(_) => String::from_str("Int64"),
            Column::Other(name) => name.clone(),
        }
    }
}

/// The fill of row `i`: a single space when no fill column is given.
pub open spec fn fill_at(fill: Option<Seq<Option<String>>>, i: int) -> Option<Seq<char>> {
    match fill {
        None => Some(" "@),
        Some(f) => opt_text(f[i]),
    }
}

/// The rows of an optional fill column.
pub open spec fn fill_rows(fill: Option<&Vec<Option<String>>>) -> Option<Seq<Option<String>>> {
    match fill {
        None => None,
        Some(f) => Some(f@),
    }
}

/// Whether row `i` fails the range check.
pub open spec fn too_large_at(
    source: Seq<Option<String>>,
    lengths: Seq<Option<i64>>,
    fill: Option<Seq<Option<String>>>,
    i: int,
) -> bool {
    row_too_large(opt_text(source[i]), lengths[i], fill_at(fill, i))
}

/// The value of row `i`.
pub open spec fn value_at(
    source: Seq<Option<String>>,
    lengths: Seq<Option<i64>>,
    fill: Option<Seq<Option<String>>>,
    i: int,
) -> Option<Seq<char>> {
    row_value(opt_text(source[i]), lengths[i], fill_at(fill, i))
}

/// Pads every row of `source` to the length in the same row of `lengths`,
/// with the same row of `fill` (a single space when `fill` is `None`).
/// Stops at the first row that fails the range check and reports its length.
pub fn rpad_rows(
    source: &Vec<Option<String>>,
    lengths: &Vec<Option<i64>>,
    fill: Option<&Vec<Option<String>>>,
) -> (r: Result<Vec<Option<String>>, RpadError>)
    requires
        lengths.len() == source.len(),
        fill matches Some(f) ==> f.len() == source.len(),
    ensures
        r is Err <==> exists|j: int| 0 <= j < source.len() && too_large_at(source@, lengths@, fill_rows(fill), j),
        r matches Err(e) ==> exists|j: int|
            0 <= j < source.len() && too_large_at(source@, lengths@, fill_rows(fill), j) && e
                == RpadError::RequestedLengthTooLarge(lengths@[j]->0) && forall|k: int|
                0 <= k < j ==> !too_large_at(source@, lengths@, fill_rows(fill), k),
        r matches Ok(v) ==> v.len() == source.len() && forall|i: int|
            0 <= i < source.len() ==> opt_text(#[trigger] v@[i]) == value_at(
                source@,
                lengths@,
                fill_rows(fill),
                i,
            ),
{
    let mut out: Vec<Option<String>> = Vec::new();
    let mut i: usize = 0;
    while i < source.len()
        invariant
            i <= source.len(),
            lengths.len() == source.len(),
            fill matches Some(f) ==> f.len() == source.len(),
            out.len() == i,
            forall|k: int| 0 <= k < i ==> !too_large_at(source@, lengths@, fill_rows(fill), k),
            forall|k: int|
                0 <= k < i ==> opt_text(#[trigger] out@[k]) == value_at(
                    source@,
                    lengths@,
                    fill_rows(fill),
                    k,
                ),
        decreases source.len() - i,
    {
        let s: Option<&str> = match &source[i] {
            Some(s) => Some(s.as_str()),
            None => None,
        };
        let f: Option<&str> = match fill {
            None => Some(" "),
            Some(rows) => match &rows[i] {
                Some(t) => Some(t.as_str()),
                None => None,
            },
        };
        assert(opt_str(s) == opt_text(source@[i as int]));
        assert(opt_str(f) == fill_at(fill_rows(fill), i as int));
        match pad_row(s, lengths[i], f) {
            Ok(v) => {
                out.push(v);
            },
            Err(e) => {
                assert(too_large_at(source@, lengths@, fill_rows(fill), i as int));
                return Err(e);
            },
        }
        i = i + 1;
    }
    Ok(out)
}

} // verus!
verus! {

/// The storage kind of the result: 64-bit offsets when the source or the
/// fill uses them, 32-bit offsets otherwise (inlined views included).
pub open spec fn promoted(source: TextKind, fill: Option<TextKind>) -> TextKind {
    if source == TextKind::LargeUtf8 || fill == Some(TextKind::LargeUtf8) {
        TextKind::LargeUtf8
    } else {
        TextKind::Utf8
    }
}

/// Picks the result's storage kind from the kinds of the text arguments.
pub fn promote(source: TextKind, fill: Option<TextKind>) -> (r: TextKind)
    ensures
        r == promoted(source, fill),
{
    match (source, fill) {
        (TextKind::LargeUtf8, _) | (_, Some(TextKind::LargeUtf8)) => TextKind::LargeUtf8,
        _ => TextKind::Utf8,
    }
}

/// The arguments have one of the accepted type combinations: text and a
/// 64-bit integer, then optionally text again.
pub open spec fn args_supported(args: Seq<Column>) -> bool {
    &&& args.len() == 2 || args.len() == 3
    &&& args[0] is Text
    &&& args[1] is Int64
    &&& args.len() == 3 ==> args[2] is Text
}

/// The source rows of supported arguments.
pub open spec fn source_of(args: Seq<Column>) -> Seq<Option<String>> {
    match args[0] {
        Column::Text(_, rows) => rows@,
        _ => Seq::empty(),
    }
}

/// The length rows of supported arguments.
pub open spec fn lengths_of(args: Seq<Column>) -> Seq<Option<i64>> {
    match args[1] {
        Column::Int64(rows) => rows@,
        _ => Seq::empty(),
    }
}

/// The fill rows of supported arguments, if a fill column is given.
pub open spec fn fill_of(args: Seq<Column>) -> Option<Seq<Option<String>>> {
    if args.len() == 3 {
        match args[2] {
            Column::Text(_, rows) => Some(rows@),
            _ => None,
        }
    } else {
        None
    }
}

/// The storage kind of the result for supported arguments.
pub open spec fn output_kind(args: Seq<Column>) -> TextKind {
    let fill_kind = if args.len() == 3 {
        match args[2] {
            Column::Text(k, _) => Some(k),
            _ => None,
        }
    } else {
        None
    };
    match args[0] {
        Column::Text(k, _) => promoted(k, fill_kind),
        _ => TextKind::Utf8,
    }
}

/// The type names of all arguments, in order.
fn kind_names(args: &Vec<Column>) -> (r: Vec<String>)
    ensures
        r@.len() == args@.len(),
        forall|i: int| 0 <= i < args@.len() ==> (#[trigger] r@[i])@ == kind_name(args@[i]),
{
    let mut r: Vec<String> = Vec::new();
    let mut i: usize = 0;
    while i < args.len()
        invariant
            i <= args.len(),
            r@.len() == i,
            forall|k: int| 0 <= k < i ==> (#[trigger] r@[k])@ == kind_name(args@[k]),
        decreases args.len() - i,
    {
        r.push(args[i].kind_name());
        i = i + 1;
    }
    r
}

/// Right-pads the source column (first argument) to the lengths of the second
/// argument, with the characters of the optional third argument cycled (a
/// single space by default). Strings longer than the length are cut at a
/// grapheme boundary; a row with any null value gives null.
pub fn rpad(args: &Vec<Column>) -> (r: Result<Column, RpadError>)
    requires
        rows_agree(args@),
    ensures
        !(args.len() == 2 || args.len() == 3) ==> r == Err::<Column, RpadError>(
            RpadError::UnsupportedArity(args.len()),
        ),
        (args.len() == 2 || args.len() == 3) && !args_supported(args@) ==> (r matches Err(
            RpadError::UnsupportedInput(names),
        ) && names@.len() == args.len() && forall|i: int|
            0 <= i < args.len() ==> (#[trigger] names@[i])@ == kind_name(args@[i])),
        args_supported(args@) ==> (r is Err <==> exists|j: int|
            0 <= j < source_of(args@).len() && too_large_at(
                source_of(args@),
                lengths_of(args@),
                fill_of(args@),
                j,
            )),
        args_supported(args@) && r is Err ==> exists|j: int|
            0 <= j < source_of(args@).len() && too_large_at(
                source_of(args@),
                lengths_of(args@),
                fill_of(args@),
                j,
            ) && r == Err::<Column, RpadError>(
                RpadError::RequestedLengthTooLarge(lengths_of(args@)[j]->0),
            ) && forall|k: int|
                0 <= k < j ==> !too_large_at(source_of(args@), lengths_of(args@), fill_of(args@), k),
        r is Ok ==> args_supported(args@),
        r matches Ok(c) ==> (c matches Column::Text(k, rows) && k == output_kind(args@)
            && rows@.len() == source_of(args@).len() && forall|i: int|
            0 <= i < rows@.len() ==> opt_text(#[trigger] rows@[i]) == value_at(
                source_of(args@),
                lengths_of(args@),
                fill_of(args@),
                i,
            )),
{
    if args.len() != 2 && args.len() != 3 {
        return Err(RpadError::UnsupportedArity(args.len()));
    }
    let (fill, fill_kind): (Option<&Vec<Option<String>>>, Option<TextKind>) = if args.len() == 3 {
        match &args[2] {
            Column::Text(k, rows) => (Some(rows), Some(*k)),
            _ => {
                return Err(RpadError::UnsupportedInput(kind_names(args)));
            },
        }
    } else {
        (None, None)
    };
    match (&args[0], &args[1]) {
        (Column::Text(k, source), Column::Int64(lengths)) => {
            assert(row_count(args@[0]) == row_count(args@[1]));
            assert(args.len() == 3 ==> row_count(args@[0]) == row_count(args@[2]));
            let kind = promote(*k, fill_kind);
            match rpad_rows(source, lengths, fill) {
                Ok(rows) => Ok(Column::Text(kind, rows)),
                Err(e) => Err(e),
            }
        },
        _ => Err(RpadError::UnsupportedInput(kind_names(args))),
    }
}

} // verus!
