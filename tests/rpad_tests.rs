use rpad::column::{promote, rpad, rpad_rows, Column, TextKind};
use rpad::func::{ArgType, RPadFunc};
use rpad::pad::{chars_of, pad_row, pad_segmented, pad_str, RpadError, MAX_LENGTH};

fn text(kind: TextKind, v: Option<&str>) -> Column {
    Column::Text(kind, vec![v.map(|s| s.to_string())])
}

fn lengths_col(v: Option<i64>) -> Column {
    Column::Int64(vec![v])
}

fn one(args: Vec<Column>) -> Result<Option<String>, RpadError> {
    match rpad(&args)? {
        Column::Text(_, rows) => {
            assert_eq!(rows.len(), 1);
            Ok(rows[0].clone())
        }
        _ => panic!("result is not a text column"),
    }
}

fn two(s: Option<&str>, n: Option<i64>) -> Option<String> {
    one(vec![text(TextKind::Utf8, s), lengths_col(n)]).unwrap()
}

fn three(s: Option<&str>, n: Option<i64>, f: Option<&str>) -> Option<String> {
    one(vec![
        text(TextKind::Utf8, s),
        lengths_col(n),
        text(TextKind::Utf8, f),
    ])
    .unwrap()
}

#[test]
fn test_functions() {
    assert_eq!(two(Some("josé"), Some(5)), Some("josé ".to_string()));
    assert_eq!(two(Some("hi"), Some(5)), Some("hi   ".to_string()));
    assert_eq!(two(Some("hi"), Some(0)), Some("".to_string()));
    assert_eq!(two(Some("hi"), None), None);
    assert_eq!(two(None, Some(5)), None);
    assert_eq!(three(Some("hi"), Some(5), Some("xy")), Some("hixyx".to_string()));
    assert_eq!(
        three(Some("hi"), Some(21), Some("abcdef")),
        Some("hiabcdefabcdefabcdefa".to_string())
    );
    assert_eq!(three(Some("hi"), Some(5), Some(" ")), Some("hi   ".to_string()));
    assert_eq!(three(Some("hi"), Some(5), Some("")), Some("hi".to_string()));
    assert_eq!(three(None, Some(5), Some("xy")), None);
    assert_eq!(three(Some("hi"), None, Some("xy")), None);
    assert_eq!(three(Some("hi"), Some(5), None), None);
    assert_eq!(
        three(Some("josé"), Some(10), Some("xy")),
        Some("joséxyxyxy".to_string())
    );
    assert_eq!(
        three(Some("josé"), Some(10), Some("éñ")),
        Some("josééñéñéñ".to_string())
    );
}

#[test]
fn truncates_at_grapheme_boundaries() {
    // "e" followed by a combining acute accent is one grapheme of two chars.
    let s = "he\u{301}llo";
    assert_eq!(pad_str(s, 2, " "), "he\u{301}");
    assert_eq!(pad_str(s, 1, "xy"), "h");
    assert_eq!(pad_str("hello", 3, "xy"), "hel");
}

#[test]
fn pads_by_grapheme_count() {
    // Two graphemes, three chars: two fill characters make four graphemes.
    assert_eq!(pad_str("e\u{301}a", 4, "*"), "e\u{301}a**");
}

#[test]
fn fill_cycles_by_characters() {
    // The fill is cycled char by char, even through a combining mark.
    assert_eq!(pad_str("a", 4, "e\u{301}"), "ae\u{301}e");
}

#[test]
fn negative_length_gives_empty() {
    assert_eq!(two(Some("hi"), Some(-3)), Some("".to_string()));
    assert_eq!(three(Some("hi"), Some(-1), Some("xy")), Some("".to_string()));
    assert_eq!(three(Some(""), Some(0), Some("")), Some("".to_string()));
}

#[test]
fn length_equal_to_count_keeps_source() {
    assert_eq!(two(Some("josé"), Some(4)), Some("josé".to_string()));
    assert_eq!(three(Some("hi"), Some(2), Some("xy")), Some("hi".to_string()));
}

#[test]
fn empty_fill_keeps_source() {
    assert_eq!(three(Some("abc"), Some(10), Some("")), Some("abc".to_string()));
    assert_eq!(three(Some("abc"), Some(3), Some("")), Some("abc".to_string()));
}

#[test]
fn space_fill_appends_spaces() {
    let r = two(Some("ab"), Some(6)).unwrap();
    assert_eq!(r, "ab    ");
    assert_eq!(three(Some("ab"), Some(6), Some(" ")).unwrap(), r);
}

#[test]
fn padded_length_matches_request() {
    let r = three(Some("hello"), Some(12), Some("abc")).unwrap();
    assert_eq!(r.chars().count(), 12);
    assert_eq!(r, "helloabcabca");
}

#[test]
fn length_too_large_fails() {
    let e = one(vec![text(TextKind::Utf8, Some("hi")), lengths_col(Some(2147483648))]);
    assert!(matches!(e, Err(RpadError::RequestedLengthTooLarge(2147483648))));
    let e = one(vec![
        text(TextKind::Utf8, Some("")),
        lengths_col(Some(i64::MAX)),
        text(TextKind::Utf8, Some("")),
    ]);
    assert!(matches!(e, Err(RpadError::RequestedLengthTooLarge(v)) if v == i64::MAX));
}

#[test]
fn length_at_limit_is_checked_only_on_present_rows() {
    assert_eq!(MAX_LENGTH, 2147483647);
    assert_eq!(two(None, Some(2147483648)), None);
    assert_eq!(three(Some("hi"), Some(2147483648), None), None);
}

#[test]
fn first_too_large_row_is_reported() {
    let source = vec![Some("a".to_string()), Some("b".to_string()), Some("c".to_string())];
    let lengths = vec![Some(1), Some(3_000_000_000), Some(4_000_000_000)];
    let r = rpad_rows(&source, &lengths, None);
    assert!(matches!(r, Err(RpadError::RequestedLengthTooLarge(3_000_000_000))));
}

#[test]
fn rows_are_padded_independently() {
    let source = vec![Some("a".to_string()), None, Some("abcd".to_string()), Some("x".to_string())];
    let lengths = vec![Some(3), Some(3), Some(2), None];
    let fill = vec![Some("-".to_string()), Some("-".to_string()), Some("+".to_string()), Some("-".to_string())];
    let r = rpad_rows(&source, &lengths, Some(&fill)).unwrap();
    assert_eq!(
        r,
        vec![Some("a--".to_string()), None, Some("ab".to_string()), None]
    );
}

#[test]
fn empty_columns_give_empty_result() {
    let r = rpad(&vec![
        Column::Text(TextKind::Utf8View, vec![]),
        Column::Int64(vec![]),
    ])
    .unwrap();
    assert!(matches!(r, Column::Text(TextKind::Utf8, ref rows) if rows.is_empty()));
}

#[test]
fn pad_row_handles_nulls_and_limit() {
    assert!(matches!(pad_row(None, Some(3), Some(" ")), Ok(None)));
    assert!(matches!(pad_row(Some("a"), Some(3), None), Ok(None)));
    assert_eq!(pad_row(Some("a"), Some(3), Some("b")).ok().flatten(), Some("abb".to_string()));
    assert!(matches!(
        pad_row(Some("a"), Some(2147483648), Some("b")),
        Err(RpadError::RequestedLengthTooLarge(2147483648))
    ));
}

#[test]
fn wrong_arity_fails() {
    let e = rpad(&vec![text(TextKind::Utf8, Some("hi"))]);
    assert!(matches!(e, Err(RpadError::UnsupportedArity(1))));
    let e = rpad(&vec![
        text(TextKind::Utf8, Some("hi")),
        lengths_col(Some(1)),
        text(TextKind::Utf8, Some("x")),
        text(TextKind::Utf8, Some("y")),
    ]);
    assert!(matches!(e, Err(RpadError::UnsupportedArity(4))));
}

#[test]
fn wrong_types_fail() {
    let e = rpad(&vec![lengths_col(Some(1)), lengths_col(Some(1))]);
    match e {
        Err(RpadError::UnsupportedInput(names)) => assert_eq!(names, vec!["Int64", "Int64"]),
        _ => panic!("expected an unsupported input error"),
    }
    let e = rpad(&vec![
        text(TextKind::LargeUtf8, Some("hi")),
        lengths_col(Some(1)),
        Column::Other("Binary".to_string()),
    ]);
    match e {
        Err(RpadError::UnsupportedInput(names)) => {
            assert_eq!(names, vec!["LargeUtf8", "Int64", "Binary"])
        }
        _ => panic!("expected an unsupported input error"),
    }
}

#[test]
fn result_kind_follows_promotion() {
    let kinds = [TextKind::Utf8, TextKind::LargeUtf8, TextKind::Utf8View];
    for s in kinds {
        let r = rpad(&vec![text(s, Some("a")), lengths_col(Some(2))]).unwrap();
        let expected = if s == TextKind::LargeUtf8 { TextKind::LargeUtf8 } else { TextKind::Utf8 };
        assert!(matches!(r, Column::Text(k, _) if k == expected));
        for f in kinds {
            let r = rpad(&vec![text(s, Some("a")), lengths_col(Some(2)), text(f, Some("b"))]).unwrap();
            let wide = s == TextKind::LargeUtf8 || f == TextKind::LargeUtf8;
            let expected = if wide { TextKind::LargeUtf8 } else { TextKind::Utf8 };
            assert!(matches!(r, Column::Text(k, ref rows) if k == expected && rows[0].as_deref() == Some("ab")));
        }
    }
    assert_eq!(promote(TextKind::Utf8View, None), TextKind::Utf8);
    assert_eq!(promote(TextKind::Utf8View, Some(TextKind::LargeUtf8)), TextKind::LargeUtf8);
}

#[test]
fn signature_lists_each_combination_once() {
    let f = RPadFunc::new();
    assert_eq!(f.name(), "rpad");
    assert_eq!(f.signature.len(), 12);
    for i in 0..f.signature.len() {
        for j in 0..i {
            assert_ne!(f.signature[i], f.signature[j]);
        }
    }
    assert_eq!(
        f.signature[7],
        vec![ArgType::Text(TextKind::Utf8), ArgType::Int64, ArgType::Text(TextKind::LargeUtf8)]
    );
    assert_eq!(
        f.return_type(&vec![ArgType::Text(TextKind::Utf8), ArgType::Int64, ArgType::Text(TextKind::LargeUtf8)]),
        Some(TextKind::LargeUtf8)
    );
    assert_eq!(f.return_type(&vec![ArgType::Text(TextKind::Utf8View), ArgType::Int64]), Some(TextKind::Utf8));
    assert_eq!(f.return_type(&vec![ArgType::Int64, ArgType::Int64]), None);
    assert_eq!(f.return_type(&vec![ArgType::Text(TextKind::Utf8)]), None);
}

#[test]
fn chars_of_splits_into_code_points() {
    assert_eq!(chars_of("e\u{301}x"), vec!['e', '\u{301}', 'x']);
    assert_eq!(chars_of(""), Vec::<char>::new());
}

#[test]
fn column_kind_names() {
    assert_eq!(text(TextKind::Utf8View, None).kind_name(), "Utf8View");
    assert_eq!(lengths_col(None).kind_name(), "Int64");
}

#[test]
fn segmented_source_truncates_by_given_graphemes() {
    let g = vec!["jo", "s", "é"];
    assert_eq!(pad_segmented("josé", &g, 2, "xy"), "jos");
    assert_eq!(pad_segmented("josé", &g, 3, "xy"), "josé");
    assert_eq!(pad_segmented("josé", &g, 5, "xy"), "joséxy");
    assert_eq!(pad_segmented("josé", &g, 6, ""), "josé");
    assert_eq!(pad_segmented("josé", &g, 0, "xy"), "");
    assert_eq!(pad_segmented("josé", &g, -4, "xy"), "");
}
