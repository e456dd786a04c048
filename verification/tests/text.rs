use bbb_provision::decimal::{decimal_string, parse_u64};
use bbb_provision::text::{
    char_is_space, chars_of, same_text, split, split_lines, split_whitespace, trim, Separator,
};

#[test]
fn whitespace_is_the_unicode_set() {
    for c in [' ', '\t', '\n', '\r', '\u{0B}', '\u{0C}', '\u{85}', '\u{A0}', '\u{1680}', '\u{2000}',
        '\u{200A}', '\u{2028}', '\u{2029}', '\u{202F}', '\u{205F}', '\u{3000}']
    {
        assert!(char_is_space(c), "{:?}", c);
    }
    for c in ['a', '0', '/', '\u{08}', '\u{0E}', '\u{200B}', '\u{FEFF}', '\u{1F}'] {
        assert!(!char_is_space(c), "{:?}", c);
    }
}

#[test]
fn whitespace_agrees_with_the_standard_library() {
    let mut n: u32 = 0;
    while n <= 0x3100 {
        if let Some(c) = char::from_u32(n) {
            assert_eq!(char_is_space(c), c.is_whitespace(), "{:#x}", n);
        }
        n += 1;
    }
}

#[test]
fn chars_of_keeps_order() {
    assert_eq!(chars_of("sdb1"), vec!['s', 'd', 'b', '1']);
    assert_eq!(chars_of(""), Vec::<char>::new());
    assert_eq!(chars_of("é/ß"), vec!['é', '/', 'ß']);
}

#[test]
fn trim_cuts_both_ends_only() {
    assert_eq!(trim("  drive1 \n"), "drive1");
    assert_eq!(trim("\t a b \r\n"), "a b");
    assert_eq!(trim("plain"), "plain");
    assert_eq!(trim(""), "");
    assert_eq!(trim(" \n\t "), "");
    assert_eq!(trim("\u{3000}é \u{A0}"), "é");
}

#[test]
fn split_whitespace_yields_words_in_order() {
    assert_eq!(split_whitespace("sda\nsdb\nmmcblk0\n"), vec!["sda", "sdb", "mmcblk0"]);
    assert_eq!(split_whitespace("  a   b\t\tc  "), vec!["a", "b", "c"]);
    assert_eq!(split_whitespace(""), Vec::<String>::new());
    assert_eq!(split_whitespace(" \n \t"), Vec::<String>::new());
    assert_eq!(split_whitespace("one"), vec!["one"]);
}

#[test]
fn split_lines_drops_empty_lines_and_keeps_inner_spaces() {
    assert_eq!(split_lines("\n/boot/efi\n\n/mnt/my disk\n"), vec!["/boot/efi", "/mnt/my disk"]);
    assert_eq!(split_lines("last line without feed"), vec!["last line without feed"]);
    assert_eq!(split_lines("\n\n"), Vec::<String>::new());
    assert_eq!(split_lines(" \n"), vec![" "]);
}

#[test]
fn split_by_either_separator() {
    assert_eq!(split("a b\nc", Separator::Whitespace), vec!["a", "b", "c"]);
    assert_eq!(split("a b\nc", Separator::LineFeed), vec!["a b", "c"]);
    assert!(Separator::LineFeed.is_separator('\n'));
    assert!(!Separator::LineFeed.is_separator(' '));
    assert!(Separator::Whitespace.is_separator(' '));
}

#[test]
fn same_text_is_exact() {
    assert!(same_text("root", "root"));
    assert!(!same_text("root", "Root"));
    assert!(!same_text("root", "root "));
    assert!(same_text("", ""));
}

#[test]
fn parse_u64_reads_plain_decimals() {
    assert_eq!(parse_u64("0"), Some(0));
    assert_eq!(parse_u64("16000000000"), Some(16_000_000_000));
    assert_eq!(parse_u64("007"), Some(7));
    assert_eq!(parse_u64("+5"), Some(5));
    assert_eq!(parse_u64("18446744073709551615"), Some(u64::MAX));
}

#[test]
fn parse_u64_rejects_everything_else() {
    assert_eq!(parse_u64(""), None);
    assert_eq!(parse_u64("+"), None);
    assert_eq!(parse_u64("-1"), None);
    assert_eq!(parse_u64("12a"), None);
    assert_eq!(parse_u64(" 12"), None);
    assert_eq!(parse_u64("12 "), None);
    assert_eq!(parse_u64("1.5"), None);
    assert_eq!(parse_u64("++1"), None);
    assert_eq!(parse_u64("18446744073709551616"), None);
    assert_eq!(parse_u64("99999999999999999999999"), None);
    assert_eq!(parse_u64("١٢"), None);
}

#[test]
fn parse_u64_agrees_with_the_standard_library() {
    for s in ["", "+", "-", "0", "+0", "-0", "1", "42", "0042", "4 2", "18446744073709551615",
        "18446744073709551616", "1844674407370955161", "x", "1x", "+-1"]
    {
        assert_eq!(parse_u64(s), s.parse::<u64>().ok(), "{:?}", s);
    }
}

#[test]
fn decimal_string_writes_canonical_numerals() {
    assert_eq!(decimal_string(0), "0");
    assert_eq!(decimal_string(7), "7");
    assert_eq!(decimal_string(10), "10");
    assert_eq!(decimal_string(128), "128");
    assert_eq!(decimal_string(384), "384");
    assert_eq!(decimal_string(1_000_000), "1000000");
    assert_eq!(decimal_string(u64::MAX), "18446744073709551615");
}

#[test]
fn decimal_round_trips() {
    for n in [0u64, 1, 9, 10, 11, 99, 100, 101, 65535, 4294967296, u64::MAX - 1, u64::MAX] {
        assert_eq!(parse_u64(decimal_string(n).as_str()), Some(n));
    }
}
