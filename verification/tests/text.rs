use cerebro::text::{
    concat_str, decimal_len, i64_to_string, relative_time_at, strip_scheme, trim_str, truncate,
    u64_to_string, word_wrap,
};

#[test]
fn decimal_rendering() {
    assert_eq!(u64_to_string(0), "0");
    assert_eq!(u64_to_string(42), "42");
    assert_eq!(u64_to_string(u64::MAX), "18446744073709551615");
    assert_eq!(i64_to_string(-10004), "-10004");
    assert_eq!(i64_to_string(i64::MIN), "-9223372036854775808");
    assert_eq!(decimal_len(999), 3);
    assert_eq!(decimal_len(1000), 4);
}

#[test]
fn trim_removes_unicode_whitespace() {
    let t: String = trim_str("  \t aapl \u{3000}\n").into_iter().collect();
    assert_eq!(t, "aapl");
    let empty: String = trim_str(" \n ").into_iter().collect();
    assert_eq!(empty, "");
}

#[test]
fn truncate_fits_unchanged() {
    assert_eq!(truncate("short", 10), "short");
    assert_eq!(truncate("exact", 5), "exact");
}

#[test]
fn truncate_cuts_with_ellipsis() {
    assert_eq!(truncate("hello world", 8), "hello w\u{2026}");
    // Trailing whitespace before the cut is removed.
    assert_eq!(truncate("hello world", 7), "hello\u{2026}");
    assert_eq!(truncate("abc", 1), "\u{2026}");
    assert_eq!(truncate("abc", 0), "\u{2026}");
    assert_eq!(truncate("h\u{e9}llo w\u{f6}rld", 6), "h\u{e9}llo\u{2026}");
}

#[test]
fn truncate_never_exceeds_width() {
    for max in 1..12 {
        let t = truncate("The quick brown fox", max);
        assert!(t.chars().count() <= max);
    }
}

#[test]
fn strip_scheme_examples() {
    assert_eq!(strip_scheme("https://example.com/a"), "example.com/a");
    assert_eq!(strip_scheme("http://example.com"), "example.com");
    assert_eq!(strip_scheme("https://https://x"), "x");
    assert_eq!(strip_scheme("http://https://x"), "https://x");
    assert_eq!(strip_scheme("ftp://x"), "ftp://x");
    assert_eq!(strip_scheme(""), "");
}

#[test]
fn relative_time_units() {
    assert_eq!(relative_time_at(1000, 1000), "0s ago");
    assert_eq!(relative_time_at(1059, 1000), "59s ago");
    assert_eq!(relative_time_at(1060, 1000), "1m ago");
    assert_eq!(relative_time_at(1000 + 3599, 1000), "59m ago");
    assert_eq!(relative_time_at(1000 + 3600, 1000), "1h ago");
    assert_eq!(relative_time_at(1000 + 86399, 1000), "23h ago");
    assert_eq!(relative_time_at(1000 + 86400 * 3, 1000), "3d ago");
    // Events in the future read as just now.
    assert_eq!(relative_time_at(1000, 5000), "0s ago");
    assert_eq!(relative_time_at(i64::MAX, i64::MIN), format!("{}d ago", u64::MAX / 86400));
}

#[test]
fn word_wrap_greedy() {
    assert_eq!(
        word_wrap("the quick brown fox jumps", 10),
        vec!["the quick", "brown fox", "jumps"]
    );
    assert_eq!(word_wrap("  a   b  ", 10), vec!["a b"]);
    assert_eq!(word_wrap("", 10), Vec::<String>::new());
    assert_eq!(word_wrap("   ", 5), Vec::<String>::new());
}

#[test]
fn word_wrap_long_word_alone() {
    assert_eq!(
        word_wrap("a supercalifragilistic b", 5),
        vec!["a", "supercalifragilistic", "b"]
    );
}

#[test]
fn word_wrap_counts_bytes() {
    // "é" takes two bytes: "é é" is 5 bytes, over a width of 4.
    assert_eq!(word_wrap("\u{e9} \u{e9}", 4), vec!["\u{e9}", "\u{e9}"]);
    assert_eq!(word_wrap("\u{e9} \u{e9}", 5), vec!["\u{e9} \u{e9}"]);
}

#[test]
fn word_wrap_zero_width_keeps_text() {
    assert_eq!(word_wrap("  keep  as is ", 0), vec!["  keep  as is "]);
}

#[test]
fn word_wrap_splits_on_unicode_whitespace() {
    assert_eq!(word_wrap("a\u{3000}b\tc\nd", 80), vec!["a b c d"]);
}

#[test]
fn word_wrap_rejoins_to_words() {
    let text = "Lorem ipsum dolor sit amet, consectetur adipiscing elit, sed do eiusmod";
    for width in 1..30 {
        let lines = word_wrap(text, width);
        let rejoined = lines.join(" ");
        let words: Vec<&str> = text.split_whitespace().collect();
        assert_eq!(rejoined, words.join(" "));
        for line in &lines {
            assert!(line.len() <= width || !line.contains(' '));
        }
    }
}

#[test]
fn concat_joins() {
    assert_eq!(concat_str("ab", "cd"), "abcd");
}
