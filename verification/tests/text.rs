use chat_relay::text::{
    chars_of, parse_i64, parse_usize, render_number, same_text, split_at_each, split_words,
    strip_prefix, trim,
};

#[test]
fn chars_are_read_in_order() {
    assert_eq!(chars_of("aß字"), vec!['a', 'ß', '字']);
    assert!(chars_of("").is_empty());
}

#[test]
fn same_text_compares_contents() {
    assert!(same_text("abc", "abc"));
    assert!(!same_text("abc", "abd"));
    assert!(!same_text("abc", "ab"));
    assert!(same_text("", ""));
}

#[test]
fn parse_usize_reads_numerals() {
    assert_eq!(parse_usize("0"), Some(0));
    assert_eq!(parse_usize("5"), Some(5));
    assert_eq!(parse_usize("007"), Some(7));
    assert_eq!(parse_usize("+12"), Some(12));
    assert_eq!(parse_usize("18446744073709551615"), Some(usize::MAX));
}

#[test]
fn parse_usize_rejects_everything_else() {
    for text in [
        "", "+", "-", "-1", "-0", "++1", "1 ", " 1", "1_000", "12a", "a", "1.5", "0x10", "１２",
        "18446744073709551616", "99999999999999999999999999",
    ] {
        assert_eq!(parse_usize(text), None, "{text:?}");
    }
}

#[test]
fn parse_usize_agrees_with_std() {
    for text in [
        "", "+", "-", "0", "+0", "-0", "1", "+1", "-1", "42", "0042", "4 2", "42\n",
        "18446744073709551615", "18446744073709551616", "+18446744073709551615", "٣", "1e3",
    ] {
        assert_eq!(parse_usize(text), text.parse::<usize>().ok(), "{text:?}");
    }
}

#[test]
fn parse_i64_reads_signed_numerals() {
    assert_eq!(parse_i64("0"), Some(0));
    assert_eq!(parse_i64("-0"), Some(0));
    assert_eq!(parse_i64("30"), Some(30));
    assert_eq!(parse_i64("+30"), Some(30));
    assert_eq!(parse_i64("-30"), Some(-30));
    assert_eq!(parse_i64("9223372036854775807"), Some(i64::MAX));
    assert_eq!(parse_i64("-9223372036854775808"), Some(i64::MIN));
}

#[test]
fn parse_i64_agrees_with_std() {
    for text in [
        "", "+", "-", "+-1", "--1", "0", "-0", "+0", "7", "-7", "+7", "007", "-007", " 7", "7 ",
        "7d", "9223372036854775807", "9223372036854775808", "-9223372036854775808",
        "-9223372036854775809", "18446744073709551616", "-18446744073709551616", "1_0",
    ] {
        assert_eq!(parse_i64(text), text.parse::<i64>().ok(), "{text:?}");
    }
}

#[test]
fn render_number_writes_base_ten() {
    assert_eq!(render_number(0), "0");
    assert_eq!(render_number(9), "9");
    assert_eq!(render_number(10), "10");
    assert_eq!(render_number(1234567890), "1234567890");
    assert_eq!(render_number(u64::MAX), "18446744073709551615");
}

#[test]
fn render_number_agrees_with_std_and_reads_back() {
    for n in [0u64, 1, 9, 10, 11, 99, 100, 101, 4096, 999_999, 1_000_000, u64::MAX - 1, u64::MAX] {
        assert_eq!(render_number(n), n.to_string());
        assert_eq!(parse_usize(&render_number(n)), Some(n as usize));
    }
}

#[test]
fn split_words_drops_the_space_between() {
    assert_eq!(split_words("!histsize 5"), vec!["!histsize", "5"]);
    assert_eq!(split_words("  a \t b\n\nc\r\x0cd  "), vec!["a", "b", "c", "d"]);
    assert_eq!(split_words("one"), vec!["one"]);
    assert!(split_words("").is_empty());
    assert!(split_words(" \t\r\n").is_empty());
}

#[test]
fn split_words_splits_at_ascii_space_only() {
    assert_eq!(split_words("a\u{a0}b c\u{3000}d"), vec!["a\u{a0}b", "c\u{3000}d"]);
    assert_eq!(split_words("a\u{b}b"), vec!["a\u{b}b"]);
}

#[test]
fn split_words_agrees_with_std() {
    for text in ["", " ", "a", " a", "a ", "a b", "a  b", "\ta\nb\r", "ひと  いちばん", "x\u{85}y z"] {
        let expected: Vec<String> = text.split_ascii_whitespace().map(str::to_owned).collect();
        assert_eq!(split_words(text), expected, "{text:?}");
    }
}

#[test]
fn split_at_each_keeps_empty_pieces() {
    assert_eq!(split_at_each("a,b,c", ','), vec!["a", "b", "c"]);
    assert_eq!(split_at_each("", ','), vec![""]);
    assert_eq!(split_at_each(",", ','), vec!["", ""]);
    assert_eq!(split_at_each("a,,b,", ','), vec!["a", "", "b", ""]);
    assert_eq!(split_at_each("no comma", ','), vec!["no comma"]);
}

#[test]
fn split_at_each_agrees_with_std() {
    for text in ["", ",", ",,", "a", "a,", ",a", "a,b", " a , b ", "ひと,いちばん"] {
        let expected: Vec<String> = text.split(",").map(str::to_owned).collect();
        assert_eq!(split_at_each(text, ','), expected, "{text:?}");
    }
}

#[test]
fn trim_cuts_white_space_off_both_ends() {
    assert_eq!(trim("  a b  "), "a b");
    assert_eq!(trim("\t\na\r\n"), "a");
    assert_eq!(trim("a"), "a");
    assert_eq!(trim(""), "");
    assert_eq!(trim("   "), "");
    assert_eq!(trim("\u{3000}ひと\u{a0}"), "ひと");
}

#[test]
fn trim_agrees_with_std() {
    for text in ["", " ", "a", " a", "a ", " a b ", "\u{2003}x\u{2028}", "_ a _", "\u{200b}a"] {
        assert_eq!(trim(text), text.trim(), "{text:?}");
    }
}

#[test]
fn strip_prefix_gives_the_rest() {
    assert_eq!(strip_prefix("!chat hello", "!chat "), Some("hello"));
    assert_eq!(strip_prefix("!chat_system be brief", "!chat_system "), Some("be brief"));
    assert_eq!(strip_prefix("!chat ", "!chat "), Some(""));
    assert_eq!(strip_prefix("anything", ""), Some("anything"));
    assert_eq!(strip_prefix("!chat ひと", "!chat "), Some("ひと"));
}

#[test]
fn strip_prefix_needs_the_whole_prefix() {
    assert_eq!(strip_prefix("!chat", "!chat "), None);
    assert_eq!(strip_prefix("!chathello", "!chat "), None);
    assert_eq!(strip_prefix("", "!chat "), None);
    assert_eq!(strip_prefix(" !chat hello", "!chat "), None);
}
