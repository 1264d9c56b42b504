use d9s::text::{
    chars_of, clone_rows, decimal_string, drop_last_char, first_word_of, pad_right, repeat_char,
    split_marked, split_words, starts_with, str_eq, string_of, string_of_range, trim_chars,
    trim_marked, trim_matches, trim_start_matches, trim_str, whitespace_marks,
};

#[test]
fn chars_and_back() {
    assert_eq!(chars_of("héllo"), vec!['h', 'é', 'l', 'l', 'o']);
    assert_eq!(chars_of(""), Vec::<char>::new());
    assert_eq!(string_of(&vec!['a', 'ß', 'c']), "aßc");
    assert_eq!(string_of_range(&vec!['a', 'b', 'c', 'd'], 1, 3), "bc");
    assert_eq!(string_of_range(&vec!['a', 'b'], 2, 2), "");
}

#[test]
fn repeat_and_pad() {
    assert_eq!(repeat_char('-', 80), "-".repeat(80));
    assert_eq!(repeat_char('x', 0), "");
    assert_eq!(pad_right("abc", 6), "abc   ");
    assert_eq!(pad_right("abc", 3), "abc");
    assert_eq!(pad_right("abcdef", 3), "abcdef");
    assert_eq!(pad_right("", 2), "  ");
}

#[test]
fn padding_counts_characters_like_std() {
    for s in ["", "a", "default", "näme", "a-very-long-context-name"] {
        assert_eq!(pad_right(s, 15), format!("{:<15}", s));
        assert_eq!(pad_right(s, 0), format!("{:<0}", s));
    }
}

#[test]
fn decimal_strings() {
    assert_eq!(decimal_string(0), "0");
    assert_eq!(decimal_string(7), "7");
    assert_eq!(decimal_string(10), "10");
    assert_eq!(decimal_string(1234567890), "1234567890");
    assert_eq!(decimal_string(usize::MAX), usize::MAX.to_string());
}

#[test]
fn words_are_split_at_whitespace() {
    assert_eq!(split_words("a b  c"), vec!["a", "b", "c"]);
    assert_eq!(split_words("  lead and trail \t\n"), vec!["lead", "and", "trail"]);
    assert_eq!(split_words(""), Vec::<String>::new());
    assert_eq!(split_words(" \t "), Vec::<String>::new());
    assert_eq!(split_words("one"), vec!["one"]);
    // a no-break space and an ideographic space are whitespace too
    assert_eq!(split_words("a\u{a0}b\u{3000}c"), vec!["a", "b", "c"]);
}

#[test]
fn words_agree_with_std() {
    for s in ["", " ", "a", " a", "a ", "run-1 job  SUCCESS 1.0s -", "\ta\nb\r\nc  "] {
        let expected: Vec<String> = s.split_whitespace().map(|w| w.to_string()).collect();
        assert_eq!(split_words(s), expected);
    }
}

#[test]
fn first_words() {
    assert_eq!(first_word_of("abc123 etl SUCCESS"), "abc123");
    assert_eq!(first_word_of("   x"), "x");
    assert_eq!(first_word_of("   "), "");
    assert_eq!(first_word_of(""), "");
}

#[test]
fn trimming() {
    assert_eq!(trim_str("  a b  "), "a b");
    assert_eq!(trim_str("a"), "a");
    assert_eq!(trim_str("   "), "");
    assert_eq!(trim_str(""), "");
    assert_eq!(trim_str("\t\nx\u{a0}"), "x");
    assert_eq!(trim_chars(&vec![' ', 'a', ' ', 'b', ' ']), vec!['a', ' ', 'b']);
}

#[test]
fn prefixes_are_taken_off_repeatedly() {
    assert_eq!(trim_start_matches("url http://x", "url "), "http://x");
    assert_eq!(trim_start_matches("url url http://x", "url "), "http://x");
    assert_eq!(trim_start_matches("**name", "*"), "name");
    assert_eq!(trim_start_matches("name", "*"), "name");
    assert_eq!(trim_start_matches("***", "*"), "");
    assert_eq!(trim_start_matches("abc", ""), "abc");
    assert_eq!(trim_start_matches("aaa", "aa"), "a");
}

#[test]
fn both_ends_are_trimmed_of_a_pattern() {
    assert_eq!(trim_matches("\"SUCCESS\"", "\""), "SUCCESS");
    assert_eq!(trim_matches("\"\"a\"b\"\"\"", "\""), "a\"b");
    assert_eq!(trim_matches("SUCCESS", "\""), "SUCCESS");
    assert_eq!(trim_matches("\"\"", "\""), "");
    assert_eq!(trim_matches("", "\""), "");
}

#[test]
fn prefix_test() {
    assert!(starts_with("url http://x", "url "));
    assert!(!starts_with("url", "url "));
    assert!(!starts_with("curl x", "url "));
    assert!(starts_with("anything", ""));
    assert!(starts_with("", ""));
}

#[test]
fn string_equality() {
    assert!(str_eq("runs", "runs"));
    assert!(!str_eq("runs", "run"));
    assert!(!str_eq("runs", "Runs"));
    assert!(str_eq("", ""));
}

#[test]
fn last_character_is_dropped() {
    assert_eq!(drop_last_char("abc"), "ab");
    assert_eq!(drop_last_char("aé"), "a");
    assert_eq!(drop_last_char("a"), "");
    assert_eq!(drop_last_char(""), "");
}

#[test]
fn rows_are_copied() {
    let rows = vec!["a".to_string(), "".to_string(), "ccc".to_string()];
    assert_eq!(clone_rows(&rows), rows);
    assert_eq!(clone_rows(&Vec::new()), Vec::<String>::new());
}

#[test]
fn marked_characters_cut_and_trim() {
    let v = vec!['a', 'b', 'c', 'd', 'e'];
    assert_eq!(split_marked(&v, &vec![false, true, false, false, true]), vec!["a", "cd"]);
    assert_eq!(split_marked(&v, &vec![true; 5]), Vec::<String>::new());
    assert_eq!(split_marked(&v, &vec![false; 5]), vec!["abcde"]);
    assert_eq!(trim_marked(&v, &vec![true, true, false, true, true]), vec!['c']);
    assert_eq!(trim_marked(&v, &vec![true, false, true, false, true]), vec!['b', 'c', 'd']);
    assert_eq!(trim_marked(&v, &vec![true; 5]), Vec::<char>::new());
    assert_eq!(trim_marked(&v, &vec![false; 5]), v);
    assert_eq!(whitespace_marks(&vec!['a', ' ', '\t', 'b', '\u{2003}']), vec![false, true, true, false, true]);
}

#[test]
fn trimming_agrees_with_std() {
    let samples = [
        "", " ", "a", " a", "a ", "  a b  ", "\t\n x \r\n", "\u{a0}x\u{2003}", "x\u{200b}", "url url x",
        "***a*", "\"\"S\"", "* default", "**", "a*b",
    ];
    for s in samples {
        assert_eq!(trim_str(s), s.trim(), "{:?}", s);
        assert_eq!(trim_start_matches(s, "*"), s.trim_start_matches('*'), "{:?}", s);
        assert_eq!(trim_start_matches(s, "url "), s.trim_start_matches("url "), "{:?}", s);
        assert_eq!(trim_matches(s, "\""), s.trim_matches('"'), "{:?}", s);
        assert_eq!(trim_matches(s, "*"), s.trim_matches('*'), "{:?}", s);
        assert_eq!(starts_with(s, "*"), s.starts_with('*'), "{:?}", s);
        assert_eq!(starts_with(s, "url "), s.starts_with("url "), "{:?}", s);
        assert_eq!(first_word_of(s), s.split_whitespace().next().unwrap_or_default(), "{:?}", s);
        assert_eq!(drop_last_char(s), {
            let mut t = s.to_string();
            t.pop();
            t
        });
    }
}
