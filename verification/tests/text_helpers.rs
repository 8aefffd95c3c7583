use rag::text::{
    blank, char_ascii_lower, char_is_whitespace, chars_of, concat2, contains_in, ends_with_in,
    find_char_in, find_in, join_strings, lower_ascii, parse_u64, rfind_char_in, same_text,
    split_trimmed, split_words, string_of, strip_range, trim_range, trimmed, usize_text,
};

fn chars(s: &str) -> Vec<char> {
    s.chars().collect()
}

#[test]
fn whitespace_agrees_with_the_standard_library_on_every_character() {
    let mut code: u32 = 0;
    while code <= 0x10FFFF {
        if let Some(c) = char::from_u32(code) {
            assert_eq!(char_is_whitespace(c), c.is_whitespace(), "U+{:04X}", code);
        }
        code += 1;
    }
}

#[test]
fn ascii_lowering_agrees_with_the_standard_library_on_every_character() {
    let mut code: u32 = 0;
    while code <= 0x10FFFF {
        if let Some(c) = char::from_u32(code) {
            assert_eq!(char_ascii_lower(c), c.to_ascii_lowercase(), "U+{:04X}", code);
        }
        code += 1;
    }
    assert_eq!(lower_ascii(&chars("Fetch-WEATHER É")), chars("fetch-weather É"));
}

#[test]
fn chars_and_strings_convert_both_ways() {
    assert_eq!(chars_of("héllo"), chars("héllo"));
    assert_eq!(chars_of(""), Vec::<char>::new());
    assert_eq!(string_of(&chars("héllo"), 1, 4), "éll");
    assert_eq!(string_of(&chars("abc"), 2, 2), "");
    assert!(same_text("abc", "abc"));
    assert!(!same_text("abc", "abd"));
    assert!(!same_text("abc", "ab"));
    assert_eq!(concat2("ab", "cd"), "abcd");
}

#[test]
fn trimming_takes_white_space_off_both_ends_only() {
    assert_eq!(trimmed("  a b \t\n"), "a b");
    assert_eq!(trimmed("\u{3000}x\u{a0}"), "x");
    assert_eq!(trimmed("   "), "");
    assert_eq!(trimmed(""), "");
    assert_eq!(trimmed("none"), "none");
    assert!(blank(" \n\t"));
    assert!(blank(""));
    assert!(!blank(" . "));
    let v = chars("xx  ab  yy");
    assert_eq!(trim_range(&v, 2, 8), (4, 6));
    assert_eq!(trim_range(&v, 2, 4), (4, 4));
    for sample in ["", " ", "a", " a", "a ", " a b ", "\r\n x \u{2003}", "\u{85}y\u{1680}"] {
        assert_eq!(trimmed(sample), sample.trim(), "{:?}", sample);
    }
}

#[test]
fn stripping_takes_runs_of_one_character_off_both_ends() {
    let v = chars("\"\"Pune\"");
    assert_eq!(strip_range(&v, 0, v.len(), '"'), (2, 6));
    let w = chars("''''");
    let (a, b) = strip_range(&w, 0, w.len(), '\'');
    assert_eq!(a, b);
    let x = chars("a'b");
    assert_eq!(strip_range(&x, 0, x.len(), '\''), (0, 3));
}

#[test]
fn searching_finds_the_first_and_the_last_occurrence() {
    assert_eq!(find_in(&chars("abcabc"), &chars("bc")), Some(1));
    assert_eq!(find_in(&chars("abcabc"), &chars("cb")), None);
    assert_eq!(find_in(&chars("abc"), &chars("")), Some(0));
    assert_eq!(find_in(&chars(""), &chars("")), Some(0));
    assert_eq!(find_in(&chars("ab"), &chars("abc")), None);
    assert_eq!(find_in(&chars("xxabc"), &chars("abc")), Some(2));
    assert!(contains_in(&chars("please use rag only"), &chars("rag only")));
    assert!(!contains_in(&chars("please"), &chars("rag")));
    assert_eq!(find_char_in(&chars("a{b{c"), 0, 5, '{'), Some(1));
    assert_eq!(find_char_in(&chars("a{b{c"), 2, 5, '{'), Some(1));
    assert_eq!(find_char_in(&chars("a{b{c"), 4, 5, '{'), None);
    assert_eq!(rfind_char_in(&chars("a}b}c"), '}'), Some(3));
    assert_eq!(rfind_char_in(&chars("abc"), '}'), None);
    assert!(ends_with_in(&chars("main.rs"), &chars(".rs")));
    assert!(!ends_with_in(&chars("main.rs"), &chars(".md")));
    assert!(!ends_with_in(&chars("rs"), &chars(".rs")));
    assert!(ends_with_in(&chars("x"), &chars("")));
}

#[test]
fn joining_puts_the_separator_between_neighbours() {
    let parts = vec!["a".to_string(), "".to_string(), "c".to_string()];
    assert_eq!(join_strings(&parts, ", "), "a, , c");
    assert_eq!(join_strings(&vec!["only".to_string()], "\n\n"), "only");
    assert_eq!(join_strings(&Vec::new(), "\n"), "");
}

#[test]
fn numbers_are_written_in_decimal() {
    assert_eq!(usize_text(0), "0");
    assert_eq!(usize_text(7), "7");
    assert_eq!(usize_text(10), "10");
    assert_eq!(usize_text(1200), "1200");
    assert_eq!(usize_text(usize::MAX), usize::MAX.to_string());
}

#[test]
fn splitting_keeps_empty_pieces_and_trims_each() {
    assert_eq!(split_trimmed(".rs, .md ,.txt", ','), vec![".rs", ".md", ".txt"]);
    assert_eq!(split_trimmed("", ','), vec![""]);
    assert_eq!(split_trimmed("a,,b,", ','), vec!["a", "", "b", ""]);
    assert_eq!(split_trimmed(",", ','), vec!["", ""]);
    for sample in ["a", " a , b", ",,", "x, y ,z,"] {
        let expected: Vec<String> = sample.split(',').map(|s| s.trim().to_string()).collect();
        assert_eq!(split_trimmed(sample, ','), expected, "{:?}", sample);
    }
}

#[test]
fn words_are_the_runs_between_white_space() {
    assert_eq!(split_words("  -y  @scope/server\t--flag "), vec!["-y", "@scope/server", "--flag"]);
    assert_eq!(split_words(""), Vec::<String>::new());
    assert_eq!(split_words(" \n "), Vec::<String>::new());
    assert_eq!(split_words("one"), vec!["one"]);
    for sample in ["a b", " a  b ", "a\u{3000}b\nc", "tail "] {
        let expected: Vec<String> = sample.split_whitespace().map(|s| s.to_string()).collect();
        assert_eq!(split_words(sample), expected, "{:?}", sample);
    }
}

#[test]
fn numbers_are_read_as_the_standard_library_reads_them() {
    assert_eq!(parse_u64("1200", u64::MAX), Some(1200));
    assert_eq!(parse_u64("+5", u64::MAX), Some(5));
    assert_eq!(parse_u64("007", u64::MAX), Some(7));
    assert_eq!(parse_u64("", u64::MAX), None);
    assert_eq!(parse_u64("+", u64::MAX), None);
    assert_eq!(parse_u64("-1", u64::MAX), None);
    assert_eq!(parse_u64(" 1", u64::MAX), None);
    assert_eq!(parse_u64("1_000", u64::MAX), None);
    assert_eq!(parse_u64("12a", u64::MAX), None);
    assert_eq!(parse_u64("18446744073709551615", u64::MAX), Some(u64::MAX));
    assert_eq!(parse_u64("18446744073709551616", u64::MAX), None);
    assert_eq!(parse_u64("99999999999999999999999", u64::MAX), None);
    assert_eq!(parse_u64("256", 255), None);
    assert_eq!(parse_u64("255", 255), Some(255));
    for sample in ["0", "+0", "42", "++1", "1+", "٣", "18446744073709551615", "18446744073709551620"] {
        assert_eq!(parse_u64(sample, u64::MAX), sample.parse::<u64>().ok(), "{:?}", sample);
    }
}
