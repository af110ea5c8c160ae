use secret_agent::text::{
    char_is_whitespace, contains_text, decimal_text, join_strings, millionths_text,
    strip_whitespace, text_eq,
};

fn strings(items: &[&str]) -> Vec<String> {
    items.iter().map(|s| s.to_string()).collect()
}

#[test]
fn joins_with_the_separator_between_neighbours() {
    assert_eq!(join_strings(&strings(&[]), ", "), "");
    assert_eq!(join_strings(&strings(&["a"]), ", "), "a");
    assert_eq!(join_strings(&strings(&["a", "b", "c"]), ", "), "a, b, c");
    assert_eq!(join_strings(&strings(&["", ""]), "/"), "/");
}

#[test]
fn renders_numbers_in_decimal() {
    assert_eq!(decimal_text(0), "0");
    assert_eq!(decimal_text(7), "7");
    assert_eq!(decimal_text(10), "10");
    assert_eq!(decimal_text(42), "42");
    assert_eq!(decimal_text(1_000_000), "1000000");
    assert_eq!(decimal_text(u64::MAX), u64::MAX.to_string());
    for n in 0..1000u64 {
        assert_eq!(decimal_text(n), n.to_string());
    }
}

#[test]
fn renders_millionths() {
    assert_eq!(millionths_text(0), "0");
    assert_eq!(millionths_text(500_000), "0.5");
    assert_eq!(millionths_text(2_500_000), "2.5");
    assert_eq!(millionths_text(3_000_000), "3");
    assert_eq!(millionths_text(1_000_001), "1.000001");
    assert_eq!(millionths_text(10), "0.00001");
    assert_eq!(millionths_text(u32::MAX), "4294.967295");
}

#[test]
fn strips_every_whitespace_character() {
    assert_eq!(strip_whitespace("Data validation"), "Datavalidation");
    assert_eq!(strip_whitespace("  a b\tc\nd  "), "abcd");
    assert_eq!(strip_whitespace("a\u{a0}b\u{3000}c"), "abc");
    assert_eq!(strip_whitespace(""), "");
    assert_eq!(strip_whitespace("   "), "");
    assert_eq!(strip_whitespace("héllo wörld"), "héllowörld");
}

#[test]
fn whitespace_is_what_the_standard_library_calls_it() {
    for code in 0..0x3100u32 {
        if let Some(c) = char::from_u32(code) {
            assert_eq!(char_is_whitespace(c), c.is_whitespace());
        }
    }
    assert!(!char_is_whitespace('\u{10ffff}'));
}

#[test]
fn compares_and_finds_texts() {
    assert!(text_eq("json", "json"));
    assert!(!text_eq("json", "JSON"));
    let items = strings(&["a", "b"]);
    assert!(contains_text(&items, &"b".to_string()));
    assert!(!contains_text(&items, &"c".to_string()));
    assert!(!contains_text(&vec![], &"c".to_string()));
}
