use rename_rules::decimal::{push_decimal, push_zero_padded};
use rename_rules::replace::matches_at;
use rename_rules::text::{chars_of, push_all, same_text, string_of};

fn chars(text: &str) -> Vec<char> {
    text.chars().collect()
}

#[test]
fn chars_of_lists_every_character() {
    assert_eq!(chars_of("a名\u{1F600}."), vec!['a', '名', '\u{1F600}', '.']);
    assert_eq!(chars_of(""), Vec::<char>::new());
}

#[test]
fn string_of_undoes_chars_of() {
    for text in ["", "abc", "名前.txt", "a\u{1F600}b"] {
        assert_eq!(string_of(&chars_of(text)), text);
    }
}

#[test]
fn push_all_appends_in_order() {
    let mut out = chars("ab");
    push_all(&mut out, &chars("cd"));
    push_all(&mut out, &chars(""));
    assert_eq!(out, chars("abcd"));
}

#[test]
fn same_text_compares_character_by_character() {
    assert!(same_text("report.TXT", "report.TXT"));
    assert!(same_text("", ""));
    assert!(!same_text("report.TXT", "report.txt"));
    assert!(!same_text("report", "report.TXT"));
    assert!(!same_text("名前", "名"));
}

#[test]
fn matches_at_finds_the_pattern_only_where_it_stands() {
    let text = chars("banana");
    assert!(matches_at(&text, &chars("ban"), 0));
    assert!(matches_at(&text, &chars("ana"), 1));
    assert!(matches_at(&text, &chars("ana"), 3));
    assert!(!matches_at(&text, &chars("ana"), 2));
    assert!(!matches_at(&text, &chars("ana"), 4));
    assert!(matches_at(&text, &chars(""), 6));
    assert!(!matches_at(&text, &chars(""), 7));
    assert!(!matches_at(&text, &chars("bananas"), 0));
}

#[test]
fn push_decimal_writes_the_numeral() {
    for (number, numeral) in [(0u64, "0"), (7, "7"), (10, "10"), (409, "409"), (u64::MAX, "18446744073709551615")] {
        let mut out = chars("n=");
        push_decimal(&mut out, number);
        assert_eq!(string_of(&out), format!("n={}", numeral));
    }
}

#[test]
fn push_zero_padded_fills_up_to_the_width() {
    for (number, width, numeral) in [(3u64, 3usize, "003"), (3, 1, "3"), (3, 0, "3"), (1234, 2, "1234"), (0, 5, "00000")] {
        let mut out = Vec::new();
        push_zero_padded(&mut out, number, width);
        assert_eq!(string_of(&out), numeral);
    }
}
