use tempusbot::text::{
    chars_of, contains_text, decimal_string, join_lines, mention_string, same_text,
    signed_decimal_string,
};

#[test]
fn decimal_of_small_and_large_numbers() {
    assert_eq!(decimal_string(0), "0");
    assert_eq!(decimal_string(7), "7");
    assert_eq!(decimal_string(10), "10");
    assert_eq!(decimal_string(1234567890), "1234567890");
    assert_eq!(decimal_string(u64::MAX), "18446744073709551615");
}

#[test]
fn decimal_reads_back_as_the_number() {
    for n in [0u64, 1, 9, 10, 99, 100, 4096, 253290704384557057, u64::MAX] {
        let s = decimal_string(n);
        assert_eq!(s.parse::<u64>().unwrap(), n);
        assert!(s == "0" || !s.starts_with('0'));
    }
}

#[test]
fn signed_decimal_of_negative_numbers() {
    assert_eq!(signed_decimal_string(-42), "-42");
    assert_eq!(signed_decimal_string(0), "0");
    assert_eq!(signed_decimal_string(i64::MIN), "-9223372036854775808");
    assert_eq!(signed_decimal_string(i64::MAX), "9223372036854775807");
}

#[test]
fn mention_pings_the_user() {
    assert_eq!(mention_string(253290704384557057), "<@253290704384557057>");
    assert_eq!(mention_string(0), "<@0>");
}

#[test]
fn same_text_compares_characters() {
    assert!(same_text("rank", "rank"));
    assert!(!same_text("rank", "srank"));
    assert!(!same_text("", "a"));
    assert!(same_text("", ""));
}

#[test]
fn join_lines_puts_breaks_between() {
    let names = vec!["alice".to_string(), "bob".to_string(), "carol".to_string()];
    assert_eq!(join_lines(&names), "alice\nbob\ncarol");
    assert_eq!(join_lines(&vec!["solo".to_string()]), "solo");
    assert_eq!(join_lines(&vec![]), "");
    assert_eq!(join_lines(&vec![String::new(), String::new()]), "\n");
}

#[test]
fn contains_text_finds_pieces() {
    assert!(contains_text("hey bot is this true?", "is this true"));
    assert!(contains_text("is this true", "is this true"));
    assert!(!contains_text("is this True", "is this true"));
    assert!(!contains_text("is this", "is this true"));
    assert!(contains_text("anything", ""));
    assert!(contains_text("ünïcödé is this true", "is this true"));
}

#[test]
fn chars_of_keeps_every_character() {
    assert_eq!(chars_of("aé😀"), vec!['a', 'é', '😀']);
    assert!(chars_of("").is_empty());
}
