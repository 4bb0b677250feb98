use geek_killer::text::{
    chars_of, contains, decimal_text, find, join, matches_at, push_decimal, same_text,
    string_of, text_length, to_upper, to_upper_chars,
};

#[test]
fn a_string_and_its_characters_are_the_same_text() {
    let v = chars_of("❌ 弹出 E:");
    assert_eq!(v, vec!['❌', ' ', '弹', '出', ' ', 'E', ':']);
    assert_eq!(string_of(&v), "❌ 弹出 E:");
    assert_eq!(string_of(&Vec::new()), "");
    assert_eq!(chars_of(""), Vec::<char>::new());
}

#[test]
fn only_ascii_letters_are_folded() {
    assert_eq!(to_upper('a'), 'A');
    assert_eq!(to_upper('z'), 'Z');
    assert_eq!(to_upper('M'), 'M');
    assert_eq!(to_upper('`'), '`');
    assert_eq!(to_upper('{'), '{');
    assert_eq!(to_upper('ß'), 'ß');
    assert_eq!(to_upper('é'), 'é');
    assert_eq!(to_upper_chars(&chars_of("i:\\Tools\\é")), chars_of("I:\\TOOLS\\é"));
}

#[test]
fn join_puts_the_head_first() {
    assert_eq!(join("ab", "cd"), "abcd");
    assert_eq!(join("", "cd"), "cd");
    assert_eq!(join("ab", ""), "ab");
}

#[test]
fn a_needle_is_found_wherever_it_stands() {
    assert!(contains("VetoType: 6", "VetoType: 6"));
    assert!(contains("error CONFIGRET(23) here", "CONFIGRET(23)"));
    assert!(contains("abc", "c"));
    assert!(contains("abc", "a"));
    assert!(contains("abc", ""));
    assert!(contains("", ""));
    assert!(!contains("", "a"));
    assert!(!contains("VetoType 6", "VetoType: 6"));
    assert!(!contains("ab", "abc"));
    assert!(!contains("aab", "aba"));
    assert!(contains("aaab", "aab"));
}

#[test]
fn a_needle_is_matched_at_its_offset_only() {
    let hay = chars_of("abcabc");
    let needle = chars_of("bc");
    assert!(!matches_at(&hay, &needle, 0));
    assert!(matches_at(&hay, &needle, 1));
    assert!(matches_at(&hay, &needle, 4));
    assert!(!matches_at(&hay, &needle, 5));
    assert!(!matches_at(&hay, &needle, 6));
    assert!(!matches_at(&hay, &needle, 100));
    assert!(matches_at(&hay, &Vec::new(), 6));
    assert!(!matches_at(&hay, &Vec::new(), 7));
    assert!(find(&hay, &needle));
    assert!(!find(&needle, &hay));
}

#[test]
fn numbers_are_written_in_decimal() {
    assert_eq!(decimal_text(0), "0");
    assert_eq!(decimal_text(6), "6");
    assert_eq!(decimal_text(10), "10");
    assert_eq!(decimal_text(23), "23");
    assert_eq!(decimal_text(1005), "1005");
    assert_eq!(decimal_text(u32::MAX), "4294967295");
    let mut out = vec!['r', 'c', '='];
    push_decimal(&mut out, 234);
    assert_eq!(out, vec!['r', 'c', '=', '2', '3', '4']);
}

#[test]
fn the_text_in_a_buffer_ends_at_the_first_zero() {
    assert_eq!(text_length(&[73, 58, 92, 0, 65, 0]), 3);
    assert_eq!(text_length(&[0, 65]), 0);
    assert_eq!(text_length(&[65, 66]), 2);
    assert_eq!(text_length(&[]), 0);
}

#[test]
fn two_strings_are_the_same_text_or_not() {
    assert!(same_text("系统", "系统"));
    assert!(same_text("", ""));
    assert!(!same_text("系统", "系统 "));
    assert!(!same_text("abc", "abd"));
    assert!(!same_text("", "a"));
}
