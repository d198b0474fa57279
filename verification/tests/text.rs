use payment_gateway::text::{
    chars_of, contains_text, hex_digit, push_chars, push_decimal, push_hex_prefix,
    push_padded_decimal, same_chars, same_text,
};

fn decimal_string(n: u64) -> String {
    let mut s = String::new();
    push_decimal(&mut s, n);
    s
}

#[test]
fn decimal_numerals_have_no_leading_zeros() {
    assert_eq!(decimal_string(0), "0");
    assert_eq!(decimal_string(7), "7");
    assert_eq!(decimal_string(10), "10");
    assert_eq!(decimal_string(1_000_000), "1000000");
    assert_eq!(decimal_string(u64::MAX), "18446744073709551615");
    let mut s = String::from("n=");
    push_decimal(&mut s, 405);
    assert_eq!(s, "n=405");
}

#[test]
fn padded_numerals_keep_their_zeros() {
    let mut s = String::new();
    push_padded_decimal(&mut s, 42, 8);
    assert_eq!(s, "00000042");
    let mut t = String::new();
    push_padded_decimal(&mut t, 123_456, 3);
    assert_eq!(t, "456");
    let mut u = String::from("x");
    push_padded_decimal(&mut u, 9, 0);
    assert_eq!(u, "x");
}

#[test]
fn hexadecimal_is_upper_case_and_high_nibble_first() {
    assert_eq!(hex_digit(0), '0');
    assert_eq!(hex_digit(9), '9');
    assert_eq!(hex_digit(10), 'A');
    assert_eq!(hex_digit(15), 'F');
    let bytes = vec![0x00, 0x1f, 0xa0, 0xff];
    let mut all = String::new();
    push_hex_prefix(&mut all, &bytes, 8);
    assert_eq!(all, "001FA0FF");
    let mut odd = String::from(">");
    push_hex_prefix(&mut odd, &bytes, 3);
    assert_eq!(odd, ">001");
    let mut none = String::new();
    push_hex_prefix(&mut none, &bytes, 0);
    assert_eq!(none, "");
}

#[test]
fn characters_and_strings_go_both_ways() {
    assert_eq!(chars_of("añb"), vec!['a', 'ñ', 'b']);
    assert_eq!(chars_of(""), Vec::<char>::new());
    let mut s = String::from("ab");
    push_chars(&mut s, &vec!['c', 'd']);
    assert_eq!(s, "abcd");
}

#[test]
fn texts_are_compared_character_by_character() {
    assert!(same_text("abc", "abc"));
    assert!(same_text("", ""));
    assert!(!same_text("abc", "abd"));
    assert!(!same_text("abc", "ab"));
    assert!(!same_text("ab", "abc"));
    assert!(same_chars(&vec!['a'], &vec!['a']));
    assert!(!same_chars(&vec!['a'], &vec!['b']));
}

#[test]
fn substrings_are_found_wherever_they_stand() {
    assert!(contains_text("4000****0002", "0002"));
    assert!(contains_text("0002", "0002"));
    assert!(contains_text("x0002y", "0002"));
    assert!(!contains_text("4111****1111", "0002"));
    assert!(!contains_text("002", "0002"));
    assert!(contains_text("abc", ""));
    assert!(contains_text("", ""));
    assert!(!contains_text("", "a"));
    assert!(contains_text("aab", "ab"));
}
