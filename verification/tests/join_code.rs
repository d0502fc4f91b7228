use chat_app::join_code::generate_code;
use chat_app::text::{decimal_string, is_blank};

#[test]
fn join_code_of_first_group() {
    // seed = 1 * 10000 + 1734206817 % 10000 = 16817 = 12 * 36^2 + 35 * 36 + 5
    assert_eq!(generate_code(1, 1734206817), "CZ5");
}

#[test]
fn join_code_of_zero_seed() {
    assert_eq!(generate_code(0, 20000), "0");
}

#[test]
fn join_code_single_digit_and_letters() {
    assert_eq!(generate_code(0, 9), "9");
    assert_eq!(generate_code(0, 10), "A");
    assert_eq!(generate_code(0, 35), "Z");
    assert_eq!(generate_code(0, 36), "10");
}

#[test]
fn join_codes_of_different_groups_differ() {
    let t = 1734206817;
    let a = generate_code(41, t);
    let b = generate_code(42, t);
    assert_ne!(a, b);
    assert_eq!(generate_code(42, t), generate_code(42, t + 10000));
}

#[test]
fn join_code_alphabet() {
    let code = generate_code(123456, 987654321);
    assert!(!code.is_empty());
    assert!(code.chars().all(|c| c.is_ascii_digit() || c.is_ascii_uppercase()));
}

#[test]
fn decimal_rendering() {
    assert_eq!(decimal_string(0), "0");
    assert_eq!(decimal_string(7), "7");
    assert_eq!(decimal_string(10000000000), "10000000000");
    assert_eq!(decimal_string(u64::MAX), "18446744073709551615");
}

#[test]
fn blank_texts() {
    assert!(is_blank(""));
    assert!(is_blank(" \t\n\u{3000}"));
    assert!(!is_blank("  a "));
}
