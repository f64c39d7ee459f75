use goodwe_web::goodwe::record::json_f64;
use goodwe_web::json::Json;
use goodwe_web::text::{
    decimal_text, lower_hex_text, push_decimal, push_signed, push_two_digits, same_text,
};

fn signed(n: i64) -> String {
    let mut t = String::new();
    push_signed(&mut t, n);
    t
}

fn padded(n: u32) -> String {
    let mut t = String::new();
    push_two_digits(&mut t, n);
    t
}

#[test]
fn texts_are_compared_by_their_characters() {
    assert!(same_text("", ""));
    assert!(same_text("C0602", "C0602"));
    assert!(same_text("naïve", "naïve"));
    assert!(!same_text("C0602", "C0607"));
    assert!(!same_text("C0602", "C06020"));
    assert!(!same_text("", "a"));
}

#[test]
fn decimal_numerals() {
    assert_eq!(decimal_text(0), "0");
    assert_eq!(decimal_text(7), "7");
    assert_eq!(decimal_text(10), "10");
    assert_eq!(decimal_text(1778955297376), "1778955297376");
    assert_eq!(decimal_text(u64::MAX), "18446744073709551615");
    let mut t = "page ".to_owned();
    push_decimal(&mut t, 100);
    assert_eq!(t, "page 100");
}

#[test]
fn signed_numerals() {
    assert_eq!(signed(0), "0");
    assert_eq!(signed(-1), "-1");
    assert_eq!(signed(2024), "2024");
    assert_eq!(signed(i64::MIN), "-9223372036854775808");
    assert_eq!(signed(i64::MAX), "9223372036854775807");
}

#[test]
fn two_digit_numerals() {
    assert_eq!(padded(0), "00");
    assert_eq!(padded(9), "09");
    assert_eq!(padded(10), "10");
    assert_eq!(padded(123), "123");
}

#[test]
fn hexadecimal_is_lower_case_and_padded() {
    assert_eq!(lower_hex_text(&[]), "");
    assert_eq!(lower_hex_text(&[0x0a, 0x14, 0xff, 0x00]), "0a14ff00");
}

#[test]
fn trimming_takes_off_every_white_space_character_and_no_other() {
    for u in 0..=0x10ffffu32 {
        if let Some(c) = char::from_u32(u) {
            let listed = matches!(
                u,
                0x09..=0x0d | 0x20 | 0x85 | 0xa0 | 0x1680 | 0x2000..=0x200a | 0x2028 | 0x2029
                    | 0x202f | 0x205f | 0x3000
            );
            assert_eq!(c.is_whitespace(), listed, "{u:x}");
        }
    }
    let padded = " \t\u{a0}1.5\u{3000}\n";
    assert_eq!(json_f64(&Json::Text(padded.to_owned())), "1.5");
    assert_eq!(json_f64(&Json::Text("1 5".to_owned())), "1 5");
    assert_eq!(json_f64(&Json::Text(" \n ".to_owned())), "");
}
