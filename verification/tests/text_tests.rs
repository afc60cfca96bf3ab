use talking_head::text::{i32_to_decimal, parse_i32, parse_u32, str_eq, trim, u32_to_decimal};

#[test]
fn decimal_spelling() {
    for n in [0u32, 9, 10, 99, 100, 123456, u32::MAX] {
        assert_eq!(u32_to_decimal(n), n.to_string());
    }
    for n in [0i32, -1, 45, -2160, i32::MIN, i32::MAX] {
        assert_eq!(i32_to_decimal(n), n.to_string());
    }
}

#[test]
fn parsing_agrees_with_std() {
    for s in ["", "+", "-", "0", "+0", "-0", "42", "+42", "-42", "007", "4294967295", "4294967296",
        "2147483647", "2147483648", "-2147483648", "-2147483649", "1 ", " 1", "1_000", "١"] {
        assert_eq!(parse_u32(s), s.parse::<u32>().ok(), "u32 {:?}", s);
        assert_eq!(parse_i32(s), s.parse::<i32>().ok(), "i32 {:?}", s);
    }
}

#[test]
fn trimming_agrees_with_std() {
    for s in ["", "   ", " a ", "\t\nx y\r\n", "\u{3000}z\u{2029}", "\u{200b}q\u{200b}", "é"] {
        assert_eq!(trim(s), s.trim());
    }
}

#[test]
fn string_equality() {
    assert!(str_eq("abc", "abc"));
    assert!(!str_eq("abc", "abd"));
    assert!(!str_eq("ab", "abc"));
    assert!(str_eq("", ""));
}
