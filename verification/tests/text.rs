use zela_std::text::{joined, decimal_text, signed_decimal_text};

#[test]
fn decimal_numerals() {
    for n in [0u128, 1, 9, 10, 42, 100, 1_000_000, u64::MAX as u128, u128::MAX] {
        assert_eq!(decimal_text(n), n.to_string());
    }
}

#[test]
fn signed_decimal_numerals() {
    for n in [0i64, -1, 7, -10, -32002, i64::MAX, i64::MIN] {
        assert_eq!(signed_decimal_text(n), n.to_string());
    }
}

#[test]
fn joining() {
    assert_eq!(joined("a", "bc"), "abc");
    assert_eq!(joined("", ""), "");
    assert_eq!(joined("sl\u{f8}t ", "7"), "sl\u{f8}t 7");
}
