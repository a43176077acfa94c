use git_helper::text::{decimal_string, signed_decimal_string, trimmed};

#[test]
fn decimal_notation() {
    assert_eq!(decimal_string(0), "0");
    assert_eq!(decimal_string(3100), "3100");
    assert_eq!(decimal_string(u64::MAX), u64::MAX.to_string());
    assert_eq!(signed_decimal_string(-42), "-42");
    assert_eq!(signed_decimal_string(i64::MIN), i64::MIN.to_string());
}

#[test]
fn trimming_unicode_whitespace() {
    assert_eq!(trimmed("\u{3000} a b \n"), "a b");
}
