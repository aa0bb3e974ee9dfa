use panel_ui::text::{format_count, format_price, format_tenths, FormatError, FIELD_CAPACITY};

#[test]
fn count_zero() {
    assert_eq!(format_count(0), Ok(b"0".to_vec()));
}

#[test]
fn count_simple() {
    assert_eq!(format_count(3), Ok(b"3".to_vec()));
    assert_eq!(format_count(42), Ok(b"42".to_vec()));
    assert_eq!(format_count(100), Ok(b"100".to_vec()));
}

#[test]
fn count_largest_fitting() {
    // 16 digits exactly fill the buffer.
    assert_eq!(format_count(9_999_999_999_999_999), Ok(b"9999999999999999".to_vec()));
}

#[test]
fn count_overflow() {
    // 17 digits no longer fit.
    assert_eq!(format_count(10_000_000_000_000_000), Err(FormatError::Overflow));
}

#[test]
fn count_round_trips() {
    for n in [0u64, 1, 7, 9, 10, 99, 100, 12345, 987_654_321, 9_999_999_999_999_999] {
        let text = format_count(n).unwrap();
        assert!(text.len() <= FIELD_CAPACITY);
        let parsed: u64 = String::from_utf8(text).unwrap().parse().unwrap();
        assert_eq!(parsed, n);
    }
}

#[test]
fn price_exact_values() {
    assert_eq!(format_price(450), Ok(b"$4.50".to_vec()));
    assert_eq!(format_price(0), Ok(b"$0.00".to_vec()));
    assert_eq!(format_price(5), Ok(b"$0.05".to_vec()));
    assert_eq!(format_price(99), Ok(b"$0.99".to_vec()));
    assert_eq!(format_price(123_456), Ok(b"$1234.56".to_vec()));
}

#[test]
fn price_always_two_fraction_digits_and_sign() {
    for cents in [0u64, 1, 9, 10, 99, 100, 101, 450, 999, 1000, 123_456, 99_999_999] {
        let text = format_price(cents).unwrap();
        assert_eq!(text[0], b'$');
        let dot = text.len() - 3;
        assert_eq!(text[dot], b'.');
        assert!(text[dot + 1].is_ascii_digit());
        assert!(text[dot + 2].is_ascii_digit());
        assert!(text[1..dot].iter().all(|b| b.is_ascii_digit()));
    }
}

#[test]
fn price_overflow() {
    // A 13-digit dollar part plus "$", "." and two cent digits is 17 bytes.
    assert_eq!(format_price(1_000_000_000_000_000), Err(FormatError::Overflow));
}

#[test]
fn tenths_exact_values() {
    assert_eq!(format_tenths(314), Ok(b"31.4".to_vec()));
    assert_eq!(format_tenths(7), Ok(b"0.7".to_vec()));
    assert_eq!(format_tenths(0), Ok(b"0.0".to_vec()));
    assert_eq!(format_tenths(1000), Ok(b"100.0".to_vec()));
}

#[test]
fn tenths_overflow() {
    // A 16-digit whole part plus "." and the tenth digit is 18 bytes.
    assert_eq!(format_tenths(10_000_000_000_000_000), Err(FormatError::Overflow));
}
