use sw_reports::text::{
    append_decimal, append_fixed0, append_fixed2, append_signed, byte_len, fixed2_text, magnitude,
    signed_text,
};

#[test]
fn decimal_digits_of_naturals() {
    for (n, expected) in
        [(0u64, "0"), (7, "7"), (10, "10"), (1234567890, "1234567890"), (u64::MAX, "18446744073709551615")]
    {
        let mut s = String::new();
        append_decimal(&mut s, n);
        assert_eq!(s, expected);
    }
}

#[test]
fn append_keeps_what_was_there() {
    let mut s = String::from("n=");
    append_decimal(&mut s, 42);
    append_signed(&mut s, -5);
    append_fixed2(&mut s, 1500);
    assert_eq!(s, "n=42-51.50");
}

#[test]
fn signed_text_of_integers() {
    assert_eq!(signed_text(0), "0");
    assert_eq!(signed_text(-42), "-42");
    assert_eq!(signed_text(42), "42");
    assert_eq!(signed_text(i64::MAX), "9223372036854775807");
    assert_eq!(signed_text(i64::MIN), "-9223372036854775808");
}

#[test]
fn magnitude_of_extremes() {
    assert_eq!(magnitude(i64::MIN), 9223372036854775808);
    assert_eq!(magnitude(-1), 1);
    assert_eq!(magnitude(0), 0);
    assert_eq!(magnitude(i64::MAX), 9223372036854775807);
}

#[test]
fn fixed2_rounds_half_away_from_zero() {
    assert_eq!(fixed2_text(0), "0.00");
    assert_eq!(fixed2_text(12_345), "12.35");
    assert_eq!(fixed2_text(12_344), "12.34");
    assert_eq!(fixed2_text(-12_345), "-12.35");
    assert_eq!(fixed2_text(995), "1.00");
    assert_eq!(fixed2_text(5), "0.01");
    assert_eq!(fixed2_text(4), "0.00");
    assert_eq!(fixed2_text(-1), "-0.00");
    assert_eq!(fixed2_text(10_000), "10.00");
    assert_eq!(fixed2_text(50), "0.05");
    assert_eq!(fixed2_text(i32::MAX), "2147483.65");
    assert_eq!(fixed2_text(i32::MIN), "-2147483.65");
}

#[test]
fn fixed0_rounds_to_whole_numbers() {
    for (v, expected) in [(0, "0"), (499, "0"), (500, "1"), (25_000, "25"), (-1500, "-2"), (-499, "-0")] {
        let mut s = String::new();
        append_fixed0(&mut s, v);
        assert_eq!(s, expected);
    }
}

#[test]
fn byte_len_counts_utf8_bytes() {
    assert_eq!(byte_len(&String::new()), 0);
    assert_eq!(byte_len(&String::from("hello")), 5);
    assert_eq!(byte_len(&String::from("h\u{e9}llo")), 6);
    assert_eq!(byte_len(&String::from("\u{1f600}")), 4);
}
