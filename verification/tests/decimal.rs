use qna_web_app::decimal::{i32_to_string, parse_u32, u64_to_string};

#[test]
fn unsigned_numbers_are_written_without_padding() {
    assert_eq!(u64_to_string(0), "0");
    assert_eq!(u64_to_string(7), "7");
    assert_eq!(u64_to_string(10), "10");
    assert_eq!(u64_to_string(404), "404");
    assert_eq!(u64_to_string(23505), "23505");
    assert_eq!(u64_to_string(1_000_000), "1000000");
    assert_eq!(u64_to_string(u64::MAX), "18446744073709551615");
}

#[test]
fn unsigned_numbers_are_written_as_std_writes_them() {
    let mut n: u64 = 1;
    for _ in 0..64 {
        assert_eq!(u64_to_string(n), n.to_string());
        assert_eq!(u64_to_string(n - 1), (n - 1).to_string());
        n = n.wrapping_mul(2);
    }
}

#[test]
fn signed_numbers_carry_their_sign() {
    assert_eq!(i32_to_string(0), "0");
    assert_eq!(i32_to_string(1), "1");
    assert_eq!(i32_to_string(-1), "-1");
    assert_eq!(i32_to_string(-12), "-12");
    assert_eq!(i32_to_string(i32::MAX), "2147483647");
    assert_eq!(i32_to_string(i32::MIN), "-2147483648");
}

#[test]
fn parse_reads_plain_digits() {
    assert_eq!(parse_u32("0"), Some(0));
    assert_eq!(parse_u32("7"), Some(7));
    assert_eq!(parse_u32("23505"), Some(23505));
    assert_eq!(parse_u32("4294967295"), Some(u32::MAX));
}

#[test]
fn parse_accepts_a_plus_sign_and_leading_zeros() {
    assert_eq!(parse_u32("+23505"), Some(23505));
    assert_eq!(parse_u32("023505"), Some(23505));
    assert_eq!(parse_u32("+0"), Some(0));
    assert_eq!(parse_u32("0000000000000000000042"), Some(42));
}

#[test]
fn parse_refuses_what_is_no_number() {
    assert_eq!(parse_u32(""), None);
    assert_eq!(parse_u32("+"), None);
    assert_eq!(parse_u32("-1"), None);
    assert_eq!(parse_u32("++1"), None);
    assert_eq!(parse_u32("1+"), None);
    assert_eq!(parse_u32(" 1"), None);
    assert_eq!(parse_u32("1 "), None);
    assert_eq!(parse_u32("42P01"), None);
    assert_eq!(parse_u32("12.5"), None);
    assert_eq!(parse_u32("\u{ff11}\u{ff12}"), None);
}

#[test]
fn parse_refuses_what_does_not_fit() {
    assert_eq!(parse_u32("4294967296"), None);
    assert_eq!(parse_u32("42949672950"), None);
    assert_eq!(parse_u32("99999999999999999999999999"), None);
    assert_eq!(parse_u32("+4294967296"), None);
}

#[test]
fn parse_agrees_with_std() {
    let samples = [
        "", "+", "-", "0", "00", "+7", "-7", "23505", "23 505", "0x10", "4294967295",
        "4294967296", "18446744073709551616", "1e3", "\u{0663}", "+-1", "12a", "a12",
    ];
    for text in samples {
        assert_eq!(parse_u32(text), text.parse::<u32>().ok(), "{:?}", text);
    }
}

#[test]
fn what_is_written_is_read_back() {
    for n in [0u32, 1, 9, 10, 99, 100, 23505, 65535, u32::MAX] {
        assert_eq!(parse_u32(&u64_to_string(n as u64)), Some(n));
    }
}
