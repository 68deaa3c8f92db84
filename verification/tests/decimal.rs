use docker_ps::decimal::{signed_to_decimal, unsigned_to_decimal};

#[test]
fn unsigned_decimal_digits() {
    assert_eq!(unsigned_to_decimal(0), "0");
    assert_eq!(unsigned_to_decimal(7), "7");
    assert_eq!(unsigned_to_decimal(10), "10");
    assert_eq!(unsigned_to_decimal(8080), "8080");
    assert_eq!(unsigned_to_decimal(65535), "65535");
    assert_eq!(unsigned_to_decimal(1234567890), "1234567890");
    assert_eq!(unsigned_to_decimal(u64::MAX), "18446744073709551615");
}

#[test]
fn signed_decimal_digits() {
    assert_eq!(signed_to_decimal(0), "0");
    assert_eq!(signed_to_decimal(-1), "-1");
    assert_eq!(signed_to_decimal(42), "42");
    assert_eq!(signed_to_decimal(-1700000000), "-1700000000");
    assert_eq!(signed_to_decimal(i64::MAX), "9223372036854775807");
    assert_eq!(signed_to_decimal(i64::MIN), "-9223372036854775808");
}

#[test]
fn decimal_agrees_with_std() {
    let samples: [i64; 9] = [0, 1, -1, 9, 10, 99, 100, -1000, 1_000_000_000_000];
    for n in samples {
        assert_eq!(signed_to_decimal(n), n.to_string());
    }
    let samples: [u64; 5] = [0, 9, 10, 101, 999_999];
    for n in samples {
        assert_eq!(unsigned_to_decimal(n), n.to_string());
    }
}
