use middle_mqtt::text::{i128_to_decimal, i64_to_decimal, parse_bool, parse_i64, parse_u16, parse_usize};

const SAMPLES: &[&str] = &[
    "", "+", "-", "0", "-0", "+0", "7", "+7", "-7", "42", "007", "1 ", " 1", "1a", "a1", "--1",
    "+-1", "65535", "65536", "-1", "9223372036854775807", "9223372036854775808",
    "-9223372036854775808", "-9223372036854775809", "18446744073709551615",
    "18446744073709551616", "99999999999999999999999999999999999", "١٢", "12.0",
];

#[test]
fn integers_print_like_to_string() {
    for v in [0i64, 1, -1, 9, 10, 99, 100, 12345, -98765, i64::MAX, i64::MIN] {
        assert_eq!(i64_to_decimal(v), v.to_string());
    }
    for v in [i128::MIN, i128::MAX, -1000i128, 1_700_000_000_123i128] {
        assert_eq!(i128_to_decimal(v), v.to_string());
    }
}

#[test]
fn integers_parse_like_from_str() {
    for s in SAMPLES {
        assert_eq!(parse_i64(s), s.parse::<i64>().ok(), "i64 {:?}", s);
        assert_eq!(parse_u16(s), s.parse::<u16>().ok(), "u16 {:?}", s);
        assert_eq!(parse_usize(s), s.parse::<usize>().ok(), "usize {:?}", s);
    }
}

#[test]
fn decimal_round_trip() {
    for v in [0i64, 5, -5, 1234567890, i64::MAX, i64::MIN] {
        assert_eq!(parse_i64(&i64_to_decimal(v)), Some(v));
    }
}

#[test]
fn booleans_parse_like_from_str() {
    for s in ["true", "false", "True", "FALSE", "", "1", "0", " true", "yes"] {
        assert_eq!(parse_bool(s), s.parse::<bool>().ok(), "{:?}", s);
    }
}
