use sfx_auth::number::{parse_u32, parse_unsigned, parse_usize};

#[test]
fn decimal_numbers_parse_like_std() {
    for s in ["0", "7", "+7", "007", "4294967295", "4294967296", "", "+", "-1", "1a", " 1", "++1", "\u{663}"] {
        assert_eq!(parse_u32(s), s.parse::<u32>().ok(), "{}", s);
        assert_eq!(parse_usize(s), s.parse::<usize>().ok(), "{}", s);
    }
}

#[test]
fn the_bound_is_inclusive() {
    assert_eq!(parse_unsigned("255", 255), Some(255));
    assert_eq!(parse_unsigned("256", 255), None);
    assert_eq!(parse_unsigned("18446744073709551615", u64::MAX), Some(u64::MAX));
    assert_eq!(parse_unsigned("18446744073709551616", u64::MAX), None);
    assert_eq!(parse_unsigned("9", 5), None);
}
