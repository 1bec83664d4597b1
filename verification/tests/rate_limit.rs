use animeschedule::numeral::{parse_decimal, parse_u16, parse_u64, render_decimal};
use animeschedule::rate_limit::RateLimit;
use http::{HeaderMap, HeaderValue};

fn headers(pairs: &[(&'static str, &'static str)]) -> HeaderMap {
    let mut map = HeaderMap::new();
    for (name, value) in pairs {
        map.append(*name, HeaderValue::from_static(value));
    }
    map
}

#[test]
fn rate_limit_is_read_from_the_three_headers() {
    let map = headers(&[
        ("x-ratelimit-limit", "120"),
        ("x-ratelimit-remaining", "119"),
        ("x-ratelimit-reset", "1700000060"),
        ("content-type", "application/json"),
    ]);
    let limit = RateLimit::new(&map).unwrap();
    assert_eq!(limit.limit, 120);
    assert_eq!(limit.remaining, 119);
    assert_eq!(limit.reset, 1_700_000_060);
}

#[test]
fn header_names_are_matched_without_case() {
    let map = headers(&[
        ("X-RateLimit-Limit", "1"),
        ("X-RATELIMIT-REMAINING", "0"),
        ("x-ratelimit-reset", "2"),
    ]);
    let limit = RateLimit::new(&map).unwrap();
    assert_eq!((limit.limit, limit.remaining, limit.reset), (1, 0, 2));
}

#[test]
fn every_header_is_required() {
    let all = [
        ("x-ratelimit-limit", "120"),
        ("x-ratelimit-remaining", "119"),
        ("x-ratelimit-reset", "1700000060"),
    ];
    assert!(RateLimit::new(&headers(&all)).is_some());
    for skip in 0..3 {
        let some: Vec<_> = all
            .iter()
            .enumerate()
            .filter(|(i, _)| *i != skip)
            .map(|(_, p)| *p)
            .collect();
        assert!(RateLimit::new(&headers(&some)).is_none());
    }
    assert!(RateLimit::new(&HeaderMap::new()).is_none());
}

#[test]
fn header_values_must_be_numbers_that_fit() {
    let bad = [
        [("x-ratelimit-limit", "65536"), ("x-ratelimit-remaining", "1"), ("x-ratelimit-reset", "1")],
        [("x-ratelimit-limit", "1"), ("x-ratelimit-remaining", "-1"), ("x-ratelimit-reset", "1")],
        [("x-ratelimit-limit", "1"), ("x-ratelimit-remaining", "1"), ("x-ratelimit-reset", "soon")],
        [("x-ratelimit-limit", ""), ("x-ratelimit-remaining", "1"), ("x-ratelimit-reset", "1")],
        [("x-ratelimit-limit", "1"), ("x-ratelimit-remaining", "1"), ("x-ratelimit-reset", "18446744073709551616")],
    ];
    for pairs in bad.iter() {
        assert!(RateLimit::new(&headers(pairs)).is_none());
    }
    let edge = headers(&[
        ("x-ratelimit-limit", "65535"),
        ("x-ratelimit-remaining", "+7"),
        ("x-ratelimit-reset", "18446744073709551615"),
    ]);
    let limit = RateLimit::new(&edge).unwrap();
    assert_eq!((limit.limit, limit.remaining, limit.reset), (65535, 7, u64::MAX));
}

#[test]
fn the_first_value_of_a_header_counts() {
    let map = headers(&[
        ("x-ratelimit-limit", "10"),
        ("x-ratelimit-limit", "20"),
        ("x-ratelimit-remaining", "5"),
        ("x-ratelimit-reset", "7"),
    ]);
    assert_eq!(RateLimit::new(&map).unwrap().limit, 10);
}

#[test]
fn a_value_that_is_not_text_is_no_value() {
    let mut map = headers(&[("x-ratelimit-remaining", "5"), ("x-ratelimit-reset", "7")]);
    map.append("x-ratelimit-limit", HeaderValue::from_bytes(b"1\xff").unwrap());
    assert!(RateLimit::new(&map).is_none());
}

#[test]
fn rate_limit_from_values() {
    let limit = RateLimit::from_values(Some("3"), Some("2"), Some("1")).unwrap();
    assert_eq!((limit.limit, limit.remaining, limit.reset), (3, 2, 1));
    assert!(RateLimit::from_values(None, Some("2"), Some("1")).is_none());
    assert!(RateLimit::from_values(Some("3"), None, Some("1")).is_none());
    assert!(RateLimit::from_values(Some("3"), Some("2"), None).is_none());
    assert!(RateLimit::from_values(Some("3"), Some("2"), Some("1.5")).is_none());
}

#[test]
fn numerals_are_read_as_the_standard_library_reads_them() {
    let samples = [
        "0", "7", "42", "007", "+5", "+", "-", "-5", "", " 5", "5 ", "5a", "a5", "++5", "+-5",
        "65535", "65536", "99999", "18446744073709551615", "18446744073709551616",
        "184467440737095516150", "1_000", "٣", "５", "1e3", "0x10", "+0", "00000000000000000000001",
    ];
    for text in samples.iter() {
        assert_eq!(parse_u16(text), text.parse::<u16>().ok(), "{:?}", text);
        assert_eq!(parse_u64(text), text.parse::<u64>().ok(), "{:?}", text);
    }
}

#[test]
fn numerals_respect_the_bound() {
    assert_eq!(parse_decimal("100", 100), Some(100));
    assert_eq!(parse_decimal("101", 100), None);
    assert_eq!(parse_decimal("0", 0), Some(0));
    assert_eq!(parse_decimal("1", 0), None);
    assert_eq!(parse_decimal("9", 8), None);
    assert_eq!(parse_decimal("000", 0), Some(0));
}

#[test]
fn numbers_are_written_as_the_standard_library_writes_them() {
    for n in [0u64, 1, 9, 10, 11, 99, 100, 101, 65535, 65536, 1_700_000_000, u64::MAX - 1, u64::MAX] {
        assert_eq!(render_decimal(n), n.to_string());
        assert_eq!(parse_u64(&render_decimal(n)), Some(n));
    }
    assert_eq!(render_decimal(0), "0");
    assert_eq!(render_decimal(18446744073709551615), "18446744073709551615");
}
