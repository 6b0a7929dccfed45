use proto::text::to_chars;
use proto::version::{
    best_match, contains_version, parse_partial, parse_version, u64_to_string, version_le,
    version_to_string, Version,
};

fn v(major: u64, minor: u64, patch: u64) -> Version {
    Version { major, minor, patch }
}

fn parse(s: &str) -> Option<Version> {
    parse_version(&to_chars(s))
}

#[test]
fn parses_full_versions() {
    assert_eq!(parse("18.0.0"), Some(v(18, 0, 0)));
    assert_eq!(parse("0.1.2"), Some(v(0, 1, 2)));
    assert_eq!(parse("10.1"), None);
    assert_eq!(parse("18.0.0.1"), None);
    assert_eq!(parse("a.b.c"), None);
    assert_eq!(parse(""), None);
    assert_eq!(parse("1..2"), None);
}

#[test]
fn parse_rejects_numbers_that_overflow() {
    assert_eq!(parse("18446744073709551615.0.0"), Some(v(u64::MAX, 0, 0)));
    assert_eq!(parse("18446744073709551616.0.0"), None);
}

#[test]
fn formats_and_reparses() {
    for ver in [v(18, 0, 0), v(0, 0, 0), v(12, 34, 56), v(u64::MAX, 1, 2)] {
        let s = version_to_string(&ver);
        assert_eq!(parse(&s), Some(ver));
    }
    assert_eq!(version_to_string(&v(16, 14, 0)), "16.14.0");
}

#[test]
fn renders_numbers_in_decimal() {
    assert_eq!(u64_to_string(0), "0");
    assert_eq!(u64_to_string(907), "907");
    assert_eq!(u64_to_string(u64::MAX), "18446744073709551615");
}

#[test]
fn parses_partial_requirements() {
    assert_eq!(parse_partial(&to_chars("10")), Some((10, None)));
    assert_eq!(parse_partial(&to_chars("10.1")), Some((10, Some(1))));
    assert_eq!(parse_partial(&to_chars("10.*")), Some((10, None)));
    assert_eq!(parse_partial(&to_chars("10.1.*")), Some((10, Some(1))));
    assert_eq!(parse_partial(&to_chars("10.1.2.3")), None);
    assert_eq!(parse_partial(&to_chars("lts")), None);
}

#[test]
fn orders_versions_lexicographically() {
    assert!(version_le(&v(1, 9, 9), &v(2, 0, 0)));
    assert!(version_le(&v(2, 0, 0), &v(2, 0, 0)));
    assert!(!version_le(&v(2, 0, 1), &v(2, 0, 0)));
    assert!(version_le(&v(2, 0, 0), &v(2, 1, 0)));
}

#[test]
fn best_match_picks_the_highest() {
    let list = vec![v(10, 1, 0), v(10, 1, 9), v(10, 2, 0), v(16, 0, 0)];
    assert_eq!(best_match(&list, 10, Some(1)), Some(v(10, 1, 9)));
    assert_eq!(best_match(&list, 10, None), Some(v(10, 2, 0)));
    assert_eq!(best_match(&list, 99, None), None);
}

#[test]
fn contains_version_is_membership() {
    let list = vec![v(1, 0, 0), v(2, 0, 0)];
    assert!(contains_version(&list, &v(2, 0, 0)));
    assert!(!contains_version(&list, &v(3, 0, 0)));
}
