use particle_sim::cli::{parse_count, DEFAULT_PARTICLE_COUNT};

#[test]
fn parses_plain_decimal_counts() {
    assert_eq!(parse_count(b"0"), Some(0));
    assert_eq!(parse_count(b"1"), Some(1));
    assert_eq!(parse_count(b"100000"), Some(100_000));
    assert_eq!(parse_count(b"007"), Some(7));
    assert_eq!(parse_count(b"4294967295"), Some(u32::MAX));
}

#[test]
fn accepts_one_leading_plus_sign() {
    assert_eq!(parse_count(b"+5"), Some(5));
    assert_eq!(parse_count(b"+0"), Some(0));
    assert_eq!(parse_count(b"+4294967295"), Some(u32::MAX));
    assert_eq!(parse_count(b"+"), None);
    assert_eq!(parse_count(b"++5"), None);
    assert_eq!(parse_count(b"5+"), None);
}

#[test]
fn rejects_malformed_counts() {
    assert_eq!(parse_count(b""), None);
    assert_eq!(parse_count(b"abc"), None);
    assert_eq!(parse_count(b"12a"), None);
    assert_eq!(parse_count(b"-5"), None);
    assert_eq!(parse_count(b"1 2"), None);
    assert_eq!(parse_count(b"12.5"), None);
}

#[test]
fn rejects_counts_that_overflow() {
    assert_eq!(parse_count(b"4294967296"), None);
    assert_eq!(parse_count(b"99999999999999999999"), None);
}

#[test]
fn default_count_matches_the_cli_surface() {
    assert_eq!(DEFAULT_PARTICLE_COUNT, 100_000);
}
