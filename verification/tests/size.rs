use shred::files::{get_size_to_write, parse_size, SizeError};

#[test]
fn test_parse_size() {
    assert_eq!(Ok(126 as u64), parse_size("126"));
    assert_eq!(Ok(1234 * 1024 as u64), parse_size("1234K"));
    assert_eq!(Ok(1234 * 1024 as u64), parse_size("1234k"));
    assert_eq!(Ok(846 * 1024 * 1024 as u64), parse_size("846M"));
    assert_eq!(Ok(846 * 1024 * 1024 as u64), parse_size("846m"));
    assert_eq!(Ok(54638 * 1024 * 1024 * 1024 as u64), parse_size("54638G"));
    assert_eq!(Ok(54638 * 1024 * 1024 * 1024 as u64), parse_size("54638g"));
    assert_eq!(Ok(12), get_size_to_write(false, "684", 12 as u64));
    assert_eq!(Ok(684), get_size_to_write(true, "684", 12 as u64));
}

#[test]
fn parse_size_gives_exact_byte_counts() {
    assert_eq!(parse_size("684"), Ok(684));
    assert_eq!(parse_size("1234K"), Ok(1263616));
    assert_eq!(parse_size("1234k"), Ok(1263616));
    assert_eq!(parse_size("846M"), Ok(887095296));
    assert_eq!(parse_size("54638G"), Ok(58667105779712));
}

#[test]
fn parse_size_rejects_what_is_no_size() {
    assert_eq!(parse_size(""), Err(SizeError::InvalidNumber));
    assert_eq!(parse_size("k"), Err(SizeError::InvalidNumber));
    assert_eq!(parse_size("12x4"), Err(SizeError::InvalidNumber));
    assert_eq!(parse_size("-1"), Err(SizeError::InvalidNumber));
    assert_eq!(parse_size("12kk"), Err(SizeError::InvalidNumber));
    assert_eq!(parse_size("12x"), Err(SizeError::UnknownSuffix));
    assert_eq!(parse_size("12\u{e9}"), Err(SizeError::UnknownSuffix));
    assert_eq!(parse_size("18446744073709551616"), Err(SizeError::TooLarge));
    assert_eq!(parse_size("17179869184G"), Err(SizeError::TooLarge));
}
