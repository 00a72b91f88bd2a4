use earningsfeed::{join_comma, parse_u64, u64_to_string};

#[test]
fn test_u64_to_string_renders_decimal() {
    assert_eq!(u64_to_string(0), "0");
    assert_eq!(u64_to_string(7), "7");
    assert_eq!(u64_to_string(320193), "320193");
    assert_eq!(u64_to_string(u64::MAX), "18446744073709551615");
}

#[test]
fn test_parse_u64_accepts_decimal() {
    assert_eq!(parse_u64("0"), Some(0));
    assert_eq!(parse_u64("1703520000"), Some(1703520000));
    assert_eq!(parse_u64("007"), Some(7));
    assert_eq!(parse_u64("+42"), Some(42));
    assert_eq!(parse_u64("18446744073709551615"), Some(u64::MAX));
}

#[test]
fn test_parse_u64_rejects_garbage() {
    assert_eq!(parse_u64(""), None);
    assert_eq!(parse_u64("+"), None);
    assert_eq!(parse_u64("-1"), None);
    assert_eq!(parse_u64("12a"), None);
    assert_eq!(parse_u64("soon"), None);
    assert_eq!(parse_u64("18446744073709551616"), None);
}

#[test]
fn test_parse_roundtrips_rendering() {
    for n in [0u64, 1, 9, 10, 99, 100, 65535, u64::MAX] {
        assert_eq!(parse_u64(&u64_to_string(n)), Some(n));
    }
}

#[test]
fn test_join_comma() {
    let empty: Vec<&str> = vec![];
    assert_eq!(join_comma(&empty), "");
    assert_eq!(join_comma(&["10-K"]), "10-K");
    assert_eq!(join_comma(&["10-K", "10-Q"]), "10-K,10-Q");
    assert_eq!(join_comma(&["P", "S", "M"]), "P,S,M");
}
