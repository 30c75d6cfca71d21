use forge_runner::fork::{BlockId, ForkConfigError, RawForkParams, ValidatedForkConfig};
use forge_runner::text::{parse_u64_decimal, str_is_digits};

fn raw(url: &str, kind: &str, value: &str) -> RawForkParams {
    RawForkParams {
        url: String::from(url),
        block_id_type: String::from(kind),
        block_id_value: String::from(value),
    }
}

#[test]
fn block_number_is_parsed() {
    let cfg = ValidatedForkConfig::try_from(raw("http://example.com/rpc", "number", "123")).unwrap();
    assert!(matches!(cfg.block_id, BlockId::Number(123)));
    assert_eq!(cfg.url, "http://example.com/rpc");
}

#[test]
fn block_id_kind_is_case_insensitive() {
    let cfg = ValidatedForkConfig::try_from(raw("http://example.com", "Number", "7")).unwrap();
    assert!(matches!(cfg.block_id, BlockId::Number(7)));
}

#[test]
fn block_hash_keeps_its_digits() {
    // a caller checks the hash text before handing it over
    assert!(str_is_digits("98765"));
    assert!(!str_is_digits("98x65"));
    let cfg = ValidatedForkConfig::try_from(raw("http://example.com", "hash", "98765")).unwrap();
    match cfg.block_id {
        BlockId::Hash(h) => assert_eq!(h, "98765"),
        other => panic!("expected a hash, got {:?}", other),
    }
}

#[test]
fn latest_tag_is_accepted() {
    let cfg = ValidatedForkConfig::try_from(raw("http://example.com", "tag", "Latest")).unwrap();
    assert!(matches!(cfg.block_id, BlockId::Tag));
}

#[test]
fn unknown_block_id_kind_is_rejected() {
    let err = ValidatedForkConfig::try_from(raw("http://example.com", "height", "5")).unwrap_err();
    assert_eq!(err, ForkConfigError::InvalidBlockIdKind);
}

#[test]
fn invalid_url_is_rejected() {
    let err = ValidatedForkConfig::try_from(raw("not a url", "tag", "Latest")).unwrap_err();
    assert_eq!(err, ForkConfigError::InvalidUrl);
}

#[test]
fn url_is_normalized_by_the_parser() {
    let cfg = ValidatedForkConfig::try_from(raw("http://example.com", "tag", "Latest")).unwrap();
    // the parser adds the root path to an authority-only URL
    assert_eq!(cfg.url, "http://example.com/");
}

#[test]
fn decimal_parsing_covers_the_edges() {
    assert_eq!(parse_u64_decimal("0"), Some(0));
    assert_eq!(parse_u64_decimal("18446744073709551615"), Some(u64::MAX));
    assert_eq!(parse_u64_decimal("18446744073709551616"), None);
    assert_eq!(parse_u64_decimal(""), None);
    assert_eq!(parse_u64_decimal("12a"), None);
}
