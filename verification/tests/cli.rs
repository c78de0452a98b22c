use xdiff::cli::{classify, parse_key_val, KeyVal, KeyValError, KeyValType};
use xdiff::ExtraArgs;

fn kv(key: &str, value: &str, key_type: KeyValType) -> KeyVal {
    KeyVal { key: key.to_string(), value: value.to_string(), key_type }
}

#[test]
fn query_override_has_no_prefix() {
    assert_eq!(parse_key_val("a=1"), Ok(kv("a", "1", KeyValType::Query)));
}

#[test]
fn header_override_starts_with_percent() {
    assert_eq!(
        parse_key_val("%Content-Type=text/plain"),
        Ok(kv("Content-Type", "text/plain", KeyValType::Header))
    );
}

#[test]
fn body_override_starts_with_at() {
    assert_eq!(parse_key_val("@name=\"x\""), Ok(kv("name", "\"x\"", KeyValType::Body)));
}

#[test]
fn key_and_value_are_trimmed() {
    assert_eq!(parse_key_val("  a = 1  "), Ok(kv("a", "1", KeyValType::Query)));
    assert_eq!(parse_key_val("\t@b\u{a0}=\u{2003}2\n"), Ok(kv("b", "2", KeyValType::Body)));
}

#[test]
fn token_is_cut_at_the_first_equals_sign() {
    assert_eq!(parse_key_val("a=b=c"), Ok(kv("a", "b=c", KeyValType::Query)));
    assert_eq!(parse_key_val("a="), Ok(kv("a", "", KeyValType::Query)));
}

#[test]
fn key_after_prefix_is_not_trimmed_again() {
    assert_eq!(parse_key_val("% a=1"), Ok(kv(" a", "1", KeyValType::Header)));
}

#[test]
fn token_without_equals_sign_is_refused() {
    assert_eq!(parse_key_val("abc"), Err(KeyValError::MissingValue));
    assert_eq!(parse_key_val(""), Err(KeyValError::MissingValue));
}

#[test]
fn empty_key_is_refused() {
    assert_eq!(parse_key_val("=1"), Err(KeyValError::InvalidKeyType));
    assert_eq!(parse_key_val("   =1"), Err(KeyValError::InvalidKeyType));
    assert_eq!(parse_key_val("%=1"), Err(KeyValError::EmptyKey));
    assert_eq!(parse_key_val("@=1"), Err(KeyValError::EmptyKey));
}

#[test]
fn key_of_unknown_class_is_refused() {
    assert_eq!(parse_key_val("1a=2"), Err(KeyValError::InvalidKeyType));
    assert_eq!(parse_key_val("#a=2"), Err(KeyValError::InvalidKeyType));
    assert_eq!(parse_key_val("é=2"), Err(KeyValError::InvalidKeyType));
}

#[test]
fn errors_have_messages() {
    assert_ne!(KeyValError::MissingValue.message(), KeyValError::InvalidKeyType.message());
    assert_ne!(KeyValError::EmptyKey.message(), KeyValError::InvalidKeyType.message());
}

#[test]
fn overrides_are_sorted_by_class_in_their_order() {
    let args = ExtraArgs::from(vec![
        kv("a", "1", KeyValType::Query),
        kv("h", "x", KeyValType::Header),
        kv("b", "2", KeyValType::Body),
        kv("c", "3", KeyValType::Query),
        kv("h", "y", KeyValType::Header),
    ]);
    let pair = |k: &str, v: &str| (k.to_string(), v.to_string());
    assert_eq!(args.querys, vec![pair("a", "1"), pair("c", "3")]);
    assert_eq!(args.headers, vec![pair("h", "x"), pair("h", "y")]);
    assert_eq!(args.bodys, vec![pair("b", "2")]);
}

#[test]
fn no_overrides_by_default() {
    let args = ExtraArgs::default();
    assert!(args.headers.is_empty() && args.querys.is_empty() && args.bodys.is_empty());
    assert_eq!(ExtraArgs::from(Vec::new()), args);
}

#[test]
fn trimmed_key_decides_the_class() {
    assert_eq!(classify("a", "1"), Ok(kv("a", "1", KeyValType::Query)));
    assert_eq!(classify("Z9", ""), Ok(kv("Z9", "", KeyValType::Query)));
    assert_eq!(classify("%h", "v"), Ok(kv("h", "v", KeyValType::Header)));
    assert_eq!(classify("@b", "v"), Ok(kv("b", "v", KeyValType::Body)));
    assert_eq!(classify("%%", "v"), Ok(kv("%", "v", KeyValType::Header)));
    assert_eq!(classify("", "v"), Err(KeyValError::InvalidKeyType));
    assert_eq!(classify("%", "v"), Err(KeyValError::EmptyKey));
    assert_eq!(classify("@", "v"), Err(KeyValError::EmptyKey));
    assert_eq!(classify(" a", "v"), Err(KeyValError::InvalidKeyType));
    assert_eq!(classify("[", "v"), Err(KeyValError::InvalidKeyType));
    assert_eq!(classify("`", "v"), Err(KeyValError::InvalidKeyType));
    assert_eq!(classify("{", "v"), Err(KeyValError::InvalidKeyType));
}

#[test]
fn white_space_of_every_kind_is_trimmed() {
    let spaces = [
        '\u{9}', '\u{a}', '\u{b}', '\u{c}', '\u{d}', ' ', '\u{85}', '\u{a0}', '\u{1680}', '\u{2000}',
        '\u{2005}', '\u{200a}', '\u{2028}', '\u{2029}', '\u{202f}', '\u{205f}', '\u{3000}',
    ];
    for c in spaces {
        let token = format!("{}key{}={}v{}", c, c, c, c);
        assert_eq!(parse_key_val(&token), Ok(kv("key", "v", KeyValType::Query)));
    }
}

#[test]
fn characters_that_are_no_white_space_stay() {
    for c in ['\u{8}', '\u{e}', '\u{1f}', '\u{200b}', '\u{2060}', '\u{feff}', '\u{180e}'] {
        let value = format!("{}v{}", c, c);
        assert_eq!(
            parse_key_val(&format!("key={}", value)),
            Ok(kv("key", &value, KeyValType::Query))
        );
        assert_eq!(parse_key_val(&format!("{}key=v", c)), Err(KeyValError::InvalidKeyType));
    }
}
