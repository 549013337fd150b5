//! The configuration constructor and the decimal parser behind it.

use authpost::settings::{parse_i64, EnvSettings};

#[test]
fn parses_plain_numerals() {
    assert_eq!(parse_i64("0"), Some(0));
    assert_eq!(parse_i64("42"), Some(42));
    assert_eq!(parse_i64("-7"), Some(-7));
    assert_eq!(parse_i64("+13"), Some(13));
    assert_eq!(parse_i64("00042"), Some(42));
    assert_eq!(parse_i64("-000000000000000000000005"), Some(-5));
}

#[test]
fn parses_the_extremes_exactly() {
    assert_eq!(parse_i64("9223372036854775807"), Some(i64::MAX));
    assert_eq!(parse_i64("-9223372036854775808"), Some(i64::MIN));
    assert_eq!(parse_i64("9223372036854775808"), None);
    assert_eq!(parse_i64("-9223372036854775809"), None);
    assert_eq!(parse_i64("99999999999999999999999"), None);
}

#[test]
fn rejects_malformed_numerals() {
    assert_eq!(parse_i64(""), None);
    assert_eq!(parse_i64("-"), None);
    assert_eq!(parse_i64("+"), None);
    assert_eq!(parse_i64("12a"), None);
    assert_eq!(parse_i64("a12"), None);
    assert_eq!(parse_i64("1 2"), None);
    assert_eq!(parse_i64(" 12"), None);
    assert_eq!(parse_i64("--5"), None);
    assert_eq!(parse_i64("+-5"), None);
}

#[test]
fn settings_require_a_positive_window() {
    let made = EnvSettings::from_values("root".to_string(), "secret".to_string(), "60")
        .expect("valid window");
    assert_eq!(made.db_collection_path, "root");
    assert_eq!(made.user_jwt_secret, "secret");
    assert_eq!(made.user_jwt_expiration_minutes, 60);

    assert!(EnvSettings::from_values("root".to_string(), "secret".to_string(), "0").is_none());
    assert!(EnvSettings::from_values("root".to_string(), "secret".to_string(), "-5").is_none());
    assert!(EnvSettings::from_values("root".to_string(), "secret".to_string(), "abc").is_none());
    assert!(EnvSettings::from_values("root".to_string(), "secret".to_string(), "").is_none());
}
