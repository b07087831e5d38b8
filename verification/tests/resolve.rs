//! Tests for timeout resolution and the millisecond parser.

use blocking_invoker::config::resolve_timeout_ms;
use blocking_invoker::config::DEFAULT_TIMEOUT_MS;
use blocking_invoker::parse::parse_millis;

#[test]
fn parse_plain_number() {
    assert_eq!(parse_millis("150"), Some(150));
    assert_eq!(parse_millis("0"), Some(0));
    assert_eq!(parse_millis("7"), Some(7));
    assert_eq!(parse_millis("00042"), Some(42));
}

#[test]
fn parse_with_plus_sign() {
    assert_eq!(parse_millis("+07"), Some(7));
    assert_eq!(parse_millis("+0"), Some(0));
    assert_eq!(parse_millis("++1"), None);
    assert_eq!(parse_millis("+"), None);
}

#[test]
fn parse_rejects_non_digits() {
    assert_eq!(parse_millis(""), None);
    assert_eq!(parse_millis("12a"), None);
    assert_eq!(parse_millis("a12"), None);
    assert_eq!(parse_millis("-5"), None);
    assert_eq!(parse_millis(" 150"), None);
    assert_eq!(parse_millis("150 "), None);
    assert_eq!(parse_millis("1.5"), None);
}

#[test]
fn parse_at_the_limit() {
    assert_eq!(parse_millis("18446744073709551615"), Some(u64::MAX));
    assert_eq!(parse_millis("18446744073709551616"), None);
    assert_eq!(parse_millis("99999999999999999999999999"), None);
}

#[test]
fn default_when_nothing_is_given() {
    assert_eq!(resolve_timeout_ms(None, None), 150);
    assert_eq!(DEFAULT_TIMEOUT_MS, 150);
}

#[test]
fn default_when_environment_is_unparsable() {
    assert_eq!(resolve_timeout_ms(None, Some("abc")), 150);
    assert_eq!(resolve_timeout_ms(None, Some("")), 150);
    assert_eq!(resolve_timeout_ms(None, Some("-20")), 150);
}

#[test]
fn environment_value_applies_without_override() {
    assert_eq!(resolve_timeout_ms(None, Some("99")), 99);
    assert_eq!(resolve_timeout_ms(None, Some("0")), 0);
    assert_eq!(resolve_timeout_ms(None, Some("+300")), 300);
}

#[test]
fn explicit_override_wins() {
    assert_eq!(resolve_timeout_ms(Some(300), Some("99")), 300);
    assert_eq!(resolve_timeout_ms(Some(300), Some("abc")), 300);
    assert_eq!(resolve_timeout_ms(Some(300), None), 300);
    assert_eq!(resolve_timeout_ms(Some(0), Some("99")), 0);
    assert_eq!(resolve_timeout_ms(Some(u64::MAX), Some("1")), u64::MAX);
}
