use data_wizard::flags::strip_flags;
use data_wizard::text::{str_ends_with, str_eq, str_starts_with, str_trim};
use data_wizard::value::{integer_text, u64_text, value_to_text};
use data_wizard::{DynamicValue, FloatValue};

#[test]
fn strip_flags_debug_only() {
    let r = strip_flags("recent earthquakes --debug");
    assert_eq!(r.cache_key, "recent earthquakes");
    assert!(r.debug);
    assert!(!r.bust_cache);
}

#[test]
fn strip_flags_bust_only() {
    let r = strip_flags("recent earthquakes --bust-cache");
    assert_eq!(r.cache_key, "recent earthquakes");
    assert!(!r.debug);
    assert!(r.bust_cache);
}

#[test]
fn strip_flags_both() {
    let r = strip_flags("recent earthquakes --debug --bust-cache");
    assert_eq!(r.cache_key, "recent earthquakes");
    assert!(r.debug);
    assert!(r.bust_cache);
}

#[test]
fn strip_flags_none() {
    let r = strip_flags("recent earthquakes");
    assert_eq!(r.cache_key, "recent earthquakes");
    assert!(!r.debug);
    assert!(!r.bust_cache);
}

#[test]
fn strip_flags_marker_in_middle_is_plain_text() {
    let r = strip_flags("show --debug output of builds");
    assert_eq!(r.cache_key, "show --debug output of builds");
    assert!(!r.debug);
    assert!(!r.bust_cache);
}

#[test]
fn strip_flags_query_ending_in_debug_completes_combined_marker() {
    // A query that itself ends with the debug marker, followed by the
    // bust-cache marker, reads as the combined marker: priority order.
    let r = strip_flags("q --debug --bust-cache");
    assert_eq!(r.cache_key, "q");
    assert!(r.debug);
    assert!(r.bust_cache);
}

#[test]
fn strip_flags_strips_one_marker_only() {
    let r = strip_flags("q --debug --debug");
    assert_eq!(r.cache_key, "q --debug");
    assert!(r.debug);
    assert!(!r.bust_cache);
}

#[test]
fn ends_and_starts_with() {
    assert!(str_ends_with("hello world", "world"));
    assert!(!str_ends_with("hello world", "worlds"));
    assert!(str_ends_with("abc", ""));
    assert!(!str_ends_with("ab", "abc"));
    assert!(str_starts_with("hello", "he"));
    assert!(!str_starts_with("hello", "eh"));
}

#[test]
fn str_eq_compares_characters() {
    assert!(str_eq("abc", "abc"));
    assert!(!str_eq("abc", "abd"));
    assert!(!str_eq("abc", "ab"));
    assert!(str_eq("", ""));
}

#[test]
fn trim_removes_ascii_whitespace() {
    assert_eq!(str_trim("  hello \n"), "hello");
    assert_eq!(str_trim("\t\r\n "), "");
    assert_eq!(str_trim("x"), "x");
    assert_eq!(str_trim(""), "");
    assert_eq!(str_trim("a b"), "a b");
}

#[test]
fn decimal_rendering() {
    assert_eq!(u64_text(0), "0");
    assert_eq!(u64_text(7), "7");
    assert_eq!(u64_text(2048), "2048");
    assert_eq!(integer_text(0), "0");
    assert_eq!(integer_text(-42), "-42");
    assert_eq!(integer_text(i64::MAX), "9223372036854775807");
    assert_eq!(integer_text(i64::MIN), "-9223372036854775808");
}

#[test]
fn universal_stringification() {
    assert_eq!(value_to_text(&DynamicValue::String("x".to_string())), "x");
    assert_eq!(value_to_text(&DynamicValue::Integer(-5)), "-5");
    assert_eq!(value_to_text(&DynamicValue::Boolean(true)), "true");
    assert_eq!(value_to_text(&DynamicValue::Boolean(false)), "false");
    assert_eq!(value_to_text(&DynamicValue::Null), "");
    let f = FloatValue { bits: 2.5f64.to_bits(), text: 2.5f64.to_string(), trunc: 2.5f64 as i64 };
    assert_eq!(value_to_text(&DynamicValue::Float(f)), "2.5");
}
