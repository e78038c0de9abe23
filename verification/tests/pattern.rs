use serde_valid::validation::{Pattern, PatternCache, ValidatePattern};
use serde_valid::validate_string_pattern;
use std::borrow::Cow;

#[test]
fn pattern_compiles_what_the_engine_accepts() {
    let pattern = Pattern::new(r"^\d{4}-\d{2}-\d{2}$").unwrap();
    assert_eq!(pattern.as_str(), r"^\d{4}-\d{2}-\d{2}$");
}

#[test]
fn pattern_refuses_what_the_engine_refuses() {
    let invalid = Pattern::new("invalid -> (").err().unwrap();
    assert_eq!(invalid.source, "invalid -> (");
    assert!(Pattern::new(r"\w{1000}").is_err());
}

#[test]
fn pattern_matches_anywhere_in_the_text() {
    let pattern = Pattern::new(r"\d+").unwrap();
    assert!(pattern.is_match("abc 123"));
    assert!(!pattern.is_match("abc"));
    assert!(!pattern.is_match(r"\d+"));
    let anchored = Pattern::new(r"^\d+$").unwrap();
    assert!(anchored.is_match("123"));
    assert!(!anchored.is_match("abc 123"));
}

#[test]
fn pattern_check_carries_the_source_of_the_pattern() {
    let pattern = Pattern::new(r"^\d{4}-\d{2}-\d{2}$").unwrap();
    assert!(validate_string_pattern("2020-09-10", &pattern).is_ok());
    let params = validate_string_pattern("2020/09/10", &pattern).unwrap_err();
    assert_eq!(params.pattern(), r"^\d{4}-\d{2}-\d{2}$");
}

#[test]
fn pattern_of_every_text_type() {
    let pattern = Pattern::new(r"^[a-z]+$").unwrap();
    assert!("abc".validate_pattern(&pattern).is_ok());
    assert!((&"abc").validate_pattern(&pattern).is_ok());
    assert!(String::from("ABC").validate_pattern(&pattern).is_err());
    assert!(Cow::from("abc").validate_pattern(&pattern).is_ok());
    assert!(Cow::<'_, str>::Owned(String::from("a1")).validate_pattern(&pattern).is_err());
}

#[test]
fn cache_compiles_each_source_once() {
    let mut cache = PatternCache::new();
    assert_eq!(cache.len(), 0);
    assert_eq!(cache.find("a+"), None);
    assert_eq!(cache.get_or_compile("a+").unwrap(), 0);
    assert_eq!(cache.get_or_compile("b+").unwrap(), 1);
    assert_eq!(cache.get_or_compile("a+").unwrap(), 0);
    assert_eq!(cache.len(), 2);
    assert_eq!(cache.find("b+"), Some(1));
    assert_eq!(cache.get(0).as_str(), "a+");
    assert!(cache.get(1).is_match("abb"));
    assert!(!cache.get(0).is_match("bbb"));
}

#[test]
fn cache_is_left_alone_by_a_source_that_does_not_compile() {
    let mut cache = PatternCache::new();
    cache.get_or_compile("a+").unwrap();
    let invalid = cache.get_or_compile("(").err().unwrap();
    assert_eq!(invalid.source, "(");
    assert_eq!(cache.len(), 1);
    assert_eq!(cache.find("("), None);
    assert_eq!(cache.get(0).as_str(), "a+");
}

#[test]
fn pattern_attempt_is_handed_on() {
    let made = Pattern::made_or_refused(Pattern::new("a+").ok(), "a+").unwrap();
    assert_eq!(made.as_str(), "a+");
    let refused = Pattern::made_or_refused(None, "(").err().unwrap();
    assert_eq!(refused.source, "(");
}

#[test]
fn pattern_copy_matches_like_the_pattern() {
    let pattern = Pattern::new(r"^\d+$").unwrap();
    let copy = pattern.clone();
    assert_eq!(copy.as_str(), r"^\d+$");
    assert!(copy.is_match("123"));
    assert!(!copy.is_match("12a"));
}

#[test]
fn cache_keeps_what_was_compiled() {
    let mut cache = PatternCache::new();
    assert_eq!(cache.keep(Pattern::new("a+")).unwrap(), 0);
    assert_eq!(cache.keep(Pattern::new("b+")).unwrap(), 1);
    assert_eq!(cache.keep(Pattern::new("a+")).unwrap(), 0);
    assert_eq!(cache.len(), 2);
    let refused = cache.keep(Pattern::new("(")).err().unwrap();
    assert_eq!(refused.source, "(");
    assert_eq!(cache.len(), 2);
    assert_eq!(cache.get(1).as_str(), "b+");
}
