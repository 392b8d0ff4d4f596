//! Filter expressions: parsing, display and matching against event payloads.
use granary::json::{parse_value, JsonValue};
use granary::services::filter::{matches_all, matches_any, parse_filters, Filter, FilterOp};

/// Parses JSON text for a test payload.
fn val(text: &str) -> JsonValue {
    parse_value(text).unwrap()
}


#[test]
fn test_parse_equality_filter() {
    let filter = Filter::parse("status=active").unwrap();
    assert_eq!(filter.field, "status");
    assert_eq!(filter.op, FilterOp::Eq);
    assert_eq!(filter.value, "active");
}

#[test]
fn test_parse_inequality_filter() {
    let filter = Filter::parse("status!=draft").unwrap();
    assert_eq!(filter.field, "status");
    assert_eq!(filter.op, FilterOp::NotEq);
    assert_eq!(filter.value, "draft");
}

#[test]
fn test_parse_contains_filter() {
    let filter = Filter::parse("name~=test").unwrap();
    assert_eq!(filter.field, "name");
    assert_eq!(filter.op, FilterOp::Contains);
    assert_eq!(filter.value, "test");
}

#[test]
fn test_parse_with_whitespace() {
    let filter = Filter::parse("  status  =  active  ").unwrap();
    assert_eq!(filter.field, "status");
    assert_eq!(filter.value, "active");
}

#[test]
fn test_parse_invalid_filter() {
    assert!(Filter::parse("invalid").is_err());
    assert!(Filter::parse("").is_err());
    assert!(Filter::parse("=value").is_err());
}

#[test]
fn test_matches_equality() {
    let filter = Filter::parse("status=active").unwrap();
    let payload = val(r#"{"status": "active"}"#);
    assert!(filter.matches(&payload));

    let payload = val(r#"{"status": "inactive"}"#);
    assert!(!filter.matches(&payload));
}

#[test]
fn test_matches_inequality() {
    let filter = Filter::parse("status!=draft").unwrap();
    let payload = val(r#"{"status": "active"}"#);
    assert!(filter.matches(&payload));

    let payload = val(r#"{"status": "draft"}"#);
    assert!(!filter.matches(&payload));
}

#[test]
fn test_matches_contains() {
    let filter = Filter::parse("name~=test").unwrap();
    let payload = val(r#"{"name": "my-test-project"}"#);
    assert!(filter.matches(&payload));

    let payload = val(r#"{"name": "my-project"}"#);
    assert!(!filter.matches(&payload));
}

#[test]
fn test_matches_nested_field() {
    let filter = Filter::parse("task.status=done").unwrap();
    let payload = val(r#"{"task": {"status": "done", "id": "123"}}"#);
    assert!(filter.matches(&payload));

    let payload = val(r#"{"task": {"status": "pending"}}"#);
    assert!(!filter.matches(&payload));
}

#[test]
fn test_matches_number() {
    let filter = Filter::parse("count=42").unwrap();
    let payload = val(r#"{"count": 42}"#);
    assert!(filter.matches(&payload));

    let payload = val(r#"{"count": 41}"#);
    assert!(!filter.matches(&payload));
}

#[test]
fn test_matches_boolean() {
    let filter = Filter::parse("active=true").unwrap();
    let payload = val(r#"{"active": true}"#);
    assert!(filter.matches(&payload));

    let payload = val(r#"{"active": false}"#);
    assert!(!filter.matches(&payload));
}

#[test]
fn test_matches_missing_field() {
    let filter = Filter::parse("missing=").unwrap();
    let payload = val(r#"{"other": "value"}"#);
    assert!(filter.matches(&payload));

    let filter = Filter::parse("missing!=").unwrap();
    assert!(!filter.matches(&payload));
}

#[test]
fn test_matches_all_filters() {
    let filters =
        parse_filters(&["status=active".to_string(), "priority!=low".to_string()]).unwrap();

    let payload = val(r#"{"status": "active", "priority": "high"}"#);
    assert!(matches_all(&filters, &payload));

    let payload = val(r#"{"status": "active", "priority": "low"}"#);
    assert!(!matches_all(&filters, &payload));
}

#[test]
fn test_deeply_nested_field() {
    let filter = Filter::parse("a.b.c.d=value").unwrap();
    let payload = val(r#"{"a": {"b": {"c": {"d": "value"}}}}"#);
    assert!(filter.matches(&payload));
}

#[test]
fn test_array_indexing() {
    let filter = Filter::parse("items.0.name=first").unwrap();
    let payload = val(r#"{"items": [{"name": "first"}, {"name": "second"}]}"#);
    assert!(filter.matches(&payload));
}
