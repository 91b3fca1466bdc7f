//! Tests of the structured renderer and the serializer.

use ipinfo::render::render_plain;
use ipinfo::serialize::serialized;
use ipinfo::text::decimal_of;
use ipinfo::value::StructuredValue;

fn text(s: &str) -> StructuredValue {
    StructuredValue::Text(s.to_string())
}

fn mapping(entries: Vec<(&str, StructuredValue)>) -> StructuredValue {
    StructuredValue::Mapping(
        entries.into_iter().map(|(k, v)| (k.to_string(), v)).collect(),
    )
}

#[test]
fn renders_flat_mapping_in_order() {
    let v = mapping(vec![("ip", text("8.8.8.8")), ("country", text("US"))]);
    let lines = render_plain(&v);
    assert_eq!(lines, vec!["ip: \"8.8.8.8\"", "country: \"US\""]);
}

#[test]
fn renders_reversed_order_as_stored() {
    let v = mapping(vec![("country", text("US")), ("ip", text("8.8.8.8"))]);
    let lines = render_plain(&v);
    assert_eq!(lines, vec!["country: \"US\"", "ip: \"8.8.8.8\""]);
}

#[test]
fn suppresses_sentinel_entry() {
    let inner = mapping(vec![("secret", text("x"))]);
    let v = mapping(vec![("tokenDetails", inner), ("ip", text("1.1.1.1"))]);
    let lines = render_plain(&v);
    assert_eq!(lines, vec!["ip: \"1.1.1.1\""]);
    for line in &lines {
        assert!(!line.contains("tokenDetails"));
        assert!(!line.contains("secret"));
    }
}

#[test]
fn suppresses_sentinel_at_depth() {
    let deep = mapping(vec![
        ("kept", text("yes")),
        ("tokenDetails", mapping(vec![("secret", text("x"))])),
    ]);
    let v = mapping(vec![("outer", deep)]);
    let lines = render_plain(&v);
    assert_eq!(lines, vec!["outer:", "  kept: \"yes\""]);
}

#[test]
fn sentinel_match_is_exact() {
    let v = mapping(vec![
        ("tokendetails", text("kept")),
        ("tokenDetailsX", text("kept too")),
    ]);
    let lines = render_plain(&v);
    assert_eq!(
        lines,
        vec!["tokendetails: \"kept\"", "tokenDetailsX: \"kept too\""]
    );
}

#[test]
fn rendering_is_idempotent() {
    let v = mapping(vec![
        ("a", StructuredValue::Number("1".to_string())),
        ("b", StructuredValue::Sequence(vec![text("x"), StructuredValue::Null])),
    ]);
    let first = render_plain(&v);
    let second = render_plain(&v);
    assert_eq!(first, second);
}

#[test]
fn renders_empty_mapping_as_bare_key() {
    let v = mapping(vec![("empty", StructuredValue::Mapping(vec![]))]);
    let lines = render_plain(&v);
    assert_eq!(lines, vec!["empty:"]);
}

#[test]
fn renders_empty_sequence_as_open_close() {
    let v = mapping(vec![("empty", StructuredValue::Sequence(vec![]))]);
    let lines = render_plain(&v);
    assert_eq!(lines, vec!["empty: [", "]"]);
}

#[test]
fn renders_sequence_items_flat() {
    let obj = mapping(vec![("a", StructuredValue::Boolean(true))]);
    let v = mapping(vec![(
        "xs",
        StructuredValue::Sequence(vec![
            StructuredValue::Number("1".to_string()),
            obj,
            text("s"),
        ]),
    )]);
    let lines = render_plain(&v);
    assert_eq!(
        lines,
        vec!["xs: [", "  1", "  {\"a\":true}", "  \"s\"", "]"]
    );
}

#[test]
fn renders_nested_mappings_with_indentation() {
    let v = mapping(vec![(
        "outer",
        mapping(vec![("inner", mapping(vec![("leaf", text("v"))]))]),
    )]);
    let lines = render_plain(&v);
    assert_eq!(lines, vec!["outer:", "  inner:", "    leaf: \"v\""]);
}

#[test]
fn renders_nothing_for_non_mapping_document() {
    let lines = render_plain(&StructuredValue::Null);
    assert!(lines.is_empty());
}

#[test]
fn serializes_scalars() {
    assert_eq!(serialized(&StructuredValue::Null), "null");
    assert_eq!(serialized(&StructuredValue::Boolean(true)), "true");
    assert_eq!(serialized(&StructuredValue::Boolean(false)), "false");
    assert_eq!(serialized(&StructuredValue::Number("3.5".to_string())), "3.5");
    assert_eq!(serialized(&text("hi")), "\"hi\"");
}

#[test]
fn serializes_with_escapes() {
    let v = text("a\"b\\c\nd\re\tf");
    assert_eq!(serialized(&v), "\"a\\\"b\\\\c\\nd\\re\\tf\"");
}

#[test]
fn serializes_nested_structures() {
    let v = mapping(vec![
        ("a", StructuredValue::Sequence(vec![StructuredValue::Number("1".to_string())])),
        ("b", mapping(vec![("c", StructuredValue::Null)])),
    ]);
    assert_eq!(serialized(&v), "{\"a\":[1],\"b\":{\"c\":null}}");
}

#[test]
fn formats_decimals() {
    assert_eq!(decimal_of(0), "0");
    assert_eq!(decimal_of(7), "7");
    assert_eq!(decimal_of(403), "403");
    assert_eq!(decimal_of(65535), "65535");
}
