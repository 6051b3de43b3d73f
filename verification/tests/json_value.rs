use chai_core::json::JsonValue;
use chai_core::text::str_eq;

fn s(x: &str) -> JsonValue {
    JsonValue::String(x.to_string())
}

fn obj(fields: Vec<(&str, JsonValue)>) -> JsonValue {
    JsonValue::Object(fields.into_iter().map(|(k, v)| (k.to_string(), v)).collect())
}

#[test]
fn get_finds_members() {
    let v = obj(vec![("a", s("x")), ("b", JsonValue::Bool(true))]);
    assert_eq!(v.get("a"), Some(&s("x")));
    assert_eq!(v.get("b"), Some(&JsonValue::Bool(true)));
    assert_eq!(v.get("c"), None);
}

#[test]
fn get_on_non_objects_is_none() {
    assert_eq!(JsonValue::Null.get("a"), None);
    assert_eq!(JsonValue::Array(vec![s("a")]).get("a"), None);
    assert_eq!(s("a").get("a"), None);
}

#[test]
fn first_member_wins() {
    let v = obj(vec![("k", s("first")), ("k", s("second"))]);
    assert_eq!(v.get("k"), Some(&s("first")));
    assert_eq!(v.take_key("k"), Some(s("first")));
}

#[test]
fn get_index_in_bounds_only() {
    let v = JsonValue::Array(vec![s("a"), s("b")]);
    assert_eq!(v.get_index(1), Some(&s("b")));
    assert_eq!(v.get_index(2), None);
    assert_eq!(obj(vec![("0", s("a"))]).get_index(0), None);
}

#[test]
fn as_str_only_for_strings() {
    assert_eq!(s("hi").as_str(), Some("hi"));
    assert_eq!(JsonValue::Number("1".to_string()).as_str(), None);
    assert_eq!(JsonValue::Null.as_str(), None);
}

#[test]
fn take_key_moves_value_out() {
    let v = obj(vec![("id", JsonValue::Number("7".to_string()))]);
    assert_eq!(v.take_key("id"), Some(JsonValue::Number("7".to_string())));
    assert_eq!(obj(vec![]).take_key("id"), None);
    assert_eq!(JsonValue::Null.take_key("id"), None);
}

#[test]
fn string_equality() {
    assert!(str_eq("abc", "abc"));
    assert!(!str_eq("abc", "abd"));
    assert!(!str_eq("abc", "ab"));
    assert!(str_eq("", ""));
    assert!(str_eq("héllo", "héllo"));
    assert!(!str_eq("é", "e"));
}
