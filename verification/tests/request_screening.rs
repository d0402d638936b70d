use backend::json::{json_contains_null_byte, json_equal, JsonValue};
use backend::screening::{screen_body, screen_json_body, screen_path, BodyCheck, Rejection};

fn obj(members: Vec<(&str, JsonValue)>) -> JsonValue {
    JsonValue::Object(members.into_iter().map(|(k, v)| (k.to_string(), v)).collect())
}

#[test]
fn path_with_encoded_nul_is_refused() {
    assert_eq!(screen_path("/api/notes/%00"), Some(Rejection::NullInPath));
    assert_eq!(Rejection::NullInPath.status(), 400);
    assert_eq!(Rejection::NullInPath.message(), "request path must not contain null bytes");
}

#[test]
fn ordinary_path_passes() {
    assert_eq!(screen_path("/api/notes/%E3%83%8E%E3%83%BC%E3%83%88"), None);
    assert_eq!(screen_path("/api/notes/100%"), None);
}

#[test]
fn path_that_is_not_utf8_once_decoded_passes_screening() {
    assert_eq!(screen_path("/api/%FF%00"), None);
}

#[test]
fn oversized_body_is_refused() {
    let r = screen_body(None, None);
    assert_eq!(r, BodyCheck::Reject(Rejection::BodyTooLarge));
    assert_eq!(Rejection::BodyTooLarge.status(), 413);
    assert_eq!(Rejection::BodyTooLarge.message(), "request body too large");
}

#[test]
fn raw_nul_byte_in_body_is_refused() {
    assert_eq!(screen_body(Some(b"ab\0c".as_slice()), None), BodyCheck::Reject(Rejection::NullInBody));
}

#[test]
fn json_body_is_parsed_only_with_json_content_type() {
    let body = br#"{"a":"\u0000"}"#.as_slice();
    assert_eq!(screen_body(Some(body), Some(b"application/json; charset=utf-8".as_slice())), BodyCheck::ParseJson);
    assert_eq!(screen_body(Some(body), Some(b"text/plain".as_slice())), BodyCheck::Pass);
    assert_eq!(screen_body(Some(b"".as_slice()), Some(b"application/json".as_slice())), BodyCheck::Pass);
    assert_eq!(screen_body(Some(body), Some([b'a', 0xff].as_slice())), BodyCheck::Pass);
}

#[test]
fn nul_inside_json_string_is_refused() {
    let v = obj(vec![("a", JsonValue::Array(vec![JsonValue::String("x\0y".into())]))]);
    assert!(json_contains_null_byte(&v));
    assert_eq!(screen_json_body(Some(&v)), Some(Rejection::NullInBody));
    assert_eq!(Rejection::NullInBody.message(), "request body must not contain null bytes");
}

#[test]
fn nul_in_object_key_is_not_inspected() {
    let v = obj(vec![("a\0", JsonValue::Bool(true))]);
    assert!(!json_contains_null_byte(&v));
    assert_eq!(screen_json_body(Some(&v)), None);
    assert_eq!(screen_json_body(None), None);
}

#[test]
fn json_equality_is_structural() {
    let a = obj(vec![("x", JsonValue::Number("1".into()))]);
    let b = obj(vec![("x", JsonValue::Number("1".into()))]);
    let c = obj(vec![("x", JsonValue::Number("2".into()))]);
    assert!(json_equal(&a, &b));
    assert!(!json_equal(&a, &c));
    assert!(json_equal(&a, &a));
}

#[test]
fn json_equality_treats_float_zeros_as_equal() {
    let zero = JsonValue::Number(serde_json::Number::from_f64(0.0).expect("finite").to_string());
    let negative_zero = JsonValue::Number(serde_json::Number::from_f64(-0.0).expect("finite").to_string());
    assert!(json_equal(&zero, &negative_zero));
    assert!(!json_equal(&JsonValue::Number("0".into()), &zero));
    assert!(!json_equal(&JsonValue::Number("1".into()), &JsonValue::Number("1.0".into())));
    let a: serde_json::Value = serde_json::from_str("[0.0]").expect("json");
    let b: serde_json::Value = serde_json::from_str("[-0.0]").expect("json");
    assert_eq!(a == b, true);
}
