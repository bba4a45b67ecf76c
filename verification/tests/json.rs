use dbx_core::json::{get_str, get_u64, JsonNumber, JsonValue};

#[test]
fn object_lookup_takes_first_member() {
    let v = JsonValue::Object(vec![
        ("a".to_string(), JsonValue::String("x".to_string())),
        ("a".to_string(), JsonValue::String("y".to_string())),
        ("n".to_string(), JsonValue::Number(JsonNumber::PosInt(3))),
        ("m".to_string(), JsonValue::Number(JsonNumber::NegInt(-3))),
        ("f".to_string(), JsonValue::Number(JsonNumber::Float("1.5".to_string()))),
    ]);
    assert_eq!(get_str(&v, "a"), Some("x".to_string()));
    assert_eq!(get_str(&v, "n"), None);
    assert_eq!(get_u64(&v, "n"), Some(3));
    assert_eq!(get_u64(&v, "m"), None);
    assert_eq!(get_u64(&v, "f"), None);
    assert!(v.get("zz").is_none());
    assert!(JsonValue::Null.get("a").is_none());
}
