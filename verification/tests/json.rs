use sdkwork_shop::json::{JsonObject, JsonValue, Payload};

#[test]
fn insert_replaces_in_place_and_appends_new_members() {
    let mut o = JsonObject::new();
    o.insert("a", JsonValue::Int(1));
    o.insert("b", JsonValue::Bool(true));
    o.insert("a", JsonValue::Null);
    assert_eq!(o.entries.len(), 2);
    assert_eq!(o.entries[0].key, "a");
    assert_eq!(o.get("a"), Some(&JsonValue::Null));
    assert_eq!(o.get("b"), Some(&JsonValue::Bool(true)));
    assert_eq!(o.get("c"), None);
}

#[test]
fn payload_accessors() {
    let mut p = Payload::empty_object();
    p.set_member("s", JsonValue::Str("x".into()));
    p.set_member("n", JsonValue::Int(-7));
    p.set_member("b", JsonValue::Bool(false));
    assert_eq!(p.get_str("s"), Some("x"));
    assert_eq!(p.get_str("n"), None);
    assert_eq!(p.str_or("missing", "d"), "d");
    assert_eq!(p.int_or("n", 0), -7);
    assert_eq!(p.int_or("s", 4), 4);
    assert_eq!(p.bool_or("b", true), false);
    assert_eq!(p.json_text_or("n", "{}"), "-7");
    assert_eq!(p.json_text_or("s", "{}"), "\"x\"");
    assert_eq!(p.json_text_or("b", "{}"), "false");
    assert_eq!(p.json_text_or("missing", "[]"), "[]");
    assert_eq!(p.get_either("missing", "s"), Some(&JsonValue::Str("x".into())));
    let other = Payload::Other(JsonValue::Str("x".into()));
    assert_eq!(other.get("s"), None);
}

#[test]
fn json_quoting_escapes_like_serde_json() {
    for s in ["plain", "q\"uote", "back\\slash", "nl\n\t\r", "\u{8}\u{c}\u{1f}", "ü€😀", "/"] {
        assert_eq!(JsonValue::Str(s.into()).to_json_text(), serde_json::to_string(s).unwrap());
    }
    assert_eq!(JsonValue::Str("\u{1}".into()).to_json_text(), "\"\\u0001\"");
    assert_eq!(JsonValue::Raw("[1, 2]".into()).to_json_text(), "[1, 2]");
    assert_eq!(JsonValue::Null.to_json_text(), "null");
    assert_eq!(JsonValue::Int(i64::MIN).to_json_text(), "-9223372036854775808");
}
