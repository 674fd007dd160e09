use merge_gate::json::string_member;
use merge_gate::text::str_eq;
use serde_json::Value;

fn parsed(text: &str) -> Value {
    serde_json::from_str(text).unwrap()
}

#[test]
fn equal_texts_are_equal() {
    assert!(str_eq("", ""));
    assert!(str_eq("block", "block"));
    assert!(str_eq("gr\u{fc}n", "gr\u{fc}n"));
}

#[test]
fn different_texts_are_different() {
    assert!(!str_eq("block", "unblock"));
    assert!(!str_eq("block", "blocK"));
    assert!(!str_eq("block", "bloc"));
    assert!(!str_eq("", " "));
    assert!(!str_eq("e\u{301}", "\u{e9}"));
}

#[test]
fn string_member_finds_a_string() {
    let value = parsed(r#"{"text":"block","user_id":"U123"}"#);
    assert_eq!(string_member(&value, "text"), Some("block"));
    assert_eq!(string_member(&value, "user_id"), Some("U123"));
    assert_eq!(string_member(&parsed(r#"{"":"x"}"#), ""), Some("x"));
}

#[test]
fn string_member_misses_what_is_not_there() {
    let value = parsed(r#"{"text":"block"}"#);
    assert_eq!(string_member(&value, "user_id"), None);
    assert_eq!(string_member(&value, "Text"), None);
    assert_eq!(string_member(&parsed("{}"), "text"), None);
}

#[test]
fn string_member_misses_what_is_no_string() {
    let value = parsed(r#"{"a":1,"b":null,"c":["x"],"d":{"e":"x"},"f":true}"#);
    for key in ["a", "b", "c", "d", "f"] {
        assert_eq!(string_member(&value, key), None, "{}", key);
    }
}

#[test]
fn string_member_misses_in_what_is_no_object() {
    for text in ["null", "true", "3", r#""text""#, r#"["text"]"#] {
        assert_eq!(string_member(&parsed(text), "text"), None, "{}", text);
    }
}
