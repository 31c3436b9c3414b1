use mathoku_core::greeting::{greet, greet_utf8, greeting_for, PLACEHOLDER};
use mathoku_core::handle::{terminated_bytes, TextError};
use mathoku_core::models::User;
use mathoku_core::record::{integer_text, user_json};
use mathoku_core::{dummy_user, get_dummy_user_json, SIMULATED_LATENCY_SECS};

#[test]
fn greet_formats_name() {
    assert_eq!(greet("World"), "Hello, World from Rust!");
}

#[test]
fn greet_holds_name_verbatim() {
    for name in ["", "Ada", "a b\tc", "\u{e9}t\u{e9}", "Hello, "] {
        assert!(greet(name).contains(name));
    }
}

#[test]
fn greet_empty_name() {
    assert_eq!(greet(""), "Hello,  from Rust!");
}

#[test]
fn greet_utf8_decodes_valid_bytes() {
    assert_eq!(greet_utf8("J\u{f6}rg".as_bytes()), "Hello, J\u{f6}rg from Rust!");
}

#[test]
fn greet_utf8_replaces_invalid_bytes() {
    let r = greet_utf8(&[0x66, 0xff, 0xfe]);
    assert_eq!(r, "Hello, \u{FFFD} from Rust!");
    assert!(r.contains(PLACEHOLDER));
}

#[test]
fn greet_utf8_rejects_surrogate_encoding() {
    assert_eq!(greet_utf8(&[0xed, 0xa0, 0x80]), "Hello, \u{FFFD} from Rust!");
}

#[test]
fn greeting_for_missing_name() {
    assert_eq!(greeting_for(None), "Hello, \u{FFFD} from Rust!");
    assert_eq!(greeting_for(Some("Bo")), "Hello, Bo from Rust!");
}

#[test]
fn integer_text_values() {
    assert_eq!(integer_text(0), "0");
    assert_eq!(integer_text(7), "7");
    assert_eq!(integer_text(1234509), "1234509");
    assert_eq!(integer_text(-42), "-42");
    assert_eq!(integer_text(i32::MAX), "2147483647");
    assert_eq!(integer_text(i32::MIN), "-2147483648");
}

#[test]
fn dummy_user_fields() {
    let u = dummy_user();
    assert_eq!(u.id, 1);
    assert_eq!(u.name, "John Doe");
    assert_eq!(u.email, "john.doe@example.com");
}

#[test]
fn dummy_user_json_text() {
    assert_eq!(
        get_dummy_user_json(),
        "{\"id\":1,\"name\":\"John Doe\",\"email\":\"john.doe@example.com\"}"
    );
}

#[test]
fn dummy_user_json_round_trips() {
    let text = get_dummy_user_json();
    let parsed: serde_json::Value = serde_json::from_str(&text).unwrap();
    let again = serde_json::to_string(&parsed).unwrap();
    let reparsed: serde_json::Value = serde_json::from_str(&again).unwrap();
    for v in [&parsed, &reparsed] {
        let obj = v.as_object().unwrap();
        assert_eq!(obj.len(), 3);
        assert_eq!(obj["id"].as_i64(), Some(1));
        assert_eq!(obj["name"].as_str(), Some("John Doe"));
        assert_eq!(obj["email"].as_str(), Some("john.doe@example.com"));
    }
}

#[test]
fn user_json_escapes_text() {
    let u = User { id: -3, name: "A \"B\"\\".to_string(), email: "x\ny".to_string() };
    let text = user_json(&u);
    assert_eq!(text, "{\"id\":-3,\"name\":\"A \\\"B\\\"\\\\\",\"email\":\"x\\ny\"}");
    let parsed: serde_json::Value = serde_json::from_str(&text).unwrap();
    assert_eq!(parsed["id"].as_i64(), Some(-3));
    assert_eq!(parsed["name"].as_str(), Some("A \"B\"\\"));
    assert_eq!(parsed["email"].as_str(), Some("x\ny"));
}

#[test]
fn user_json_escapes_control_characters() {
    let u = User { id: 0, name: "\u{1}".to_string(), email: String::new() };
    assert_eq!(user_json(&u), "{\"id\":0,\"name\":\"\\u0001\",\"email\":\"\"}");
}

#[test]
fn terminated_bytes_appends_nul() {
    assert_eq!(terminated_bytes("abc"), Ok(b"abc\0".to_vec()));
    assert_eq!(terminated_bytes(""), Ok(vec![0u8]));
    assert_eq!(terminated_bytes("\u{e9}"), Ok(vec![0xc3, 0xa9, 0]));
}

#[test]
fn terminated_bytes_refuses_inner_nul() {
    assert_eq!(terminated_bytes("a\0b"), Err(TextError::AllocationError));
}

#[test]
fn simulated_latency_is_five_seconds() {
    assert_eq!(SIMULATED_LATENCY_SECS, 5);
}
