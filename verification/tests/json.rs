//! The response-envelope reader.

use whisp::json::text_field;

#[test]
fn plain_envelope() {
    assert_eq!(text_field("{\"text\":\"hello\"}"), Some("hello".to_string()));
    assert_eq!(
        text_field("  { \"text\" : \"hello\" }  "),
        Some("hello".to_string())
    );
}

#[test]
fn escapes_are_decoded() {
    assert_eq!(text_field("{\"text\":\"a\\nb\"}"), Some("a\nb".to_string()));
    assert_eq!(
        text_field("{\"text\":\"quote \\\" slash \\\\\"}"),
        Some("quote \" slash \\".to_string())
    );
    assert_eq!(text_field("{\"text\":\"\\u0041\"}"), Some("A".to_string()));
    assert_eq!(text_field("{\"text\":\"\\t\\r\\b\\f\\/\"}"),
        Some("\t\r\u{8}\u{c}/".to_string()));
}

#[test]
fn multibyte_text_passes_through() {
    assert_eq!(
        text_field("{\"text\":\"h\u{e9}llo w\u{f6}rld\"}"),
        Some("h\u{e9}llo w\u{f6}rld".to_string())
    );
}

#[test]
fn other_members_are_walked_over() {
    let body = "{\"task\":\"transcribe\",\"text\":\"x\",\"usage\":{\"seconds\":1.5,\"items\":[1,2,{\"deep\":null}]},\"done\":true}";
    assert_eq!(text_field(body), Some("x".to_string()));
}

#[test]
fn last_text_member_wins() {
    assert_eq!(
        text_field("{\"text\":\"first\",\"text\":\"second\"}"),
        Some("second".to_string())
    );
}

#[test]
fn malformed_bodies_are_rejected() {
    assert_eq!(text_field(""), None);
    assert_eq!(text_field("not json"), None);
    assert_eq!(text_field("[\"text\"]"), None);
    assert_eq!(text_field("{\"text\":5}"), None);
    assert_eq!(text_field("{\"other\":1}"), None);
    assert_eq!(text_field("{\"text\":\"unterminated"), None);
    assert_eq!(text_field("{\"text\":\"x\"} trailing"), None);
    assert_eq!(text_field("{\"text\":\"x\""), None);
    assert_eq!(text_field("{\"text\":\"bad \\q escape\"}"), None);
}
