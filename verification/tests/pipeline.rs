//! End-to-end tests: an update document in, a reply payload (or none) out.

use forward_date_bot::json::process_update;

fn doc(s: &str) -> serde_json::Value {
    serde_json::from_str(s).expect("test document must be valid JSON")
}

#[test]
fn forwarded_message_gets_dated_reply() {
    let v = doc(r#"{"message": {"chat": {"id": 42}, "message_id": 7, "forward_date": 0}}"#);
    let p = process_update(&v).expect("a reply is owed");
    assert_eq!(p.chat_id, 42);
    assert_eq!(p.text, "The message was sent on `Thursday, January 01, 1970 00:00:00`");
    assert_eq!(p.parse_mode.as_deref(), Some("MarkdownV2"));
    assert_eq!(p.reply_to_message_id, Some(7));
}

#[test]
fn unforwarded_message_gets_fallback_reply() {
    let v = doc(r#"{"message": {"chat": {"id": 42}, "message_id": 7}}"#);
    let p = process_update(&v).expect("a reply is owed");
    assert_eq!(p.chat_id, 42);
    assert_eq!(p.text, "Could not find the date of the forwarded message");
    assert_eq!(p.parse_mode, None);
    assert_eq!(p.reply_to_message_id, Some(7));
}

#[test]
fn edited_message_shape_is_a_fallback() {
    let v = doc(r#"{"edited_message": {"chat": {"id": 5}, "forward_date": 1690000000}}"#);
    let p = process_update(&v).expect("a reply is owed");
    assert_eq!(p.chat_id, 5);
    assert_eq!(p.text, "The message was sent on `Saturday, July 22, 2023 04:26:40`");
    assert_eq!(p.parse_mode.as_deref(), Some("MarkdownV2"));
    assert_eq!(p.reply_to_message_id, None);
}

#[test]
fn empty_update_gets_no_reply() {
    let v = doc(r#"{}"#);
    assert_eq!(process_update(&v), None);
}

#[test]
fn message_without_chat_gets_no_reply() {
    let v = doc(r#"{"message": {"message_id": 3, "forward_date": 0}}"#);
    assert_eq!(process_update(&v), None);
}

#[test]
fn malformed_chat_id_counts_as_missing() {
    let v = doc(r#"{"message": {"chat": {"id": "forty-two"}, "message_id": 3}}"#);
    assert_eq!(process_update(&v), None);
}

#[test]
fn malformed_forward_date_counts_as_missing() {
    let v = doc(r#"{"message": {"chat": {"id": 9}, "forward_date": "yesterday"}}"#);
    let p = process_update(&v).expect("a fallback reply is owed");
    assert_eq!(p.text, "Could not find the date of the forwarded message");
    assert_eq!(p.parse_mode, None);
}

#[test]
fn out_of_range_forward_date_gets_no_reply() {
    let v = doc(r#"{"message": {"chat": {"id": 9}, "forward_date": 8210266876800}}"#);
    assert_eq!(process_update(&v), None);
}

#[test]
fn unknown_fields_are_ignored() {
    let v = doc(
        r#"{"update_id": 10, "message": {"chat": {"id": 1, "type": "private"}, "message_id": 2, "text": "hi", "forward_date": 0}}"#,
    );
    let p = process_update(&v).expect("a reply is owed");
    assert_eq!(p.chat_id, 1);
    assert_eq!(p.reply_to_message_id, Some(2));
}

#[test]
fn processing_twice_yields_identical_payloads() {
    let v = doc(r#"{"message": {"chat": {"id": 42}, "message_id": 7, "forward_date": 1690000000}}"#);
    let first = process_update(&v);
    let second = process_update(&v);
    assert_eq!(first, second);
}
