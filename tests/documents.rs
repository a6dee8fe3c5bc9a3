use manjaword::autosave::{
    autosave_payload, decode_document, document_from_value, encode_document, envelope_value,
    encode_stamped, recover_from, AutosaveError, EditorDocument,
};

fn value(text: &str) -> serde_json::Value {
    serde_json::from_str(text).unwrap()
}

#[test]
fn new_document_is_stamped() {
    let doc = EditorDocument::new(value("[1,2]"));
    assert_eq!(doc.version, "1.0.0");
    assert!(chrono::DateTime::parse_from_rfc3339(&doc.updated_at).is_ok());
    assert_eq!(doc.content, value("[1,2]"));
}

#[test]
fn envelope_round_trip_keeps_the_content() {
    let content = value(r#"{"ops":[{"insert":"Hello\n","attributes":{"bold":true}}]}"#);
    let doc = EditorDocument::new(content.clone());
    let stamp = doc.updated_at.clone();
    let back = document_from_value(&envelope_value(doc)).unwrap();
    assert_eq!(back.content, content);
    assert_eq!(back.version, "1.0.0");
    assert_eq!(back.updated_at, stamp);
}

#[test]
fn text_round_trip_keeps_the_content() {
    let content = value(r#"{"ops":[{"insert":"a\nb"},{"insert":"c"}]}"#);
    let text = encode_document(content.clone());
    assert_eq!(decode_document(&text).unwrap().content, content);
}

#[test]
fn reading_rejects_missing_fields() {
    assert!(document_from_value(&value(r#"{"updated_at":"t","content":1}"#)).is_err());
    assert!(document_from_value(&value(r#"{"version":"1","content":1}"#)).is_err());
    assert!(document_from_value(&value(r#"{"version":"1","updated_at":"t"}"#)).is_err());
    assert!(document_from_value(&value(r#"{"version":"1","updated_at":2,"content":1}"#)).is_err());
    assert!(document_from_value(&value(r#""text""#)).is_err());
}

#[test]
fn autosave_then_recover_returns_the_last_content() {
    let first = value(r#"{"ops":[{"insert":"one\n"}]}"#);
    let last = value(r#"{"ops":[{"insert":"two\n"}]}"#);
    let _ = autosave_payload(first);
    let stored = autosave_payload(last.clone());
    let recovered = recover_from(Some(stored)).unwrap().unwrap();
    assert_eq!(recovered.content, last);
}

#[test]
fn recover_without_autosave_is_no_document() {
    assert!(matches!(recover_from(None), Ok(None)));
}

#[test]
fn recover_surfaces_corruption() {
    let r = recover_from(Some("{\"version\":".to_string()));
    assert!(matches!(r, Err(AutosaveError::Json(_))));
}

#[test]
fn stamped_document_keeps_the_stamp() {
    let doc = EditorDocument::stamped(value("{}"), "2024-05-01T10:00:00+00:00".to_string());
    assert_eq!(doc.version, "1.0.0");
    assert_eq!(doc.updated_at, "2024-05-01T10:00:00+00:00");
}

#[test]
fn encoded_envelope_has_exactly_three_members() {
    let text = encode_stamped(value("[true]"), "t0".to_string());
    let stored = value(&text);
    let members = stored.as_object().unwrap();
    assert_eq!(members.len(), 3);
    assert_eq!(members.get("version"), Some(&value(r#""1.0.0""#)));
    assert_eq!(members.get("updated_at"), Some(&value(r#""t0""#)));
    assert_eq!(members.get("content"), Some(&value("[true]")));
}
