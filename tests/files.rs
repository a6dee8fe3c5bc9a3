use manjaword::file_handler::{
    document_save_path, opened_document, path_verdict, save_payload, validate_path, FileError,
};

#[test]
fn validate_accepts_document_paths() {
    assert!(validate_path("/home/me/notes.manjaword.json").is_ok());
    assert!(validate_path("C:\\docs\\a b.manjaword.json").is_ok());
}

#[test]
fn validate_rejects_control_characters() {
    assert!(matches!(validate_path("/tmp/a\u{0}.manjaword.json"), Err(FileError::InvalidPath)));
    assert!(matches!(validate_path("/tmp/a\nb.txt"), Err(FileError::InvalidPath)));
    assert!(matches!(validate_path("\u{1f}"), Err(FileError::InvalidPath)));
}

#[test]
fn validate_rejects_other_extensions() {
    assert!(matches!(validate_path("/tmp/a.json"), Err(FileError::InvalidExtension)));
    assert!(matches!(validate_path("/tmp/a.manjaword"), Err(FileError::InvalidExtension)));
    assert!(matches!(validate_path("/tmp/a.manjaword.json.bak"), Err(FileError::InvalidExtension)));
    assert!(matches!(validate_path(""), Err(FileError::InvalidExtension)));
}

#[test]
fn verdict_follows_the_control_flag() {
    assert!(matches!(path_verdict("/a.manjaword.json", true), Err(FileError::InvalidPath)));
    assert!(path_verdict("/a.manjaword.json", false).is_ok());
    assert!(matches!(path_verdict("/a.txt", false), Err(FileError::InvalidExtension)));
}

#[test]
fn save_path_appends_the_suffix_once() {
    assert_eq!(document_save_path("/x/doc"), "/x/doc.manjaword.json");
    assert_eq!(document_save_path("/x/doc.json"), "/x/doc.json.manjaword.json");
    assert_eq!(document_save_path("/x/doc.manjaword.json"), "/x/doc.manjaword.json");
    let once = document_save_path("/x/doc");
    assert_eq!(document_save_path(&once), once);
}

#[test]
fn save_payload_wraps_the_content() {
    let content: serde_json::Value = serde_json::from_str(r#"{"ops":[{"insert":"hi\n"}]}"#).unwrap();
    let (path, payload) = save_payload("/x/doc", content.clone()).unwrap();
    assert_eq!(path, "/x/doc.manjaword.json");
    let stored: serde_json::Value = serde_json::from_str(&payload).unwrap();
    assert_eq!(stored.get("version").and_then(|v| v.as_str()), Some("1.0.0"));
    assert!(stored.get("updated_at").and_then(|v| v.as_str()).is_some());
    assert_eq!(stored.get("content"), Some(&content));
}

#[test]
fn save_payload_rejects_control_characters() {
    let r = save_payload("/x/d\u{7}oc", serde_json::Value::Null);
    assert!(matches!(r, Err(FileError::InvalidPath)));
}

#[test]
fn opened_document_reads_the_payload() {
    let raw = r#"{"version":"1.0.0","updated_at":"2024-01-01T00:00:00+00:00","content":{"ops":[]}}"#;
    let doc = opened_document("/x/a.manjaword.json", raw).unwrap();
    assert_eq!(doc.path, "/x/a.manjaword.json");
    assert_eq!(doc.content, serde_json::from_str::<serde_json::Value>(r#"{"ops":[]}"#).unwrap());
}

#[test]
fn opened_document_rejects_malformed_text() {
    assert!(matches!(opened_document("/a.manjaword.json", "{not json"), Err(FileError::Json(_))));
    let missing = r#"{"version":"1.0.0","updated_at":"t"}"#;
    assert!(matches!(opened_document("/a.manjaword.json", missing), Err(FileError::Json(_))));
    let wrong = r#"{"version":1,"updated_at":"t","content":null}"#;
    assert!(matches!(opened_document("/a.manjaword.json", wrong), Err(FileError::Json(_))));
}

#[test]
fn saved_path_passes_validation() {
    for chosen in ["/home/u/notes", "/home/u/notes.manjaword.json", "/home/u/report.json"] {
        let (path, _) = save_payload(chosen, serde_json::Value::Null).unwrap();
        assert!(path.ends_with(".manjaword.json"));
        assert!(!path.ends_with(".manjaword.json.manjaword.json"));
        assert!(validate_path(&path).is_ok());
    }
    assert_eq!(save_payload("/home/u/notes", serde_json::Value::Null).unwrap().0, "/home/u/notes.manjaword.json");
}
