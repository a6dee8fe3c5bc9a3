use manjaword::exporter::{
    blank_line, delta_to_lines, export_path, page_layout, paragraph_document, paragraph_lines, space_char,
    split_inserts,
};

fn value(text: &str) -> serde_json::Value {
    serde_json::from_str(text).unwrap()
}

fn strings(items: &[&str]) -> Vec<String> {
    items.iter().map(|s| s.to_string()).collect()
}

#[test]
fn flatten_splits_each_insert_at_line_breaks() {
    let content = value(r#"{"ops":[{"insert":"a\nb"},{"insert":"c"}]}"#);
    assert_eq!(delta_to_lines(&content), strings(&["a", "b", "c"]));
}

#[test]
fn flatten_without_ops_is_empty() {
    assert!(delta_to_lines(&value(r#"{"text":"a\nb"}"#)).is_empty());
    assert!(delta_to_lines(&value(r#"{"ops":"a\nb"}"#)).is_empty());
    assert!(delta_to_lines(&value(r#"["a","b"]"#)).is_empty());
    assert!(delta_to_lines(&value("null")).is_empty());
}

#[test]
fn flatten_skips_operations_without_text() {
    let content = value(r#"{"ops":[{"retain":3},{"insert":{"image":"x.png"}},{"insert":"x\n"}]}"#);
    assert_eq!(delta_to_lines(&content), strings(&["x", ""]));
}

#[test]
fn flatten_keeps_empty_lines() {
    let content = value(r#"{"ops":[{"insert":"\n\nend"},{"insert":""}]}"#);
    assert_eq!(delta_to_lines(&content), strings(&["", "", "end", ""]));
}

#[test]
fn split_inserts_splits_each_text() {
    assert_eq!(split_inserts(&strings(&["a\nb", "c"])), strings(&["a", "b", "c"]));
    assert_eq!(split_inserts(&strings(&[""])), strings(&[""]));
    assert!(split_inserts(&Vec::new()).is_empty());
    assert_eq!(split_inserts(&strings(&["é\nü"])), strings(&["é", "ü"]));
}

#[test]
fn paragraph_lines_drop_blank_lines() {
    let lines = strings(&["", "Hello", "", "World"]);
    assert_eq!(paragraph_lines(lines), strings(&["Hello", "World"]));
}

#[test]
fn paragraph_lines_drop_white_space_only_lines() {
    let lines = strings(&[" \t", "\u{3000}", " x ", "\u{a0}\u{2028}", "y"]);
    assert_eq!(paragraph_lines(lines), strings(&[" x ", "y"]));
}

#[test]
fn blank_line_and_space_char() {
    assert!(blank_line(""));
    assert!(blank_line(" \r\n\t"));
    assert!(!blank_line(" a "));
    assert!(space_char('\u{85}'));
    assert!(space_char('\u{200a}'));
    assert!(!space_char('\u{200b}'));
    assert!(!space_char('x'));
}

#[test]
fn page_layout_steps_down_from_the_top() {
    let placed = page_layout(strings(&["one", "", "two", "three"]));
    let expected: Vec<(String, u64)> =
        vec![("one".to_string(), 280), ("two".to_string(), 272), ("three".to_string(), 264)];
    assert_eq!(placed, expected);
}

#[test]
fn page_layout_truncates_at_the_bottom_margin() {
    let lines: Vec<String> = (0..40).map(|i| format!("line {}", i)).collect();
    let placed = page_layout(lines);
    assert_eq!(placed.len(), 34);
    assert_eq!(placed[33], ("line 33".to_string(), 16));
}

#[test]
fn paragraph_document_has_one_paragraph_per_kept_line() {
    let doc = paragraph_document(strings(&["", "Hello", "", "World"]));
    assert_eq!(doc.document.children.len(), 2);
    assert!(paragraph_document(strings(&["", " "])).document.children.is_empty());
}

#[test]
fn paragraph_text_drops_carriage_returns() {
    let doc = paragraph_document(strings(&["Hello\r", "a&b"]));
    let texts: Vec<String> = doc
        .document
        .children
        .iter()
        .map(|c| match c {
            docx_rs::DocumentChild::Paragraph(p) => p.raw_text(),
            _ => String::new(),
        })
        .collect();
    assert_eq!(texts.len(), 2);
    assert!(!texts[0].contains('\r'));
    assert!(texts[0].starts_with("Hello"));
}

#[test]
fn export_path_appends_the_extension_when_missing() {
    assert_eq!(export_path("/x/doc", "docx"), "/x/doc.docx");
    assert_eq!(export_path("/x/doc.docx", "docx"), "/x/doc.docx");
    assert_eq!(export_path("/x/doc.txt", "pdf"), "/x/doc.txt.pdf");
    assert_eq!(export_path("/x/docx", "docx"), "/x/docx.docx");
}
