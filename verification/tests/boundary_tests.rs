use postman_core::boundary::error_document;

#[test]
fn error_document_shape() {
    assert_eq!(error_document("missing field `info`"), "{\"error\": \"missing field `info`\"}");
}

#[test]
fn error_document_is_an_object_with_only_an_error_key() {
    let doc = error_document("expected value at line 1 column 1");
    let v: serde_json::Value = serde_json::from_str(&doc).unwrap();
    let obj = v.as_object().unwrap();
    assert_eq!(obj.len(), 1);
    assert!(obj.contains_key("error"));
    assert_eq!(obj["error"].as_str().unwrap(), "expected value at line 1 column 1");
}

#[test]
fn error_document_escapes_quotes_in_the_message() {
    let msg = "invalid type: string \"abc\", expected struct Collection";
    let doc = error_document(msg);
    let v: serde_json::Value = serde_json::from_str(&doc).unwrap();
    let obj = v.as_object().unwrap();
    assert_eq!(obj.len(), 1);
    assert_eq!(obj["error"].as_str().unwrap(), msg);
}

#[test]
fn error_document_escapes_backslashes_and_newlines() {
    let msg = "bad input: a\\b\nend";
    let doc = error_document(msg);
    let v: serde_json::Value = serde_json::from_str(&doc).unwrap();
    assert_eq!(v.as_object().unwrap()["error"].as_str().unwrap(), msg);
}

#[test]
fn error_document_empty_message() {
    assert_eq!(error_document(""), "{\"error\": \"\"}");
}
