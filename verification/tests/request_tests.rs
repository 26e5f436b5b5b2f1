use safecomms::{ImageFileModerationRequest, ImageModerationRequest, TextModerationRequest};

fn text_request(content: &str) -> TextModerationRequest {
    TextModerationRequest {
        content: content.to_string(),
        language: None,
        replace: None,
        pii: None,
        replace_severity: None,
        moderation_profile_id: None,
    }
}

#[test]
fn text_body_minimal_is_exact() {
    let r = text_request("hello");
    assert_eq!(r.body(), "{\"content\":\"hello\"}");
}

#[test]
fn text_body_omits_unset_fields() {
    let r = text_request("hi");
    let v: serde_json::Value = serde_json::from_str(&r.body()).expect("body must be valid JSON");
    let o = v.as_object().expect("body must be an object");
    assert!(o.contains_key("content"));
    assert!(!o.contains_key("language"));
    assert!(!o.contains_key("replace"));
    assert!(!o.contains_key("pii"));
    assert!(!o.contains_key("replaceSeverity"));
    assert!(!o.contains_key("moderationProfileId"));
}

#[test]
fn text_body_keeps_set_fields_even_false_and_empty() {
    let r = TextModerationRequest {
        content: "".to_string(),
        language: Some("".to_string()),
        replace: Some(false),
        pii: Some(true),
        replace_severity: Some("low".to_string()),
        moderation_profile_id: Some("p1".to_string()),
    };
    let v: serde_json::Value = serde_json::from_str(&r.body()).expect("body must be valid JSON");
    let o = v.as_object().expect("body must be an object");
    assert_eq!(o.get("content").and_then(|x| x.as_str()), Some(""));
    assert_eq!(o.get("language").and_then(|x| x.as_str()), Some(""));
    assert_eq!(o.get("replace").and_then(|x| x.as_bool()), Some(false));
    assert_eq!(o.get("pii").and_then(|x| x.as_bool()), Some(true));
    assert_eq!(o.get("replaceSeverity").and_then(|x| x.as_str()), Some("low"));
    assert_eq!(o.get("moderationProfileId").and_then(|x| x.as_str()), Some("p1"));
}

#[test]
fn text_body_escapes_content() {
    let tricky = "a\"b\\c\nd\te\rf\u{1}g";
    let mut r = text_request(tricky);
    r.language = Some("fr".to_string());
    let body = r.body();
    let v: serde_json::Value = serde_json::from_str(&body).expect("body must be valid JSON");
    assert_eq!(v.get("content").and_then(|x| x.as_str()), Some(tricky));
    assert_eq!(v.get("language").and_then(|x| x.as_str()), Some("fr"));
}

#[test]
fn image_body_minimal_is_exact() {
    let r = ImageModerationRequest {
        image: "data".to_string(),
        language: None,
        moderation_profile_id: None,
        enable_ocr: None,
        enhanced_ocr: None,
        extract_metadata: None,
    };
    assert_eq!(r.body(), "{\"image\":\"data\"}");
}

#[test]
fn image_body_carries_flags_and_omits_unset() {
    let r = ImageModerationRequest {
        image: "data".to_string(),
        language: Some("en".to_string()),
        moderation_profile_id: None,
        enable_ocr: Some(true),
        enhanced_ocr: Some(false),
        extract_metadata: None,
    };
    let v: serde_json::Value = serde_json::from_str(&r.body()).expect("body must be valid JSON");
    let o = v.as_object().expect("body must be an object");
    assert_eq!(o.get("image").and_then(|x| x.as_str()), Some("data"));
    assert_eq!(o.get("language").and_then(|x| x.as_str()), Some("en"));
    assert_eq!(o.get("enableOcr").and_then(|x| x.as_bool()), Some(true));
    assert_eq!(o.get("enhancedOcr").and_then(|x| x.as_bool()), Some(false));
    assert!(!o.contains_key("moderationProfileId"));
    assert!(!o.contains_key("extractMetadata"));
}

fn file_request(path: &str) -> ImageFileModerationRequest {
    ImageFileModerationRequest {
        file_path: path.to_string(),
        language: None,
        moderation_profile_id: None,
        enable_ocr: None,
        enhanced_ocr: None,
        extract_metadata: None,
    }
}

#[test]
fn upload_parts_render_booleans_as_text() {
    let mut r = file_request("a/b.jpg");
    r.language = Some("de".to_string());
    r.enable_ocr = Some(true);
    r.extract_metadata = Some(false);
    let parts = r.text_parts();
    assert_eq!(
        parts,
        vec![
            ("language".to_string(), "de".to_string()),
            ("enableOcr".to_string(), "true".to_string()),
            ("extractMetadata".to_string(), "false".to_string()),
        ]
    );
}

#[test]
fn upload_parts_empty_when_nothing_set() {
    let r = file_request("a/b.jpg");
    assert!(r.text_parts().is_empty());
}

#[test]
fn upload_name_is_final_segment() {
    assert_eq!(file_request("dir/sub/photo.png").upload_name(), "photo.png");
    assert_eq!(file_request("photo.png").upload_name(), "photo.png");
}

#[test]
fn upload_name_falls_back_on_bare_separator() {
    assert_eq!(file_request("/").upload_name(), "image.jpg");
}

#[test]
fn upload_name_falls_back_on_empty_or_trailing_separator() {
    assert_eq!(file_request("").upload_name(), "image.jpg");
    assert_eq!(file_request("dir/sub/").upload_name(), "image.jpg");
}

#[test]
fn upload_name_falls_back_on_parent_segment() {
    assert_eq!(file_request("..").upload_name(), "image.jpg");
    assert_eq!(file_request("a/..").upload_name(), "image.jpg");
}

#[test]
fn upload_name_skips_current_dir_segments() {
    assert_eq!(file_request(".").upload_name(), "image.jpg");
    assert_eq!(file_request("a/.").upload_name(), "a");
    assert_eq!(file_request("./photo.png").upload_name(), "photo.png");
}

#[test]
fn upload_name_keeps_dotted_file_names() {
    assert_eq!(file_request(".hidden").upload_name(), ".hidden");
    assert_eq!(file_request("a/..b").upload_name(), "..b");
    assert_eq!(file_request("a/b..").upload_name(), "b..");
}
