use safecomms::{
    api_failure, deserialization_error, file_read_error, moderation_outcome, request_error,
    usage_outcome, Json, SafeCommsClient, SafeCommsError,
};

#[test]
fn str_eq_compares_by_characters() {
    assert!(safecomms::str_eq("abc", "abc"));
    assert!(!safecomms::str_eq("abc", "abd"));
    assert!(!safecomms::str_eq("abc", "ab"));
    assert!(safecomms::str_eq("", ""));
}

#[test]
fn new_strips_trailing_slashes() {
    let c = SafeCommsClient::new("key".to_string(), Some("https://x.test///".to_string()));
    assert_eq!(c.base_url, "https://x.test");
    assert_eq!(c.moderation_text_url(), "https://x.test/moderation/text");
}

#[test]
fn new_single_trailing_slash() {
    let c = SafeCommsClient::new("key".to_string(), Some("https://x.test/".to_string()));
    assert_eq!(c.moderation_image_url(), "https://x.test/moderation/image");
    assert_eq!(c.moderation_image_upload_url(), "https://x.test/moderation/image/upload");
    assert_eq!(c.usage_url(), "https://x.test/usage");
}

#[test]
fn new_without_base_url_uses_default() {
    let c = SafeCommsClient::new("key".to_string(), None);
    assert_eq!(c.base_url, "https://api.safecomms.dev");
    assert_eq!(c.usage_url(), "https://api.safecomms.dev/usage");
}

#[test]
fn join_has_no_double_slash() {
    let c = SafeCommsClient::new("key".to_string(), Some("https://x.test///".to_string()));
    let url = c.moderation_text_url();
    assert!(!url.contains(".test//"));
    assert_eq!(url, "https://x.test/moderation/text");
}

#[test]
fn auth_header_carries_bearer_key() {
    let c = SafeCommsClient::new("secret".to_string(), None);
    assert_eq!(c.auth_header_value(), "Bearer secret");
}

#[test]
fn api_failure_prefers_detail() {
    let j = Json::Obj(vec![("detail".to_string(), Json::Str("D".to_string()))]);
    let e = api_failure(400, "{\"detail\":\"D\"}", Some(&j));
    match e {
        SafeCommsError::ApiError(m) => assert_eq!(m, "D"),
        _ => panic!("expected an api error"),
    }
}

#[test]
fn api_failure_falls_back_to_title() {
    let j = Json::Obj(vec![("title".to_string(), Json::Str("T".to_string()))]);
    let e = api_failure(400, "{\"title\":\"T\"}", Some(&j));
    match e {
        SafeCommsError::ApiError(m) => assert_eq!(m, "T"),
        _ => panic!("expected an api error"),
    }
}

#[test]
fn api_failure_detail_wins_over_title() {
    let j = Json::Obj(vec![
        ("detail".to_string(), Json::Str("D".to_string())),
        ("title".to_string(), Json::Str("T".to_string())),
    ]);
    let e = api_failure(500, "", Some(&j));
    match e {
        SafeCommsError::ApiError(m) => assert_eq!(m, "D"),
        _ => panic!("expected an api error"),
    }
}

#[test]
fn api_failure_empty_problem_uses_status_line() {
    let j = Json::Obj(vec![]);
    let e = api_failure(404, "{}", Some(&j));
    match e {
        SafeCommsError::ApiError(m) => assert_eq!(m, "404 Not Found"),
        _ => panic!("expected an api error"),
    }
}

#[test]
fn api_failure_empty_problem_unknown_code_uses_placeholder() {
    let j = Json::Obj(vec![]);
    let e = api_failure(599, "{}", Some(&j));
    match e {
        SafeCommsError::ApiError(m) => assert_eq!(m, "599 <unknown status code>"),
        _ => panic!("expected an api error"),
    }
}

#[test]
fn status_line_renders_code_and_reason() {
    assert_eq!(safecomms::status::status_line(200), "200 OK");
    assert_eq!(safecomms::status::status_line(404), "404 Not Found");
    assert_eq!(safecomms::status::status_line(500), "500 Internal Server Error");
    assert_eq!(safecomms::status::status_line(418), "418 I'm a teapot");
    assert_eq!(safecomms::status::status_line(599), "599 <unknown status code>");
}

#[test]
fn api_failure_non_json_body_uses_status_and_body() {
    let e = api_failure(500, "oops", None);
    match e {
        SafeCommsError::ApiError(m) => assert_eq!(m, "500 - oops"),
        _ => panic!("expected an api error"),
    }
}

#[test]
fn api_failure_non_object_json_uses_status_and_body() {
    let j = Json::Str("oops".to_string());
    let e = api_failure(502, "\"oops\"", Some(&j));
    match e {
        SafeCommsError::ApiError(m) => assert_eq!(m, "502 - \"oops\""),
        _ => panic!("expected an api error"),
    }
}

#[test]
fn file_read_error_carries_the_cause() {
    let e = file_read_error("No such file or directory (os error 2)");
    match e {
        SafeCommsError::ApiError(m) => {
            assert_eq!(m, "Failed to read file: No such file or directory (os error 2)")
        },
        _ => panic!("expected an api error"),
    }
}

#[test]
fn request_error_keeps_transport_description() {
    let e = request_error("connection refused");
    match e {
        SafeCommsError::RequestError(m) => assert_eq!(m, "connection refused"),
        _ => panic!("expected a request error"),
    }
}

#[test]
fn describe_renders_each_kind() {
    assert_eq!(
        request_error("dns failure").describe(),
        "HTTP request failed"
    );
    assert_eq!(
        api_failure(500, "oops", None).describe(),
        "API error: 500 - oops"
    );
    assert_eq!(deserialization_error().describe(), "Serialization error");
}

#[test]
fn success_range_is_the_two_hundreds() {
    assert!(safecomms::client::is_success_status(200));
    assert!(safecomms::client::is_success_status(299));
    assert!(!safecomms::client::is_success_status(199));
    assert!(!safecomms::client::is_success_status(300));
}

#[test]
fn moderation_outcome_failure_resolves_error() {
    let r = moderation_outcome(500, "oops", None);
    match r {
        Err(SafeCommsError::ApiError(m)) => assert_eq!(m, "500 - oops"),
        _ => panic!("expected an api error"),
    }
}

#[test]
fn moderation_outcome_success_needs_valid_body() {
    let r = moderation_outcome(200, "not json", None);
    match r {
        Err(SafeCommsError::SerializationError(_)) => {},
        _ => panic!("expected a serialization error"),
    }
}

#[test]
fn moderation_outcome_success_decodes_body() {
    let j = Json::Obj(vec![
        ("isClean".to_string(), Json::Bool(true)),
        ("isBypassAttempt".to_string(), Json::Bool(false)),
    ]);
    let r = moderation_outcome(200, "{...}", Some(&j));
    let m = r.expect("expected a decoded response");
    assert!(m.is_clean);
    assert!(!m.is_bypass_attempt);
    assert!(m.severity.is_none());
}

#[test]
fn usage_outcome_success_decodes_body() {
    let j = Json::Obj(vec![
        ("tier".to_string(), Json::Str("pro".to_string())),
        ("rateLimit".to_string(), Json::Int(100)),
        ("tokensUsed".to_string(), Json::Int(5)),
        ("remainingTokens".to_string(), Json::Int(95)),
    ]);
    let r = usage_outcome(200, "{...}", Some(&j));
    let u = r.expect("expected a decoded usage report");
    assert_eq!(u.tier, "pro");
    assert_eq!(u.rate_limit, 100);
    assert_eq!(u.token_limit, None);
    assert_eq!(u.tokens_used, 5);
    assert_eq!(u.remaining_tokens, 95);
}

#[test]
fn usage_outcome_empty_problem_reports_status_line() {
    let j = Json::Obj(vec![]);
    let r = usage_outcome(404, "{}", Some(&j));
    match r {
        Err(SafeCommsError::ApiError(m)) => assert_eq!(m, "404 Not Found"),
        _ => panic!("expected an api error"),
    }
}

#[test]
fn usage_outcome_failure_resolves_error() {
    let j = Json::Obj(vec![("detail".to_string(), Json::Str("quota exceeded".to_string()))]);
    let r = usage_outcome(429, "{\"detail\":\"quota exceeded\"}", Some(&j));
    match r {
        Err(SafeCommsError::ApiError(m)) => assert_eq!(m, "quota exceeded"),
        _ => panic!("expected an api error"),
    }
}
