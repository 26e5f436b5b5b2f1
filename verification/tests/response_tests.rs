use safecomms::{
    decode_moderation_response, decode_problem_details, decode_usage_response, Json,
};

fn s(x: &str) -> Json {
    Json::Str(x.to_string())
}

#[test]
fn usage_decodes_with_token_limit_absent() {
    let j = Json::Obj(vec![
        ("tier".to_string(), s("pro")),
        ("rateLimit".to_string(), Json::Int(100)),
        ("tokensUsed".to_string(), Json::Int(5)),
        ("remainingTokens".to_string(), Json::Int(95)),
    ]);
    let u = decode_usage_response(&j).expect("schema matches");
    assert_eq!(u.tier, "pro");
    assert_eq!(u.rate_limit, 100);
    assert_eq!(u.token_limit, None);
    assert_eq!(u.tokens_used, 5);
    assert_eq!(u.remaining_tokens, 95);
}

#[test]
fn usage_decodes_with_token_limit_present_or_null() {
    let j = Json::Obj(vec![
        ("tier".to_string(), s("free")),
        ("rateLimit".to_string(), Json::Int(10)),
        ("tokenLimit".to_string(), Json::Int(1000)),
        ("tokensUsed".to_string(), Json::Int(1)),
        ("remainingTokens".to_string(), Json::Int(9)),
    ]);
    let u = decode_usage_response(&j).expect("schema matches");
    assert_eq!(u.token_limit, Some(1000));

    let j2 = Json::Obj(vec![
        ("tier".to_string(), s("free")),
        ("rateLimit".to_string(), Json::Int(10)),
        ("tokenLimit".to_string(), Json::Null),
        ("tokensUsed".to_string(), Json::Int(1)),
        ("remainingTokens".to_string(), Json::Int(9)),
    ]);
    let u2 = decode_usage_response(&j2).expect("schema matches");
    assert_eq!(u2.token_limit, None);
}

#[test]
fn usage_rejects_missing_or_mistyped_required_field() {
    let missing = Json::Obj(vec![
        ("tier".to_string(), s("pro")),
        ("tokensUsed".to_string(), Json::Int(5)),
        ("remainingTokens".to_string(), Json::Int(95)),
    ]);
    assert!(decode_usage_response(&missing).is_none());

    let mistyped = Json::Obj(vec![
        ("tier".to_string(), s("pro")),
        ("rateLimit".to_string(), s("100")),
        ("tokensUsed".to_string(), Json::Int(5)),
        ("remainingTokens".to_string(), Json::Int(95)),
    ]);
    assert!(decode_usage_response(&mistyped).is_none());

    assert!(decode_usage_response(&Json::Arr(vec![])).is_none());
}

#[test]
fn usage_rejects_out_of_range_integer() {
    let j = Json::Obj(vec![
        ("tier".to_string(), s("pro")),
        ("rateLimit".to_string(), Json::Int(1 << 40)),
        ("tokensUsed".to_string(), Json::Int(5)),
        ("remainingTokens".to_string(), Json::Int(95)),
    ]);
    assert!(decode_usage_response(&j).is_none());
}

#[test]
fn moderation_decodes_every_field_verbatim() {
    let j = Json::Obj(vec![
        ("isClean".to_string(), Json::Bool(false)),
        ("severity".to_string(), s("high")),
        (
            "categoryScores".to_string(),
            Json::Obj(vec![
                ("violence".to_string(), s("0.9")),
                ("spam".to_string(), s("0.1")),
            ]),
        ),
        (
            "issues".to_string(),
            Json::Arr(vec![
                Json::Obj(vec![
                    ("term".to_string(), s("bad")),
                    ("context".to_string(), s("a bad word")),
                ]),
                Json::Obj(vec![("term".to_string(), Json::Null)]),
            ]),
        ),
        ("reason".to_string(), s("matched a rule")),
        ("isBypassAttempt".to_string(), Json::Bool(true)),
        ("safeContent".to_string(), s("***")),
        (
            "addons".to_string(),
            Json::Obj(vec![
                ("replacedUnsafe".to_string(), Json::Bool(true)),
                ("replacedPii".to_string(), Json::Bool(false)),
            ]),
        ),
    ]);
    let m = decode_moderation_response(&j).expect("schema matches");
    assert!(!m.is_clean);
    assert_eq!(m.severity.as_deref(), Some("high"));
    assert_eq!(
        m.category_scores,
        Some(vec![
            ("violence".to_string(), "0.9".to_string()),
            ("spam".to_string(), "0.1".to_string()),
        ])
    );
    let issues = m.issues.expect("issues present");
    assert_eq!(issues.len(), 2);
    assert_eq!(issues[0].term.as_deref(), Some("bad"));
    assert_eq!(issues[0].context.as_deref(), Some("a bad word"));
    assert_eq!(issues[1].term, None);
    assert_eq!(issues[1].context, None);
    assert_eq!(m.reason.as_deref(), Some("matched a rule"));
    assert!(m.is_bypass_attempt);
    assert_eq!(m.safe_content.as_deref(), Some("***"));
    let addons = m.addons.expect("addons present");
    assert!(addons.replaced_unsafe);
    assert!(!addons.replaced_pii);
}

#[test]
fn moderation_minimal_leaves_optionals_unset() {
    let j = Json::Obj(vec![
        ("isClean".to_string(), Json::Bool(true)),
        ("isBypassAttempt".to_string(), Json::Bool(false)),
    ]);
    let m = decode_moderation_response(&j).expect("schema matches");
    assert!(m.is_clean);
    assert!(!m.is_bypass_attempt);
    assert!(m.severity.is_none());
    assert!(m.category_scores.is_none());
    assert!(m.issues.is_none());
    assert!(m.reason.is_none());
    assert!(m.safe_content.is_none());
    assert!(m.addons.is_none());
}

#[test]
fn moderation_rejects_missing_required_flag() {
    let j = Json::Obj(vec![("isClean".to_string(), Json::Bool(true))]);
    assert!(decode_moderation_response(&j).is_none());
}

#[test]
fn moderation_rejects_mistyped_fields() {
    let bad_flag = Json::Obj(vec![
        ("isClean".to_string(), s("yes")),
        ("isBypassAttempt".to_string(), Json::Bool(false)),
    ]);
    assert!(decode_moderation_response(&bad_flag).is_none());

    let bad_scores = Json::Obj(vec![
        ("isClean".to_string(), Json::Bool(true)),
        ("isBypassAttempt".to_string(), Json::Bool(false)),
        (
            "categoryScores".to_string(),
            Json::Obj(vec![("violence".to_string(), Json::Int(9))]),
        ),
    ]);
    assert!(decode_moderation_response(&bad_scores).is_none());

    let bad_issue = Json::Obj(vec![
        ("isClean".to_string(), Json::Bool(true)),
        ("isBypassAttempt".to_string(), Json::Bool(false)),
        ("issues".to_string(), Json::Arr(vec![s("not an object")])),
    ]);
    assert!(decode_moderation_response(&bad_issue).is_none());

    let bad_addons = Json::Obj(vec![
        ("isClean".to_string(), Json::Bool(true)),
        ("isBypassAttempt".to_string(), Json::Bool(false)),
        (
            "addons".to_string(),
            Json::Obj(vec![("replacedUnsafe".to_string(), Json::Bool(true))]),
        ),
    ]);
    assert!(decode_moderation_response(&bad_addons).is_none());
}

#[test]
fn moderation_ignores_unknown_keys() {
    let j = Json::Obj(vec![
        ("isClean".to_string(), Json::Bool(true)),
        ("isBypassAttempt".to_string(), Json::Bool(false)),
        ("somethingElse".to_string(), Json::Other),
    ]);
    assert!(decode_moderation_response(&j).is_some());
}

#[test]
fn problem_details_reads_both_optional_fields() {
    let j = Json::Obj(vec![
        ("detail".to_string(), s("D")),
        ("title".to_string(), s("T")),
    ]);
    let p = decode_problem_details(&j).expect("an object parses");
    assert_eq!(p.detail.as_deref(), Some("D"));
    assert_eq!(p.title.as_deref(), Some("T"));

    let empty = decode_problem_details(&Json::Obj(vec![])).expect("an empty object parses");
    assert!(empty.detail.is_none());
    assert!(empty.title.is_none());
}

#[test]
fn problem_details_rejects_non_objects_and_mistyped_fields() {
    assert!(decode_problem_details(&s("oops")).is_none());
    assert!(decode_problem_details(&Json::Int(3)).is_none());
    let mistyped = Json::Obj(vec![("detail".to_string(), Json::Int(3))]);
    assert!(decode_problem_details(&mistyped).is_none());
}
