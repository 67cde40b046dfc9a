use sendkit::error::decimal_string;
use sendkit::json::string_literal;
use sendkit::{
    finish_failure, reply_action, resolve_api_key, Attachment, ErrorResponse, ReplyAction,
    SendEmailParams, SendKit, SendKitError, SendMimeEmailParams,
};

#[test]
fn explicit_key_wins_over_environment() {
    let client = SendKit::new("sk_explicit", Some("sk_from_env")).unwrap();
    assert_eq!(client.api_key(), "sk_explicit");
    assert_eq!(client.base_url(), "https://api.sendkit.com");
}

#[test]
fn empty_environment_value_counts_as_unset() {
    assert!(matches!(SendKit::new("", Some("")), Err(SendKitError::MissingApiKey)));
    assert!(matches!(resolve_api_key("", Some("")), Err(SendKitError::MissingApiKey)));
    assert!(matches!(resolve_api_key("", None), Err(SendKitError::MissingApiKey)));
}

#[test]
fn resolve_picks_explicit_then_environment() {
    assert_eq!(resolve_api_key("k1", Some("k2")).unwrap(), "k1");
    assert_eq!(resolve_api_key("k1", None).unwrap(), "k1");
    assert_eq!(resolve_api_key("", Some("k2")).unwrap(), "k2");
}

#[test]
fn base_url_override_keeps_key_rules() {
    let client = SendKit::with_base_url("", "http://localhost:9", Some("sk_env")).unwrap();
    assert_eq!(client.api_key(), "sk_env");
    assert_eq!(client.base_url(), "http://localhost:9");
    assert!(matches!(
        SendKit::with_base_url("", "http://localhost:9", None),
        Err(SendKitError::MissingApiKey)
    ));
}

#[test]
fn post_request_appends_path_verbatim() {
    let client = SendKit::with_base_url("abc", "http://h/", None).unwrap();
    let request = client.post_request("/x", "{}".to_string());
    assert_eq!(request.url, "http://h//x");
    assert_eq!(request.authorization, "Bearer abc");
    assert_eq!(request.body, "{}");
}

#[test]
fn default_base_url_is_used_for_sending() {
    let client = SendKit::new("sk_test_123", None).unwrap();
    let request = client.emails.send_mime_request(
        &client,
        &SendMimeEmailParams {
            envelope_from: "a".into(),
            envelope_to: "b".into(),
            raw_message: "c".into(),
        },
    );
    assert_eq!(request.url, "https://api.sendkit.com/v1/emails/mime");
}

#[test]
fn status_classification_bounds() {
    assert!(matches!(reply_action(199), ReplyAction::DecodeEnvelope));
    assert!(matches!(reply_action(200), ReplyAction::DecodeBody));
    assert!(matches!(reply_action(204), ReplyAction::DecodeBody));
    assert!(matches!(reply_action(299), ReplyAction::DecodeBody));
    assert!(matches!(reply_action(300), ReplyAction::DecodeEnvelope));
    assert!(matches!(reply_action(500), ReplyAction::DecodeEnvelope));
}

#[test]
fn undecodable_failure_body_gives_fallback_envelope() {
    match finish_failure(None) {
        SendKitError::Api(e) => {
            assert_eq!(e.name, "application_error");
            assert_eq!(e.message, "Unknown error");
            assert_eq!(e.status_code, None);
        }
        _ => panic!("expected an Api error"),
    }
}

#[test]
fn envelope_text_with_and_without_code() {
    let e = ErrorResponse {
        name: "validation_error".into(),
        message: "The to field is required.".into(),
        status_code: Some(422),
    };
    assert_eq!(e.to_text(), "validation_error (422): The to field is required.");
    assert_eq!(ErrorResponse::fallback().to_text(), "application_error (0): Unknown error");
    assert_eq!(
        SendKitError::Api(e).to_text(),
        "sendkit: validation_error (422): The to field is required."
    );
    assert_eq!(SendKitError::MissingApiKey.to_text(), "sendkit: missing API key");
}

#[test]
fn decimal_digits() {
    assert_eq!(decimal_string(0), "0");
    assert_eq!(decimal_string(7), "7");
    assert_eq!(decimal_string(10), "10");
    assert_eq!(decimal_string(422), "422");
    assert_eq!(decimal_string(65535), "65535");
}

#[test]
fn string_literals_are_quoted_and_escaped() {
    assert_eq!(string_literal("a\"b"), "\"a\\\"b\"");
    assert_eq!(string_literal("line\nnext"), "\"line\\nnext\"");
    assert_eq!(string_literal(""), "\"\"");
}

#[test]
fn unset_optional_fields_are_absent() {
    let params = SendEmailParams {
        from: "a@x".into(),
        to: vec![],
        subject: "s".into(),
        ..Default::default()
    };
    let body = params.to_json();
    assert_eq!(body, "{\"from\":\"a@x\",\"to\":[],\"subject\":\"s\"}");
    assert!(!body.contains("null"));
}

#[test]
fn all_optional_fields_are_encoded_in_order() {
    let params = SendEmailParams {
        from: "a@x".into(),
        to: vec!["b@x".into(), "c@x".into()],
        subject: "s".into(),
        html: Some("<b>h</b>".into()),
        text: Some("t".into()),
        cc: Some(vec!["d@x".into()]),
        bcc: Some(vec![]),
        reply_to: Some("r@x".into()),
        headers: Some(vec![("X-One".into(), "1".into()), ("X-Two".into(), "2".into())]),
        tags: Some(vec!["news".into()]),
        scheduled_at: Some("2026-03-01T10:00:00Z".into()),
        attachments: Some(vec![
            Attachment {
                filename: "a.txt".into(),
                content: "aGk=".into(),
                content_type: Some("text/plain".into()),
            },
            Attachment { filename: "b.bin".into(), content: "AA==".into(), content_type: None },
        ]),
    };
    assert_eq!(
        params.to_json(),
        "{\"from\":\"a@x\",\"to\":[\"b@x\",\"c@x\"],\"subject\":\"s\",\"html\":\"<b>h</b>\",\
         \"text\":\"t\",\"cc\":[\"d@x\"],\"bcc\":[],\"reply_to\":\"r@x\",\
         \"headers\":{\"X-One\":\"1\",\"X-Two\":\"2\"},\"tags\":[\"news\"],\
         \"scheduled_at\":\"2026-03-01T10:00:00Z\",\
         \"attachments\":[{\"filename\":\"a.txt\",\"content\":\"aGk=\",\"content_type\":\"text/plain\"},\
         {\"filename\":\"b.bin\",\"content\":\"AA==\"}]}"
    );
}

#[test]
fn attachment_without_content_type() {
    let a = Attachment { filename: "f".into(), content: "c".into(), content_type: None };
    assert_eq!(a.to_json(), "{\"filename\":\"f\",\"content\":\"c\"}");
}
