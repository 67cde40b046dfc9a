use sendkit::{
    finish_failure, finish_success, reply_action, ErrorResponse, ReplyAction, SendEmailParams,
    SendEmailResponse, SendKit, SendKitError, SendMimeEmailParams, SendMimeEmailResponse,
};

const SERVER_URI: &str = "http://127.0.0.1:8080";

#[test]
fn test_new_client_with_api_key() {
    let client = SendKit::new("sk_test_123", None);
    assert!(client.is_ok());
}

#[test]
fn test_env_variable_fallback() {
    // 1. Missing API key when the environment has no value
    let client = SendKit::new("", None);
    assert!(matches!(client, Err(SendKitError::MissingApiKey)));

    // 2. Fallback to the environment's value when the key is empty
    let client = SendKit::new("", Some("sk_from_env"));
    assert!(client.is_ok());
    assert_eq!(client.unwrap().api_key(), "sk_from_env");
}

#[test]
fn test_custom_base_url() {
    let client = SendKit::with_base_url("sk_test_123", "https://custom.api.com", None);
    assert!(client.is_ok());
    assert_eq!(client.unwrap().base_url(), "https://custom.api.com");
}

#[test]
fn test_send_email() {
    let client = SendKit::with_base_url("sk_test_123", SERVER_URI, None).unwrap();
    let request = client.emails.send_request(
        &client,
        &SendEmailParams {
            from: "sender@example.com".into(),
            to: vec!["recipient@example.com".into()],
            subject: "Test Email".into(),
            html: Some("<p>Hello</p>".into()),
            text: None,
            cc: None,
            bcc: None,
            reply_to: None,
            headers: None,
            tags: None,
            scheduled_at: None,
            attachments: None,
        },
    );
    assert_eq!(request.url, "http://127.0.0.1:8080/v1/emails");
    assert_eq!(request.authorization, "Bearer sk_test_123");

    assert!(matches!(reply_action(200), ReplyAction::DecodeBody));
    let result = finish_success(Ok(SendEmailResponse { id: "email-uuid-123".into() }));
    assert!(result.is_ok());
    assert_eq!(result.unwrap().id, "email-uuid-123");
}

#[test]
fn test_send_with_optional_fields() {
    let client = SendKit::with_base_url("sk_test_123", SERVER_URI, None).unwrap();
    let request = client.emails.send_request(
        &client,
        &SendEmailParams {
            from: "sender@example.com".into(),
            to: vec!["recipient@example.com".into()],
            subject: "Test".into(),
            html: Some("<p>Hi</p>".into()),
            text: None,
            cc: None,
            bcc: None,
            reply_to: Some("reply@example.com".into()),
            headers: None,
            tags: None,
            scheduled_at: Some("2026-03-01T10:00:00Z".into()),
            attachments: None,
        },
    );
    assert_eq!(request.url, "http://127.0.0.1:8080/v1/emails");
    assert_eq!(
        request.body,
        "{\"from\":\"sender@example.com\",\"to\":[\"recipient@example.com\"],\"subject\":\"Test\",\
         \"html\":\"<p>Hi</p>\",\"reply_to\":\"reply@example.com\",\
         \"scheduled_at\":\"2026-03-01T10:00:00Z\"}"
    );

    let result = finish_success(Ok(SendEmailResponse { id: "email-uuid-456".into() }));
    assert!(result.is_ok());
}

#[test]
fn test_send_mime_email() {
    let client = SendKit::with_base_url("sk_test_123", SERVER_URI, None).unwrap();
    let request = client.emails.send_mime_request(
        &client,
        &SendMimeEmailParams {
            envelope_from: "sender@example.com".into(),
            envelope_to: "recipient@example.com".into(),
            raw_message: "From: sender@example.com\r\nTo: recipient@example.com\r\n\r\nHello".into(),
        },
    );
    assert_eq!(request.url, "http://127.0.0.1:8080/v1/emails/mime");
    assert_eq!(request.authorization, "Bearer sk_test_123");
    assert_eq!(
        request.body,
        "{\"envelope_from\":\"sender@example.com\",\"envelope_to\":\"recipient@example.com\",\
         \"raw_message\":\"From: sender@example.com\\r\\nTo: recipient@example.com\\r\\n\\r\\nHello\"}"
    );

    let result = finish_success(Ok(SendMimeEmailResponse { id: "mime-uuid-789".into() }));
    assert!(result.is_ok());
    assert_eq!(result.unwrap().id, "mime-uuid-789");
}

#[test]
fn test_api_error() {
    let client = SendKit::with_base_url("sk_test_123", SERVER_URI, None).unwrap();
    let request = client.emails.send_request(
        &client,
        &SendEmailParams {
            from: "sender@example.com".into(),
            to: vec![],
            subject: "Test".into(),
            html: Some("<p>Hi</p>".into()),
            text: None,
            cc: None,
            bcc: None,
            reply_to: None,
            headers: None,
            tags: None,
            scheduled_at: None,
            attachments: None,
        },
    );
    assert_eq!(request.url, "http://127.0.0.1:8080/v1/emails");

    assert!(matches!(reply_action(422), ReplyAction::DecodeEnvelope));
    let result: Result<SendEmailResponse, SendKitError> = Err(finish_failure(Some(ErrorResponse {
        name: "validation_error".into(),
        message: "The to field is required.".into(),
        status_code: Some(422),
    })));

    assert!(result.is_err());
    if let Err(SendKitError::Api(err)) = result {
        assert_eq!(err.name, "validation_error");
        assert_eq!(err.status_code, Some(422));
        assert_eq!(err.message, "The to field is required.");
    } else {
        panic!("Expected Api error");
    }
}
