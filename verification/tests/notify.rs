use backend::encryption::EncryptionError;
use backend::errors::AppError;
use backend::notify::{
    alert_notification_result, encryption_error_text, get_channel_templates,
    notification_error_to_app_error, plan_webhook_request, record_send_outcome,
    render_webhook_body, sender_error_text, sender_for_channel, test_message, ChannelConfig,
    HttpMethod, NotificationError, SenderError, SenderKind,
};

fn webhook(method: &str, headers: Option<Vec<(&str, &str)>>, body: Option<&str>) -> ChannelConfig {
    ChannelConfig::Webhook {
        url: "https://hooks.example/x".to_string(),
        method: method.to_string(),
        headers: headers.map(|h| h.into_iter().map(|(k, v)| (k.to_string(), v.to_string())).collect()),
        body_template: body.map(|b| b.to_string()),
    }
}

fn invalid_configuration(r: Result<backend::notify::WebhookRequest, SenderError>) -> String {
    match r {
        Err(SenderError::InvalidConfiguration(m)) => m,
        other => panic!("unexpected {:?}", other),
    }
}

#[test]
fn webhook_post_with_own_template() {
    let req = plan_webhook_request(webhook("post", Some(vec![("X-Token", "abc")]), Some("{\"t\": 1}")), "hello").unwrap();
    assert_eq!(req.url, "https://hooks.example/x");
    assert_eq!(req.method, HttpMethod::Post);
    assert_eq!(req.headers, vec![("X-Token".to_string(), "abc".to_string())]);
    assert_eq!(req.body_template, Some("{\"t\": 1}".to_string()));
}

#[test]
fn webhook_post_falls_back_to_message() {
    let req = plan_webhook_request(webhook("POST", None, None), "hello").unwrap();
    assert_eq!(req.body_template, Some("hello".to_string()));
    assert!(req.headers.is_empty());
}

#[test]
fn webhook_get_has_no_body() {
    let req = plan_webhook_request(webhook("Get", None, Some("ignored")), "hello").unwrap();
    assert_eq!(req.method, HttpMethod::Get);
    assert_eq!(req.body_template, None);
}

#[test]
fn webhook_method_is_upper_cased_by_unicode_rules() {
    // U+017F LATIN SMALL LETTER LONG S upper-cases to `S`.
    let req = plan_webhook_request(webhook("po\u{17f}t", None, None), "m").unwrap();
    assert_eq!(req.method, HttpMethod::Post);
}

#[test]
fn webhook_refuses_other_methods() {
    assert_eq!(invalid_configuration(plan_webhook_request(webhook("put", None, None), "m")), "Unsupported HTTP method: put");
}

#[test]
fn webhook_refuses_bad_headers() {
    assert_eq!(
        invalid_configuration(plan_webhook_request(webhook("POST", Some(vec![("bad name", "v")]), None), "m")),
        "Invalid header name: invalid HTTP header name"
    );
    assert_eq!(
        invalid_configuration(plan_webhook_request(webhook("POST", Some(vec![("ok", "line\nbreak")]), None), "m")),
        "Invalid header value: failed to parse header value"
    );
    assert_eq!(
        invalid_configuration(plan_webhook_request(
            webhook("POST", Some(vec![("ok", "fine"), ("", "v"), ("x", "\u{7f}")]), None),
            "m"
        )),
        "Invalid header name: invalid HTTP header name"
    );
}

#[test]
fn webhook_refuses_telegram_config() {
    let config = ChannelConfig::Telegram { bot_token: "t".to_string(), chat_id: "c".to_string() };
    assert_eq!(
        invalid_configuration(plan_webhook_request(config, "m")),
        "Expected Webhook config, but found a different type."
    );
}

#[test]
fn webhook_body_rendering() {
    let ctx = vec![("vps_name".to_string(), "web-1".to_string()), ("value".to_string(), "93".to_string())];
    let body = render_webhook_body("{\"text\": \"{{ vps_name }} at {{ value }}%\"}", &ctx).unwrap();
    assert_eq!(body, "{\"text\": \"web-1 at 93%\"}");
    assert!(matches!(render_webhook_body("{{ vps_name", &ctx), Err(SenderError::TemplatingError(_))));
    assert!(matches!(render_webhook_body("{{ missing }}", &ctx), Err(SenderError::TemplatingError(_))));
    assert_eq!(render_webhook_body("plain <b>&</b> text\n", &ctx).unwrap(), "plain <b>&</b> text\n");
    assert_eq!(render_webhook_body("", &ctx).unwrap(), "");
}

#[test]
fn senders_by_channel_type() {
    assert_eq!(sender_for_channel("telegram").unwrap(), SenderKind::Telegram);
    assert_eq!(sender_for_channel("webhook").unwrap(), SenderKind::Webhook);
    match sender_for_channel("email") {
        Err(NotificationError::UnsupportedChannel(t)) => assert_eq!(t, "email"),
        other => panic!("unexpected {:?}", other),
    }
}

#[test]
fn test_messages() {
    assert_eq!(test_message(Some("hi".to_string()), "ops"), "hi");
    assert_eq!(test_message(None, "ops"), "This is a test message from channel 'ops'.");
}

#[test]
fn latest_send_error_is_reported() {
    let e = record_send_outcome(None, Err(NotificationError::NotFound(1)));
    let e = record_send_outcome(e, Ok(()));
    let e = record_send_outcome(e, Err(NotificationError::PermissionDenied));
    assert!(matches!(alert_notification_result(e), Err(NotificationError::PermissionDenied)));
    assert!(alert_notification_result(record_send_outcome(None, Ok(()))).is_ok());
}

#[test]
fn error_texts() {
    assert_eq!(encryption_error_text(&EncryptionError::EncryptionFailed("a".to_string())), "Encryption failed: a");
    assert_eq!(encryption_error_text(&EncryptionError::DecryptionFailed("b".to_string())), "Decryption failed: b");
    assert_eq!(encryption_error_text(&EncryptionError::InvalidKeyLength), "Invalid key length");
    assert_eq!(sender_error_text(&SenderError::SendFailed("x".to_string())), "Failed to send notification: x");
    assert_eq!(sender_error_text(&SenderError::InvalidConfiguration("x".to_string())), "Invalid configuration for sender: x");
    assert_eq!(sender_error_text(&SenderError::NetworkError("x".to_string())), "Network error: x");
    assert_eq!(sender_error_text(&SenderError::TemplatingError("x".to_string())), "Templating error: x");
}

#[test]
fn notification_errors_as_api_errors() {
    let check = |e: NotificationError, status: u16, message: &str| {
        assert_eq!(notification_error_to_app_error(e).status_and_message(), (status, message.to_string()));
    };
    check(NotificationError::DatabaseError("db".to_string()), 500, "Database error: db");
    check(NotificationError::EncryptionError(EncryptionError::InvalidKeyLength), 500, "Encryption error: Invalid key length");
    check(NotificationError::SerializationError("eof".to_string()), 400, "Failed to process configuration: eof");
    check(NotificationError::NotFound(3), 404, "Notification channel not found.");
    check(NotificationError::UnsupportedChannel("sms".to_string()), 400, "Unsupported channel type: sms");
    check(
        NotificationError::SenderError(SenderError::NetworkError("down".to_string())),
        500,
        "Failed to send notification: Network error: down",
    );
    check(NotificationError::PermissionDenied, 401, "You do not have permission to access this resource.");
    check(NotificationError::Generic("g".to_string()), 500, "g");
    assert!(matches!(
        notification_error_to_app_error(NotificationError::DatabaseError("db".to_string())),
        AppError::DatabaseError(_)
    ));
}

#[test]
fn channel_templates() {
    let t = get_channel_templates();
    assert_eq!(t.len(), 2);
    assert_eq!(t[0].channel_type, "telegram");
    assert_eq!(t[0].name, "Telegram");
    let names: Vec<&str> = t[0].fields.iter().map(|f| f.name.as_str()).collect();
    assert_eq!(names, vec!["bot_token", "chat_id"]);
    assert_eq!(t[0].fields[0].field_type, "password");
    assert!(t[0].fields[1].required);
    assert_eq!(t[1].channel_type, "webhook");
    assert_eq!(t[1].name, "Custom Webhook");
    let names: Vec<&str> = t[1].fields.iter().map(|f| f.name.as_str()).collect();
    assert_eq!(names, vec!["url", "method", "headers", "body_template"]);
    assert_eq!(t[1].fields[0].help_text, None);
    assert!(!t[1].fields[2].required);
    assert_eq!(t[1].fields[3].label, "Body Template (for POST)");
}
