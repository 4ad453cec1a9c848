use zeroclaw::linq::LinqChannel;

fn make_channel() -> LinqChannel {
    LinqChannel::new(
        "test-api-key".into(),
        "verify-me".into(),
        vec!["+1234567890".into(), "test@example.com".into()],
    )
}

fn payload(text: &str) -> serde_json::Value {
    serde_json::from_str(text).unwrap()
}

#[test]
fn linq_channel_name() {
    let ch = make_channel();
    assert_eq!(ch.name(), "linq");
}

#[test]
fn linq_verify_token() {
    let ch = make_channel();
    assert_eq!(ch.verify_token(), "verify-me");
}

#[test]
fn linq_contact_allowed_exact() {
    let ch = make_channel();
    assert!(ch.is_contact_allowed("+1234567890"));
    assert!(ch.is_contact_allowed("test@example.com"));
    assert!(!ch.is_contact_allowed("+9876543210"));
    assert!(!ch.is_contact_allowed("other@example.com"));
}

#[test]
fn linq_contact_allowed_wildcard() {
    let ch = LinqChannel::new("key".into(), "ver".into(), vec!["*".into()]);
    assert!(ch.is_contact_allowed("+1234567890"));
    assert!(ch.is_contact_allowed("test@example.com"));
    assert!(ch.is_contact_allowed("+9999999999"));
}

#[test]
fn linq_contact_denied_empty() {
    let ch = LinqChannel::new("key".into(), "ver".into(), vec![]);
    assert!(!ch.is_contact_allowed("+1234567890"));
}

#[test]
fn linq_parse_empty_payload() {
    let ch = make_channel();
    let msgs = ch.parse_webhook_payload(&payload("{}"));
    assert!(msgs.is_empty());
}

#[test]
fn linq_parse_valid_sms_message() {
    let ch = LinqChannel::new("key".into(), "ver".into(), vec!["+1234567890".into()]);
    let p = payload(
        r#"{"event":"message_received","data":{"from":"+1234567890","body":"Hello ZeroClaw!","type":"sms","timestamp":"1699999999"}}"#,
    );
    let msgs = ch.parse_webhook_payload(&p);
    assert_eq!(msgs.len(), 1);
    assert_eq!(msgs[0].sender, "+1234567890");
    assert_eq!(msgs[0].content, "Hello ZeroClaw!");
    assert_eq!(msgs[0].channel, "linq-sms");
    assert_eq!(msgs[0].timestamp, 1_699_999_999);
}

#[test]
fn linq_parse_valid_imessage() {
    let ch = LinqChannel::new("key".into(), "ver".into(), vec!["test@example.com".into()]);
    let p = payload(
        r#"{"event":"message_received","data":{"from":"test@example.com","text":"iMessage test","type":"imessage","timestamp":"1700000000"}}"#,
    );
    let msgs = ch.parse_webhook_payload(&p);
    assert_eq!(msgs.len(), 1);
    assert_eq!(msgs[0].sender, "test@example.com");
    assert_eq!(msgs[0].content, "iMessage test");
    assert_eq!(msgs[0].channel, "linq-imessage");
}

#[test]
fn linq_parse_valid_rcs() {
    let ch = LinqChannel::new("key".into(), "ver".into(), vec!["*".into()]);
    let p = payload(
        r#"{"event":"message_received","data":{"from":"+1234567890","message":"RCS test","type":"rcs","timestamp":"1700000001"}}"#,
    );
    let msgs = ch.parse_webhook_payload(&p);
    assert_eq!(msgs.len(), 1);
    assert_eq!(msgs[0].content, "RCS test");
    assert_eq!(msgs[0].channel, "linq-rcs");
}

#[test]
fn linq_parse_unauthorized_contact() {
    let ch = LinqChannel::new("key".into(), "ver".into(), vec!["+1111111111".into()]);
    let p = payload(
        r#"{"event":"message_received","data":{"from":"+9999999999","body":"Spam","type":"sms","timestamp":"1699999999"}}"#,
    );
    let msgs = ch.parse_webhook_payload(&p);
    assert!(msgs.is_empty(), "Unauthorized contacts should be filtered");
}

#[test]
fn linq_parse_ignores_non_message_events() {
    let ch = LinqChannel::new("key".into(), "ver".into(), vec!["*".into()]);
    let p = payload(
        r#"{"event":"message_delivered","data":{"from":"+1234567890","body":"Ignored","type":"sms"}}"#,
    );
    let msgs = ch.parse_webhook_payload(&p);
    assert!(msgs.is_empty(), "Non-message events should be ignored");
}

#[test]
fn linq_parse_missing_data_skipped() {
    let ch = LinqChannel::new("key".into(), "ver".into(), vec!["*".into()]);
    let msgs = ch.parse_webhook_payload(&payload(r#"{"event":"message_received"}"#));
    assert!(msgs.is_empty());
}

#[test]
fn linq_parse_missing_from_field() {
    let ch = LinqChannel::new("key".into(), "ver".into(), vec!["*".into()]);
    let p = payload(r#"{"event":"message_received","data":{"body":"No sender","type":"sms"}}"#);
    let msgs = ch.parse_webhook_payload(&p);
    assert!(msgs.is_empty());
}

#[test]
fn linq_parse_empty_body_skipped() {
    let ch = LinqChannel::new("key".into(), "ver".into(), vec!["*".into()]);
    let p = payload(
        r#"{"event":"message_received","data":{"from":"+1234567890","body":"","type":"sms"}}"#,
    );
    let msgs = ch.parse_webhook_payload(&p);
    assert!(msgs.is_empty());
}

#[test]
fn linq_parse_array_events() {
    let ch = LinqChannel::new("key".into(), "ver".into(), vec!["*".into()]);
    let p = payload(
        r#"[{"event":"message_received","data":{"from":"+1111111111","body":"First","type":"sms","timestamp":"1"}},{"event":"message_received","data":{"from":"+2222222222","body":"Second","type":"sms","timestamp":"2"}}]"#,
    );
    let msgs = ch.parse_webhook_payload(&p);
    assert_eq!(msgs.len(), 2);
    assert_eq!(msgs[0].content, "First");
    assert_eq!(msgs[1].content, "Second");
}

#[test]
fn linq_parse_array_mixed_events_filters_non_message() {
    let ch = LinqChannel::new("key".into(), "ver".into(), vec!["*".into()]);
    let p = payload(
        r#"[{"event":"message_received","data":{"from":"+1111111111","body":"Keep","type":"sms","timestamp":"1"}},{"event":"message_delivered","data":{"from":"+1111111111","status":"delivered"}}]"#,
    );
    let msgs = ch.parse_webhook_payload(&p);
    assert_eq!(msgs.len(), 1);
    assert_eq!(msgs[0].content, "Keep");
}

#[test]
fn linq_parse_unicode_message() {
    let ch = LinqChannel::new("key".into(), "ver".into(), vec!["*".into()]);
    let p = payload(
        "{\"event\":\"message_received\",\"data\":{\"from\":\"+1234567890\",\"body\":\"Hello \u{1F44B} \u{4E16}\u{754C} \u{1F30D} \u{645}\u{631}\u{62D}\u{628}\u{627}\",\"type\":\"sms\",\"timestamp\":\"1\"}}",
    );
    let msgs = ch.parse_webhook_payload(&p);
    assert_eq!(msgs.len(), 1);
    assert_eq!(
        msgs[0].content,
        "Hello \u{1F44B} \u{4E16}\u{754C} \u{1F30D} \u{645}\u{631}\u{62D}\u{628}\u{627}"
    );
}

#[test]
fn linq_parse_text_field_fallback() {
    let ch = LinqChannel::new("key".into(), "ver".into(), vec!["*".into()]);
    let p = payload(
        r#"{"event":"message_received","data":{"from":"+1234567890","text":"Using text field","type":"sms","timestamp":"1"}}"#,
    );
    let msgs = ch.parse_webhook_payload(&p);
    assert_eq!(msgs.len(), 1);
    assert_eq!(msgs[0].content, "Using text field");
}

#[test]
fn linq_parse_message_field_fallback() {
    let ch = LinqChannel::new("key".into(), "ver".into(), vec!["*".into()]);
    let p = payload(
        r#"{"event":"message_received","data":{"from":"+1234567890","message":"Using message field","type":"imessage","timestamp":"1"}}"#,
    );
    let msgs = ch.parse_webhook_payload(&p);
    assert_eq!(msgs.len(), 1);
    assert_eq!(msgs[0].content, "Using message field");
}

#[test]
fn linq_parse_body_takes_precedence() {
    let ch = LinqChannel::new("key".into(), "ver".into(), vec!["*".into()]);
    let p = payload(
        r#"{"event":"message_received","data":{"from":"+1234567890","body":"Body wins","text":"Text ignored","message":"Message ignored","type":"sms","timestamp":"1"}}"#,
    );
    let msgs = ch.parse_webhook_payload(&p);
    assert_eq!(msgs.len(), 1);
    assert_eq!(msgs[0].content, "Body wins");
}

#[test]
fn linq_parse_missing_timestamp_uses_current() {
    let ch = LinqChannel::new("key".into(), "ver".into(), vec!["*".into()]);
    let p = payload(
        r#"{"event":"message_received","data":{"from":"+1234567890","body":"Test","type":"sms"}}"#,
    );
    let msgs = ch.parse_webhook_payload(&p);
    assert_eq!(msgs.len(), 1);
    assert!(msgs[0].timestamp > 0);
}

#[test]
fn linq_parse_missing_type_defaults_to_sms() {
    let ch = LinqChannel::new("key".into(), "ver".into(), vec!["*".into()]);
    let p = payload(
        r#"{"event":"message_received","data":{"from":"+1234567890","body":"Test","timestamp":"1"}}"#,
    );
    let msgs = ch.parse_webhook_payload(&p);
    assert_eq!(msgs.len(), 1);
    assert_eq!(msgs[0].channel, "linq-sms");
}

#[test]
fn linq_channel_fields_stored_correctly() {
    let ch = LinqChannel::new(
        "my-api-key".into(),
        "my-verify-token".into(),
        vec!["+111".into(), "+222".into(), "user@example.com".into()],
    );
    assert_eq!(ch.verify_token(), "my-verify-token");
    assert!(ch.is_contact_allowed("+111"));
    assert!(ch.is_contact_allowed("+222"));
    assert!(ch.is_contact_allowed("user@example.com"));
    assert!(!ch.is_contact_allowed("+333"));
}

#[test]
fn webhook_batch_keeps_two_valid_events_in_order() {
    let ch = LinqChannel::new("key".into(), "ver".into(), vec!["*".into()]);
    let p = payload(
        r#"[{"event":"message_received","data":{"from":"+1","body":"one","type":"sms","timestamp":"1"}},{"event":"message_received","data":{"from":"+2","body":"two","type":"sms","timestamp":"2"}},{"event":"message_delivered","data":{"from":"+1","status":"delivered"}}]"#,
    );
    let msgs = ch.parse_webhook_payload(&p);
    assert_eq!(msgs.len(), 2);
    assert_eq!(msgs[0].content, "one");
    assert_eq!(msgs[1].content, "two");
}

#[test]
fn webhook_scenario_allowlisted_sender_passes() {
    let ch = LinqChannel::new("key".into(), "ver".into(), vec!["+1".into()]);
    let p = payload(
        r#"{"event":"message_received","data":{"from":"+1","body":"hi","type":"sms","timestamp":"5"}}"#,
    );
    let msgs = ch.parse_webhook_payload(&p);
    assert_eq!(msgs.len(), 1);
    assert_eq!(msgs[0].sender, "+1");
    assert_eq!(msgs[0].reply_target, "+1");
    assert_eq!(msgs[0].content, "hi");
    assert_eq!(msgs[0].channel, "linq-sms");
    assert_eq!(msgs[0].timestamp, 5);
}

#[test]
fn webhook_scenario_filtered_sender_yields_nothing() {
    let ch = LinqChannel::new("key".into(), "ver".into(), vec!["+2".into()]);
    let p = payload(
        r#"{"event":"message_received","data":{"from":"+1","body":"hi","type":"sms","timestamp":"5"}}"#,
    );
    let msgs = ch.parse_webhook_payload(&p);
    assert!(msgs.is_empty());
}

#[test]
fn webhook_ids_are_fresh_and_other_fields_stable() {
    let ch = LinqChannel::new("key".into(), "ver".into(), vec!["*".into()]);
    let p = payload(
        r#"{"event":"message_received","data":{"from":"+1","body":"hi","type":"sms","timestamp":"5"}}"#,
    );
    let a = ch.parse_webhook_payload(&p);
    let b = ch.parse_webhook_payload(&p);
    assert_eq!(a.len(), 1);
    assert_eq!(b.len(), 1);
    assert_eq!(a[0].id.len(), 36);
    assert_eq!(b[0].id.len(), 36);
    assert_ne!(a[0].id, b[0].id);
    assert_eq!(a[0].sender, b[0].sender);
    assert_eq!(a[0].reply_target, b[0].reply_target);
    assert_eq!(a[0].content, b[0].content);
    assert_eq!(a[0].channel, b[0].channel);
    assert_eq!(a[0].timestamp, b[0].timestamp);
}
