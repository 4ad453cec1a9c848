use zeroclaw::calculator::CalcGate;
use zeroclaw::calculator::CalculatorTool;
use zeroclaw::email::EmailGate;
use zeroclaw::email::EmailSendTool;
use zeroclaw::email::EmailToolConfig;
use zeroclaw::email::mime_for_extension;
use zeroclaw::email::resolve_password;
use zeroclaw::jsonval::JsonStrArray;
use zeroclaw::search::SearchGate;
use zeroclaw::search::SearchResult;
use zeroclaw::search::WebSearchTool;
use zeroclaw::search::format_results;
use zeroclaw::search::render_response;
use zeroclaw::search::truncate_string;
use zeroclaw::security::AutonomyLevel;
use zeroclaw::security::SecurityPolicy;

fn test_security(level: AutonomyLevel, max_actions_per_hour: u32) -> SecurityPolicy {
    SecurityPolicy::new(level, max_actions_per_hour, "/tmp/zeroclaw-ws".to_string())
}

fn test_config() -> EmailToolConfig {
    EmailToolConfig {
        enabled: true,
        smtp_host: "smtp.example.com".into(),
        smtp_port: 465,
        smtp_tls: true,
        username: "test_user".into(),
        password: "test_pass".into(),
        from_address: "zeroclaw_bot@example.com".into(),
        allowed_recipients: vec!["allowed@example.com".into(), "@corp.example.com".into()],
    }
}

fn args(text: &str) -> serde_json::Value {
    serde_json::from_str(text).unwrap()
}

// --- calculator -------------------------------------------------------

#[test]
fn calculator_tool_name() {
    let tool = CalculatorTool::new(test_security(AutonomyLevel::Full, 100));
    assert_eq!(tool.name(), "calculator");
}

#[test]
fn calculator_tool_schema_contains_expression() {
    let tool = CalculatorTool::new(test_security(AutonomyLevel::Full, 100));
    let schema = tool.parameters_schema();
    assert!(schema["properties"].get("expression").is_some());
    assert!(schema["properties"].get("precision").is_some());
    assert!(schema["required"]
        .as_array()
        .unwrap()
        .contains(&serde_json::Value::String("expression".into())));
}

#[test]
fn calculator_accepts_basic_expression() {
    let mut tool = CalculatorTool::new(test_security(AutonomyLevel::Full, 100));
    match tool.check_request_json(&args(r#"{"expression":"(3+5)*2^3"}"#), 10) {
        CalcGate::Evaluate { expression, precision } => {
            assert_eq!(expression, "(3+5)*2^3");
            assert_eq!(precision, 6);
        }
        _ => panic!("expected an accepted request"),
    }
}

#[test]
fn calculator_trims_and_respects_precision() {
    let mut tool = CalculatorTool::new(test_security(AutonomyLevel::Full, 100));
    match tool.check_request(Some("  10/3  ".into()), Some(2), 10) {
        CalcGate::Evaluate { expression, precision } => {
            assert_eq!(expression, "10/3");
            assert_eq!(precision, 2);
        }
        _ => panic!("expected an accepted request"),
    }
}

#[test]
fn calculator_rejects_missing_expression() {
    let mut tool = CalculatorTool::new(test_security(AutonomyLevel::Full, 100));
    assert!(matches!(
        tool.check_request(None, None, 10),
        CalcGate::MissingExpression
    ));
    assert!(matches!(
        tool.check_request(Some("   ".into()), None, 10),
        CalcGate::MissingExpression
    ));
}

#[test]
fn calculator_rejects_large_precision() {
    let mut tool = CalculatorTool::new(test_security(AutonomyLevel::Full, 100));
    assert!(matches!(
        tool.check_request(Some("1/3".into()), Some(20), 10),
        CalcGate::PrecisionTooLarge
    ));
}

#[test]
fn calculator_rejects_overlong_expression() {
    let mut tool = CalculatorTool::new(test_security(AutonomyLevel::Full, 100));
    let long = "1+".repeat(101);
    assert!(matches!(
        tool.check_request(Some(long), None, 10),
        CalcGate::TooLong
    ));
}

#[test]
fn calculator_blocks_when_rate_limited() {
    let mut tool = CalculatorTool::new(test_security(AutonomyLevel::Full, 0));
    assert!(matches!(
        tool.check_request(Some("1+1".into()), None, 10),
        CalcGate::RateLimited
    ));
}

// --- email ------------------------------------------------------------

#[test]
fn email_send_tool_name() {
    let tool = EmailSendTool::new(test_security(AutonomyLevel::Full, 100), test_config());
    assert_eq!(tool.name(), "email_send");
}

#[test]
fn email_send_tool_description() {
    let tool = EmailSendTool::new(test_security(AutonomyLevel::Full, 100), test_config());
    assert!(!tool.description().is_empty());
}

#[test]
fn email_send_tool_has_parameters_schema() {
    let tool = EmailSendTool::new(test_security(AutonomyLevel::Full, 100), test_config());
    let schema = tool.parameters_schema();
    assert_eq!(schema["type"], "object");
    assert!(schema["properties"].get("to").is_some());
    assert!(schema["properties"].get("subject").is_some());
    assert!(schema["properties"].get("body").is_some());
    assert!(schema["properties"].get("html").is_some());
    assert!(schema["properties"].get("attachments").is_some());
}

#[test]
fn email_send_tool_requires_to_subject_body() {
    let tool = EmailSendTool::new(test_security(AutonomyLevel::Full, 100), test_config());
    let schema = tool.parameters_schema();
    let required = schema["required"].as_array().unwrap();
    assert!(required.contains(&serde_json::Value::String("to".into())));
    assert!(required.contains(&serde_json::Value::String("subject".into())));
    assert!(required.contains(&serde_json::Value::String("body".into())));
}

#[test]
fn recipient_check_is_case_insensitive() {
    let tool = EmailSendTool::new(test_security(AutonomyLevel::Full, 100), test_config());
    assert!(tool.is_recipient_allowed("Allowed@Example.COM"));
    assert!(tool.is_recipient_allowed("user_a@Corp.Example.Com"));
}

#[test]
fn email_plan_blocks_readonly_mode() {
    let mut tool = EmailSendTool::new(test_security(AutonomyLevel::ReadOnly, 100), test_config());
    let g = tool.plan_send_json(
        &args(r#"{"to":"allowed@example.com","subject":"hi","body":"hello"}"#),
        10,
    );
    assert!(matches!(g, EmailGate::ReadOnly));
}

#[test]
fn email_plan_blocks_rate_limit() {
    let mut tool = EmailSendTool::new(test_security(AutonomyLevel::Full, 0), test_config());
    let g = tool.plan_send_json(
        &args(r#"{"to":"allowed@example.com","subject":"hi","body":"hello"}"#),
        10,
    );
    assert!(matches!(g, EmailGate::RateLimited));
}

#[test]
fn email_plan_rejects_disallowed_recipient() {
    let mut tool = EmailSendTool::new(test_security(AutonomyLevel::Full, 100), test_config());
    let g = tool.plan_send_json(
        &args(r#"{"to":"stranger@evil.com","subject":"hi","body":"hello"}"#),
        10,
    );
    match g {
        EmailGate::RecipientNotAllowed { to } => assert_eq!(to, "stranger@evil.com"),
        _ => panic!("expected the recipient gate to refuse"),
    }
}

#[test]
fn email_plan_allows_exact_recipient() {
    let mut tool = EmailSendTool::new(test_security(AutonomyLevel::Full, 100), test_config());
    let g = tool.plan_send_json(
        &args(r#"{"to":"allowed@example.com","subject":"hi","body":"hello"}"#),
        10,
    );
    match g {
        EmailGate::Send { to, subject, body, html, attachment_candidates } => {
            assert_eq!(to, "allowed@example.com");
            assert_eq!(subject, "hi");
            assert_eq!(body, "hello");
            assert!(!html);
            assert!(attachment_candidates.is_empty());
        }
        _ => panic!("expected the plan to reach the send stage"),
    }
}

#[test]
fn email_plan_allows_domain_suffix_recipient() {
    let mut tool = EmailSendTool::new(test_security(AutonomyLevel::Full, 100), test_config());
    let g = tool.plan_send_json(
        &args(r#"{"to":"user_a@corp.example.com","subject":"hi","body":"hello"}"#),
        10,
    );
    assert!(matches!(g, EmailGate::Send { .. }));
}

#[test]
fn email_plan_rejects_empty_allowed_list() {
    let mut cfg = test_config();
    cfg.allowed_recipients = vec![];
    let mut tool = EmailSendTool::new(test_security(AutonomyLevel::Full, 100), cfg);
    let g = tool.plan_send_json(
        &args(r#"{"to":"anyone@example.com","subject":"hi","body":"hello"}"#),
        10,
    );
    assert!(matches!(g, EmailGate::RecipientNotAllowed { .. }));
}

#[test]
fn email_plan_allows_wildcard_recipients() {
    let mut cfg = test_config();
    cfg.allowed_recipients = vec!["*".into()];
    let mut tool = EmailSendTool::new(test_security(AutonomyLevel::Full, 100), cfg);
    let g = tool.plan_send_json(
        &args(r#"{"to":"anyone@anywhere.com","subject":"hi","body":"hello"}"#),
        10,
    );
    assert!(matches!(g, EmailGate::Send { .. }));
}

#[test]
fn email_plan_rejects_empty_smtp_host() {
    let mut cfg = test_config();
    cfg.smtp_host = String::new();
    cfg.allowed_recipients = vec!["*".into()];
    let mut tool = EmailSendTool::new(test_security(AutonomyLevel::Full, 100), cfg);
    let g = tool.plan_send_json(
        &args(r#"{"to":"user_a@example.com","subject":"hi","body":"hello"}"#),
        10,
    );
    assert!(matches!(g, EmailGate::NoSmtpHost));
}

#[test]
fn email_plan_rejects_missing_parameters() {
    let mut tool = EmailSendTool::new(test_security(AutonomyLevel::Full, 100), test_config());
    assert!(matches!(
        tool.plan_send_json(&args(r#"{"subject":"hi","body":"hello"}"#), 10),
        EmailGate::MissingTo
    ));
    assert!(matches!(
        tool.plan_send_json(&args(r#"{"to":"allowed@example.com","body":"hello"}"#), 11),
        EmailGate::MissingSubject
    ));
    assert!(matches!(
        tool.plan_send_json(&args(r#"{"to":"allowed@example.com","subject":"hi"}"#), 12),
        EmailGate::MissingBody
    ));
}

#[test]
fn email_plan_rejects_non_array_attachments() {
    let mut tool = EmailSendTool::new(test_security(AutonomyLevel::Full, 100), test_config());
    let g = tool.plan_send_json(
        &args(
            r#"{"to":"allowed@example.com","subject":"hello","body":"world","attachments":"not-an-array"}"#,
        ),
        10,
    );
    assert!(matches!(g, EmailGate::AttachmentsNotArray));
}

#[test]
fn email_plan_rejects_absolute_attachment_path() {
    let mut cfg = test_config();
    cfg.allowed_recipients = vec!["*".into()];
    let mut tool = EmailSendTool::new(test_security(AutonomyLevel::Full, 100), cfg);
    let g = tool.plan_send_json(
        &args(
            r#"{"to":"user_a@example.com","subject":"hello","body":"world","attachments":["/etc/hosts"]}"#,
        ),
        10,
    );
    match g {
        EmailGate::AttachmentRefused { index } => assert_eq!(index, 0),
        _ => panic!("expected the sandbox pre-check to refuse"),
    }
}

#[test]
fn email_plan_joins_relative_attachments_under_workspace() {
    let mut cfg = test_config();
    cfg.allowed_recipients = vec!["*".into()];
    let mut tool = EmailSendTool::new(test_security(AutonomyLevel::Full, 100), cfg);
    let g = tool.plan_send_json(
        &args(
            r#"{"to":"user_a@example.com","subject":"hello","body":"world","attachments":["notes/a.txt","b.png"]}"#,
        ),
        10,
    );
    match g {
        EmailGate::Send { attachment_candidates, .. } => {
            assert_eq!(
                attachment_candidates,
                vec![
                    "/tmp/zeroclaw-ws/notes/a.txt".to_string(),
                    "/tmp/zeroclaw-ws/b.png".to_string()
                ]
            );
        }
        _ => panic!("expected the plan to reach the send stage"),
    }
}

#[test]
fn email_plan_rejects_blank_attachment_entry() {
    let mut cfg = test_config();
    cfg.allowed_recipients = vec!["*".into()];
    let mut tool = EmailSendTool::new(test_security(AutonomyLevel::Full, 100), cfg);
    let g = tool.plan_send(
        Some("user_a@example.com".into()),
        Some("hello".into()),
        Some("world".into()),
        None,
        JsonStrArray::Items(vec![Some("ok.txt".into()), Some("   ".into())]),
        10,
    );
    match g {
        EmailGate::AttachmentBadItem { index } => assert_eq!(index, 1),
        _ => panic!("expected the blank entry to be refused"),
    }
}

#[test]
fn password_prefers_config_then_environment() {
    assert_eq!(
        resolve_password(&"conf".to_string(), Some("env".to_string())),
        Some("conf".to_string())
    );
    assert_eq!(
        resolve_password(&String::new(), Some("env_secret".to_string())),
        Some("env_secret".to_string())
    );
    assert_eq!(resolve_password(&String::new(), Some(String::new())), None);
    assert_eq!(resolve_password(&String::new(), None), None);
}

#[test]
fn attachment_size_limit_is_ten_megabytes() {
    assert!(zeroclaw::email::attachment_size_ok(0));
    assert!(zeroclaw::email::attachment_size_ok(10 * 1024 * 1024));
    assert!(!zeroclaw::email::attachment_size_ok(10 * 1024 * 1024 + 1));
}

#[test]
fn mime_types_follow_the_extension() {
    assert_eq!(mime_for_extension("txt"), "text/plain; charset=utf-8");
    assert_eq!(mime_for_extension("html"), "text/html; charset=utf-8");
    assert_eq!(mime_for_extension("json"), "application/json");
    assert_eq!(mime_for_extension("pdf"), "application/pdf");
    assert_eq!(mime_for_extension("jpeg"), "image/jpeg");
    assert_eq!(mime_for_extension("bin"), "application/octet-stream");
    assert_eq!(mime_for_extension(""), "application/octet-stream");
}

// --- web search -------------------------------------------------------

fn test_tool() -> WebSearchTool {
    WebSearchTool::new("test-api-key".into(), 5, 10)
}

#[test]
fn tool_name_is_web_search() {
    let tool = test_tool();
    assert_eq!(tool.name(), "web_search");
}

#[test]
fn tool_has_description() {
    let tool = test_tool();
    assert!(!tool.description().is_empty());
    assert!(tool.description().contains("Brave"));
}

#[test]
fn parameters_schema_requires_query() {
    let tool = test_tool();
    let schema = tool.parameters_schema();
    assert_eq!(schema["type"], "object");
    assert!(schema["properties"]["query"].is_object());
    assert!(schema["required"]
        .as_array()
        .unwrap()
        .contains(&serde_json::Value::String("query".into())));
}

#[test]
fn search_plan_rejects_empty_query() {
    let tool = test_tool();
    let g = tool.plan_search_json(&args(r#"{"query":"   "}"#));
    assert!(matches!(g, SearchGate::EmptyQuery));
}

#[test]
fn search_plan_rejects_missing_api_key() {
    let tool = WebSearchTool::new(String::new(), 5, 10);
    let g = tool.plan_search_json(&args(r#"{"query":"rust programming"}"#));
    assert!(matches!(g, SearchGate::NoApiKey));
}

#[test]
fn search_plan_clamps_count() {
    let tool = test_tool();
    match tool.plan_search_json(&args(r#"{"query":"rust","count":50}"#)) {
        SearchGate::Fetch { query, count } => {
            assert_eq!(query, "rust");
            assert_eq!(count, 20);
        }
        _ => panic!("expected an accepted request"),
    }
    match tool.plan_search_json(&args(r#"{"query":"rust"}"#)) {
        SearchGate::Fetch { count, .. } => assert_eq!(count, 5),
        _ => panic!("expected an accepted request"),
    }
}

#[test]
fn resolve_api_key_prefers_config() {
    let key = WebSearchTool::resolve_api_key(Some("config-key"), None);
    assert_eq!(key, Some("config-key".into()));
}

#[test]
fn resolve_api_key_ignores_empty_config() {
    let key = WebSearchTool::resolve_api_key(Some("  "), Some("env-key".into()));
    assert_eq!(key, Some("env-key".into()));
    let none = WebSearchTool::resolve_api_key(Some("  "), None);
    assert!(none.is_none());
}

#[test]
fn truncate_string_within_limit() {
    let s = "hello world";
    assert_eq!(truncate_string(s, 100), "hello world");
}

#[test]
fn truncate_string_over_limit() {
    let s = "hello world this is a long string";
    let truncated = truncate_string(s, 10);
    assert!(truncated.len() <= 13);
    assert!(truncated.ends_with("..."));
}

#[test]
fn formatted_results_number_and_join_entries() {
    let items = vec![
        SearchResult {
            title: Some("First".into()),
            url: Some("https://a.example".into()),
            description: Some("alpha".into()),
        },
        SearchResult {
            title: None,
            url: None,
            description: None,
        },
    ];
    let out = format_results(&items, 5);
    assert_eq!(
        out,
        "1. First\n   URL: https://a.example\n   alpha\n\n2. No title\n   URL: \n   No description"
    );
}

#[test]
fn formatted_results_respect_count() {
    let items = vec![
        SearchResult {
            title: Some("A".into()),
            url: Some("u1".into()),
            description: Some("d1".into()),
        },
        SearchResult {
            title: Some("B".into()),
            url: Some("u2".into()),
            description: Some("d2".into()),
        },
    ];
    let out = format_results(&items, 1);
    assert_eq!(out, "1. A\n   URL: u1\n   d1");
}

#[test]
fn empty_results_yield_notice() {
    let out = format_results(&Vec::new(), 5);
    assert_eq!(out, "No results found for the given query.");
}

#[test]
fn render_response_reads_web_results() {
    let body = args(
        r#"{"web":{"results":[{"title":"T","url":"https://t.example","description":"D"}]}}"#,
    );
    let out = render_response(&body, 5);
    assert_eq!(out, "1. T\n   URL: https://t.example\n   D");
    let empty = render_response(&args(r#"{"web":{}}"#), 5);
    assert_eq!(empty, "No results found for the given query.");
}
