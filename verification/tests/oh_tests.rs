use superego::oh::{
    classify_api_response, is_configured, parse_config_for_endeavor_id, parse_contexts_body,
    parse_endeavors_body, parse_log_response_body, log_request_body, OhClient, OhConfig, OhError,
    OhIntegration,
};

fn config() -> OhConfig {
    OhConfig { api_url: "http://localhost:3001".to_string(), api_key: "test-key".to_string() }
}

#[test]
fn test_parse_config_extracts_endeavor_id() {
    let content = "# Config\neval_interval_minutes: 5\noh_endeavor_id: my-endeavor-123\n";
    let result = parse_config_for_endeavor_id(content);
    assert_eq!(result, Some("my-endeavor-123".to_string()));
}

#[test]
fn test_parse_config_strips_double_quotes() {
    let content = "oh_endeavor_id: \"quoted-value\"";
    let result = parse_config_for_endeavor_id(content);
    assert_eq!(result, Some("quoted-value".to_string()));
}

#[test]
fn test_parse_config_strips_single_quotes() {
    let content = "oh_endeavor_id: 'single-quoted'";
    let result = parse_config_for_endeavor_id(content);
    assert_eq!(result, Some("single-quoted".to_string()));
}

#[test]
fn test_parse_config_returns_none_when_missing() {
    let content = "eval_interval_minutes: 5\nmodel: sonnet";
    let result = parse_config_for_endeavor_id(content);
    assert!(result.is_none());
}

#[test]
fn test_parse_config_returns_none_for_empty_value() {
    let content = "oh_endeavor_id: ";
    let result = parse_config_for_endeavor_id(content);
    assert!(result.is_none());
}

#[test]
fn test_parse_config_handles_whitespace() {
    let content = "  oh_endeavor_id:   spaced-value  \n";
    let result = parse_config_for_endeavor_id(content);
    assert_eq!(result, Some("spaced-value".to_string()));
}

#[test]
fn test_is_configured_false_when_no_env() {
    assert!(!is_configured(&None));
    assert!(is_configured(&Some(config())));
}

#[test]
fn test_client_new_fails_when_not_configured() {
    let result = OhClient::new(None);
    assert!(matches!(result, Err(OhError::NotConfigured)));
    let client = OhClient::new(Some(config())).unwrap();
    assert_eq!(client.config.api_url, "http://localhost:3001");
}

#[test]
fn urls_are_built_from_the_configuration() {
    let client = OhClient::new(Some(config())).unwrap();
    assert_eq!(client.contexts_url(), "http://localhost:3001/api/contexts");
    assert_eq!(client.logs_url(), "http://localhost:3001/api/logs");
    assert_eq!(
        client.dashboard_url("ctx 7/a"),
        "http://localhost:3001/api/dashboard?contextId=ctx%207%2Fa"
    );
}

#[test]
fn log_request_body_is_exact_json() {
    let body = log_request_body("e-1", "line \"one\"\nline two", "2024-05-01");
    assert_eq!(
        body,
        "{\"entity_type\":\"endeavor\",\"entity_id\":\"e-1\",\"content\":\"line \\\"one\\\"\\nline two\",\"content_type\":\"markdown\",\"log_date\":\"2024-05-01\"}"
    );
    let parsed: serde_json::Value = serde_json::from_str(&body).unwrap();
    assert_eq!(parsed["content"], serde_json::Value::String("line \"one\"\nline two".to_string()));
}

#[test]
fn api_responses_are_sorted_by_status() {
    assert_eq!(classify_api_response(true, 200, "ok".to_string()).unwrap(), "ok");
    match classify_api_response(false, 403, "denied".to_string()) {
        Err(OhError::ApiError(status, body)) => {
            assert_eq!(status, 403);
            assert_eq!(body, "denied");
        }
        other => panic!("expected ApiError, got {:?}", other),
    }
}

#[test]
fn context_listings_come_wrapped_or_bare() {
    let wrapped = r#"{"contexts": [{"id": "c1", "name": "personal"}]}"#;
    let contexts = parse_contexts_body(wrapped).unwrap();
    assert_eq!(contexts.len(), 1);
    assert_eq!(contexts[0].id, "c1");
    assert_eq!(contexts[0].description, None);

    let bare = r#"[{"id": "c2", "name": "shared", "description": "team space"}]"#;
    let contexts = parse_contexts_body(bare).unwrap();
    assert_eq!(contexts[0].description, Some("team space".to_string()));

    assert!(matches!(parse_contexts_body("{\"other\": 1}"), Err(OhError::ParseError(_))));
}

#[test]
fn endeavor_listings_come_wrapped_or_bare() {
    let wrapped = r#"{"nodes": [{"id": "e1", "title": "mission", "node_type": "aim"}]}"#;
    let endeavors = parse_endeavors_body(wrapped).unwrap();
    assert_eq!(endeavors[0].node_type, Some("aim".to_string()));

    let bare = r#"[{"id": "e2", "title": "task"}]"#;
    let endeavors = parse_endeavors_body(bare).unwrap();
    assert_eq!(endeavors[0].id, "e2");
    assert_eq!(endeavors[0].description, None);
}

#[test]
fn log_responses_yield_an_id_or_unknown() {
    assert_eq!(parse_log_response_body(r#"{"log": {"id": "L9"}}"#).unwrap(), "L9");
    assert_eq!(parse_log_response_body(r#"{"log": null}"#).unwrap(), "unknown");
    assert_eq!(parse_log_response_body(r#"{}"#).unwrap(), "unknown");
    assert!(matches!(parse_log_response_body("nope"), Err(OhError::ParseError(_))));
    assert!(matches!(parse_log_response_body("[1, 2]"), Err(OhError::ParseError(_))));
}

#[test]
fn mistyped_optional_members_are_rejected() {
    let bad = r#"[{"id": "c1", "name": "personal", "description": 7}]"#;
    assert!(matches!(parse_contexts_body(bad), Err(OhError::ParseError(_))));
    let bad = r#"{"nodes": [{"id": "e1", "title": "t", "node_type": []}]}"#;
    assert!(matches!(parse_endeavors_body(bad), Err(OhError::ParseError(_))));
}

#[test]
fn integration_needs_both_halves() {
    assert!(OhIntegration::new(None, Some("e-1".to_string())).is_none());
    assert!(OhIntegration::new(Some(config()), None).is_none());
    let integration = OhIntegration::new(Some(config()), Some("e-1".to_string())).unwrap();
    assert_eq!(integration.endeavor_id, "e-1");
    assert_eq!(
        integration.feedback_content("stay in discussion"),
        "## Superego Feedback\n\nstay in discussion"
    );
    let body = integration.feedback_request_body("stay in discussion");
    assert!(body.starts_with(
        "{\"entity_type\":\"endeavor\",\"entity_id\":\"e-1\",\"content\":\"## Superego Feedback\\n\\nstay in discussion\",\"content_type\":\"markdown\",\"log_date\":\""
    ));
}
