use superego::claude::{extract_json, parse_evaluation, ClaudeError, ClaudeOptions};

#[test]
fn test_extract_json_markdown() {
    let result = r#"Here's my evaluation:
```json
{"phase": "ready", "confidence": 0.9}
```
Done."#;
    let json = extract_json(result).unwrap();
    assert!(json.contains("ready"));
}

#[test]
fn test_extract_json_raw() {
    let result = r#"{"phase": "discussing", "confidence": 0.7}"#;
    let json = extract_json(result).unwrap();
    assert!(json.contains("discussing"));
}

#[test]
fn tagged_fence_is_trimmed_exactly() {
    let result = "before ```json\n{\"phase\":\"ready\",\"confidence\":0.9}\n``` after";
    assert_eq!(extract_json(result), Some("{\"phase\":\"ready\",\"confidence\":0.9}"));
}

#[test]
fn bare_object_is_trimmed_exactly() {
    let result = "  {\"phase\":\"discussing\",\"confidence\":0.7}\n";
    assert_eq!(extract_json(result), Some("{\"phase\":\"discussing\",\"confidence\":0.7}"));
}

#[test]
fn plain_prose_extracts_nothing() {
    assert_eq!(extract_json("I am thinking about this."), None);
}

#[test]
fn generic_fence_skips_language_line() {
    let result = "```javascript\n{\"phase\": \"ready\"}\n```";
    assert_eq!(extract_json(result), Some("{\"phase\": \"ready\"}"));
}

#[test]
fn unclosed_fence_extracts_nothing() {
    assert_eq!(extract_json("```json\n{\"phase\": \"ready\"}"), None);
}

#[test]
fn test_parse_evaluation() {
    let result = r#"{"phase": "ready", "confidence": 0.9, "approved_scope": "implement auth"}"#;
    let eval = parse_evaluation(result).unwrap();
    assert_eq!(eval.phase, "ready");
    assert_eq!(eval.confidence, Some("0.9".to_string()));
    assert_eq!(eval.approved_scope, Some("implement auth".to_string()));
}

#[test]
fn test_parse_evaluation_with_concerns() {
    let result = r#"{
            "phase": "discussing",
            "confidence": 0.8,
            "concerns": [
                {"type": "local_maxima", "description": "Haven't explored alternatives"}
            ],
            "reason": "User hasn't confirmed yet"
        }"#;
    let eval = parse_evaluation(result).unwrap();
    assert_eq!(eval.phase, "discussing");
    assert_eq!(eval.concerns.as_ref().unwrap().len(), 1);
    assert_eq!(eval.concerns.as_ref().unwrap()[0].concern_type, "local_maxima");
}

#[test]
fn parse_evaluation_without_json_fails_closed() {
    let err = parse_evaluation("no structured output here").unwrap_err();
    match err {
        ClaudeError::CommandFailed(m) => {
            assert_eq!(m, "No JSON found in model response");
        }
        other => panic!("expected CommandFailed, got {:?}", other),
    }
}

#[test]
fn parse_evaluation_rejects_broken_payload() {
    let err = parse_evaluation("{\"phase\": ").unwrap_err();
    assert!(matches!(err, ClaudeError::ParseError(_)));
}

#[test]
fn parse_evaluation_requires_a_phase() {
    let err = parse_evaluation("{\"confidence\": 0.5}").unwrap_err();
    assert!(matches!(err, ClaudeError::ParseError(_)));
    let err = parse_evaluation("{\"phase\": 3}").unwrap_err();
    assert!(matches!(err, ClaudeError::ParseError(_)));
}

#[test]
fn parse_evaluation_ignores_unknown_members() {
    let eval = parse_evaluation("{\"phase\": \"exploring\", \"never_heard_of_it\": [1, 2]}").unwrap();
    assert_eq!(eval.phase, "exploring");
    assert_eq!(eval.confidence, None);
    assert_eq!(eval.approved_scope, None);
    assert!(eval.concerns.is_none());
    assert_eq!(eval.suggestion, None);
    assert_eq!(eval.reason, None);
}

#[test]
fn default_options_are_empty() {
    let o = ClaudeOptions::default();
    assert_eq!(o.model, None);
    assert_eq!(o.session_id, None);
    assert_eq!(o.timeout_secs, None);
    assert!(!o.no_session_persistence);
}
