use superego::bd::{classify_command_failure, evaluate, parse_tasks_body, BdError, BdIssue};

fn task(id: &str, title: &str) -> BdIssue {
    BdIssue { id: id.to_string(), title: title.to_string() }
}

#[test]
fn uninitialized_tracker_imposes_nothing() {
    let signal = evaluate(false, vec![task("t-1", "ignored")]);
    assert!(!signal.read_only);
    assert!(signal.current_task.is_none());
    assert!(signal.feedback.is_none());
}

#[test]
fn zero_tasks_means_read_only() {
    let signal = evaluate(true, vec![]);
    assert!(signal.read_only);
    assert!(signal.current_task.is_none());
    assert_eq!(
        signal.feedback.unwrap(),
        "No task in progress. Claim a task with `bd update <id> --status in_progress` before making changes."
    );
}

#[test]
fn one_task_is_the_current_one() {
    let signal = evaluate(true, vec![task("t-1", "wire the hook")]);
    assert!(!signal.read_only);
    assert_eq!(signal.current_task.unwrap(), task("t-1", "wire the hook"));
    assert!(signal.feedback.is_none());
}

#[test]
fn two_tasks_are_allowed_but_flagged() {
    let signal = evaluate(true, vec![task("t-1", "first"), task("t-2", "second")]);
    assert!(!signal.read_only);
    assert_eq!(signal.current_task.unwrap(), task("t-1", "first"));
    assert_eq!(
        signal.feedback.unwrap(),
        "Multiple tasks in progress (t-1: first, t-2: second). Consider focusing on one at a time."
    );
}

#[test]
fn known_phrases_mean_not_initialized() {
    assert!(matches!(
        classify_command_failure("error: bd not initialized in this directory"),
        BdError::NotInitialized
    ));
    assert!(matches!(classify_command_failure("No database found"), BdError::NotInitialized));
    match classify_command_failure("permission denied") {
        BdError::CommandFailed(m) => assert_eq!(m, "permission denied"),
        other => panic!("expected CommandFailed, got {:?}", other),
    }
}

#[test]
fn empty_listings_mean_no_tasks() {
    assert_eq!(parse_tasks_body("").unwrap(), vec![]);
    assert_eq!(parse_tasks_body("  \n").unwrap(), vec![]);
    assert_eq!(parse_tasks_body(" [] \n").unwrap(), vec![]);
}

#[test]
fn listing_entries_are_read_in_order() {
    let body = r#"[{"id": "t-9", "title": "nine", "status": "in_progress"}, {"id": "t-3", "title": "three"}]"#;
    let tasks = parse_tasks_body(body).unwrap();
    assert_eq!(tasks, vec![task("t-9", "nine"), task("t-3", "three")]);
}

#[test]
fn malformed_listings_are_parse_errors() {
    assert!(matches!(parse_tasks_body("{\"id\": \"t\"}"), Err(BdError::ParseError(_))));
    assert!(matches!(parse_tasks_body("[{\"id\": \"t\"}]"), Err(BdError::ParseError(_))));
    assert!(matches!(parse_tasks_body("not json"), Err(BdError::ParseError(_))));
}
