use superego::config::Config;

#[test]
fn test_default_config() {
    let config = Config::default();
    assert_eq!(config.eval_interval_minutes, 5);
    assert_eq!(config.carryover_decision_count, 2);
    assert_eq!(config.carryover_window_minutes, 5);
}

#[test]
fn test_load_partial_config() {
    let config = Config::from_content("carryover_decision_count: 5\n");
    assert_eq!(config.carryover_decision_count, 5);
    assert_eq!(config.carryover_window_minutes, 5); // default
    assert_eq!(config.eval_interval_minutes, 5); // default
}

#[test]
fn test_load_full_config() {
    let config = Config::from_content(
        "eval_interval_minutes: 10\ncarryover_decision_count: 3\ncarryover_window_minutes: 7\n",
    );
    assert_eq!(config.eval_interval_minutes, 10);
    assert_eq!(config.carryover_decision_count, 3);
    assert_eq!(config.carryover_window_minutes, 7);
}

#[test]
fn empty_content_keeps_defaults() {
    assert_eq!(Config::from_content(""), Config::default());
}

#[test]
fn comments_blanks_and_unknown_keys_are_ignored() {
    let config = Config::from_content(
        "# a comment\n\nmodel: sonnet\n   # indented comment\neval_interval_minutes: 9\n",
    );
    assert_eq!(config.eval_interval_minutes, 9);
    assert_eq!(config.carryover_decision_count, 2);
}

#[test]
fn unreadable_values_fall_back_individually() {
    let config = Config::from_content(
        "eval_interval_minutes: soon\ncarryover_decision_count: 4\ncarryover_window_minutes: 99999999999999999999\n",
    );
    assert_eq!(config.eval_interval_minutes, 5);
    assert_eq!(config.carryover_decision_count, 4);
    assert_eq!(config.carryover_window_minutes, 5);
}

#[test]
fn values_are_trimmed_and_signs_accepted() {
    let config = Config::from_content("  eval_interval_minutes :  -3 \ncarryover_decision_count: +6\r\n");
    assert_eq!(config.eval_interval_minutes, -3);
    assert_eq!(config.carryover_decision_count, 6);
}

#[test]
fn negative_count_is_rejected() {
    let config = Config::from_content("carryover_decision_count: -2\n");
    assert_eq!(config.carryover_decision_count, 2);
}
