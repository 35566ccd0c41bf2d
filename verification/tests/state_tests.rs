use superego::decision::Phase;
use superego::state::{decode_state, encode_state, State, StateError};

#[test]
fn test_default_state() {
    let state = State::default();
    assert_eq!(state.phase, Phase::Exploring);
    assert!(!state.allows_write());
    assert!(!state.disabled);
}

#[test]
fn test_ready_allows_write() {
    let state = State::with_phase(Phase::Ready);
    assert!(state.allows_write());
}

#[test]
fn test_override_allows_write() {
    let mut state = State::with_phase(Phase::Discussing);
    assert!(!state.allows_write());

    state.set_override("user approved".to_string());
    assert!(state.allows_write());

    state.consume_override();
    assert!(!state.allows_write());
}

#[test]
fn test_disabled_allows_write() {
    let mut state = State::with_phase(Phase::Exploring);
    state.disabled = true;
    assert!(state.allows_write());
}

#[test]
fn test_save_and_load() {
    let mut state = State::with_phase(Phase::Ready);
    state.approved_scope = Some("implement auth".to_string());

    let record = encode_state(&state);

    let loaded = decode_state(&record).unwrap();
    assert_eq!(loaded.phase, Phase::Ready);
    assert_eq!(loaded.approved_scope, Some("implement auth".to_string()));
}

#[test]
fn round_trip_keeps_every_field() {
    let mut state = State::with_phase(Phase::Discussing);
    state.approved_scope = Some("scope with \"quotes\" and \\slashes\\\n".to_string());
    state.last_evaluated = Some(-12);
    state.set_override_at("went ahead".to_string(), 99);
    state.disabled = true;

    let loaded = decode_state(&encode_state(&state)).unwrap();
    assert_eq!(loaded, state);
}

#[test]
fn encoded_record_is_the_documented_shape() {
    let mut state = State::with_phase(Phase::Ready);
    state.since = 7;
    state.approved_scope = Some("auth".to_string());
    assert_eq!(
        encode_state(&state),
        "{\n  \"phase\": \"ready\",\n  \"since\": 7,\n  \"approved_scope\": \"auth\",\n  \"last_evaluated\": null,\n  \"pending_override\": null,\n  \"disabled\": false\n}"
    );
}

#[test]
fn corrupt_record_is_reported_not_defaulted() {
    let err = decode_state("{\"phase\": \"ready\"").unwrap_err();
    assert!(matches!(err, StateError::JsonError(_)));
    let err = decode_state("{\"phase\": \"sideways\", \"since\": 1, \"disabled\": false}").unwrap_err();
    assert!(matches!(err, StateError::JsonError(_)));
    let err = decode_state("{\"since\": 1, \"disabled\": false}").unwrap_err();
    assert!(matches!(err, StateError::JsonError(_)));
}

#[test]
fn creation_stamps_the_given_instant() {
    let state = State::with_phase_at(Phase::Discussing, 17);
    assert_eq!(state.phase, Phase::Discussing);
    assert_eq!(state.since, 17);
    assert_eq!(state.last_evaluated, None);
    assert!(!state.disabled);
}

#[test]
fn transition_rewrites_both_timestamps_together() {
    let mut state = State::with_phase(Phase::Exploring);
    state.transition_to_at(Phase::Ready, Some("build feature".to_string()), 41);
    assert_eq!(state.phase, Phase::Ready);
    assert_eq!(state.since, 41);
    assert_eq!(state.last_evaluated, Some(41));
    assert_eq!(state.approved_scope, Some("build feature".to_string()));

    state.transition_to(Phase::Discussing, None);
    assert_eq!(state.phase, Phase::Discussing);
    assert_eq!(state.last_evaluated, Some(state.since));
    assert_eq!(state.approved_scope, None);
}

#[test]
fn set_override_stamps_reason_and_time() {
    let mut state = State::default();
    state.set_override_at("first".to_string(), 5);
    state.set_override_at("second".to_string(), 9);
    let po = state.pending_override.as_ref().unwrap();
    assert_eq!(po.reason, "second");
    assert_eq!(po.timestamp, 9);

    state.consume_override();
    assert!(state.pending_override.is_none());
    state.consume_override();
    assert!(state.pending_override.is_none());
}
