use superego::bd::BdEvaluation;
use superego::claude::SuperegoEvaluation;
use superego::decision::{apply_evaluation, decide, Phase, Verdict};
use superego::state::State;

fn no_signal() -> BdEvaluation {
    BdEvaluation { read_only: false, current_task: None, feedback: None }
}

fn veto_signal() -> BdEvaluation {
    BdEvaluation {
        read_only: true,
        current_task: None,
        feedback: Some("claim a task first".to_string()),
    }
}

fn judgment(phase: &str, suggestion: Option<&str>, reason: Option<&str>) -> SuperegoEvaluation {
    SuperegoEvaluation {
        phase: phase.to_string(),
        confidence: None,
        approved_scope: None,
        concerns: None,
        suggestion: suggestion.map(|s| s.to_string()),
        reason: reason.map(|s| s.to_string()),
    }
}

#[test]
fn discussing_phase_blocks_a_write() {
    let mut state = State::with_phase(Phase::Discussing);
    let out = decide("Bash", &mut state, &no_signal(), &None);
    assert_eq!(out.verdict, Verdict::Block);
    assert_eq!(
        out.message.unwrap(),
        "Write blocked in discussing phase: could not determine phase"
    );
    assert!(state.pending_override.is_none());
}

#[test]
fn pending_override_allows_once_and_is_cleared() {
    let mut state = State::with_phase(Phase::Discussing);
    state.set_override("user said go".to_string());
    let out = decide("Bash", &mut state, &no_signal(), &None);
    assert_eq!(out.verdict, Verdict::Allow);
    assert!(state.pending_override.is_none());

    let out = decide("Bash", &mut state, &no_signal(), &None);
    assert_eq!(out.verdict, Verdict::Block);
}

#[test]
fn tracker_veto_beats_ready_phase() {
    let mut state = State::with_phase(Phase::Ready);
    let out = decide("Bash", &mut state, &veto_signal(), &None);
    assert_eq!(out.verdict, Verdict::Block);
    assert_eq!(out.message.unwrap(), "claim a task first");
}

#[test]
fn tracker_veto_beats_pending_override() {
    let mut state = State::with_phase(Phase::Discussing);
    state.set_override("still vetoed".to_string());
    let out = decide("Bash", &mut state, &veto_signal(), &None);
    assert_eq!(out.verdict, Verdict::Block);
    assert!(state.pending_override.is_some());
}

#[test]
fn reads_pass_in_any_phase() {
    let mut state = State::with_phase(Phase::Exploring);
    let out = decide("Grep", &mut state, &veto_signal(), &None);
    assert_eq!(out.verdict, Verdict::Allow);
    assert!(out.message.is_none());
}

#[test]
fn disabled_gate_allows_everything() {
    let mut state = State::with_phase(Phase::Exploring);
    state.disabled = true;
    let out = decide("Bash", &mut state, &veto_signal(), &None);
    assert_eq!(out.verdict, Verdict::Allow);
}

#[test]
fn ready_phase_allows_writes() {
    let mut state = State::with_phase(Phase::Ready);
    let out = decide("Edit", &mut state, &no_signal(), &None);
    assert_eq!(out.verdict, Verdict::Allow);
}

#[test]
fn unknown_tools_are_gated_like_writes() {
    let mut state = State::with_phase(Phase::Exploring);
    let out = decide("BrandNewTool", &mut state, &no_signal(), &None);
    assert_eq!(out.verdict, Verdict::Block);
}

#[test]
fn block_message_prefers_the_suggestion() {
    let mut state = State::with_phase(Phase::Exploring);
    let ev = judgment("exploring", Some("keep asking questions"), Some("unused"));
    let out = decide("Write", &mut state, &no_signal(), &Some(ev));
    assert_eq!(
        out.message.unwrap(),
        "Write blocked in exploring phase: keep asking questions"
    );

    let ev = judgment("exploring", None, Some("user has not confirmed"));
    let out = decide("Write", &mut state, &no_signal(), &Some(ev));
    assert_eq!(
        out.message.unwrap(),
        "Write blocked in exploring phase: user has not confirmed"
    );
}

#[test]
fn judgments_drive_transitions() {
    let mut state = State::with_phase(Phase::Exploring);
    let mut ev = judgment("ready", None, None);
    ev.approved_scope = Some("implement auth".to_string());
    assert!(apply_evaluation(&mut state, &ev));
    assert_eq!(state.phase, Phase::Ready);
    assert_eq!(state.approved_scope, Some("implement auth".to_string()));
    assert_eq!(state.last_evaluated, Some(state.since));

    let ev = judgment("confused", None, None);
    assert!(!apply_evaluation(&mut state, &ev));
    assert_eq!(state.phase, Phase::Ready);
}

#[test]
fn phase_names_round_trip() {
    for p in [Phase::Exploring, Phase::Discussing, Phase::Ready] {
        assert_eq!(Phase::parse(&p.name()), Some(p));
    }
    assert_eq!(Phase::parse("Ready"), None);
    assert_eq!(Phase::parse(""), None);
}
