//! The collaboration phase, and the combinator that merges every signal
//! into one allow/block verdict for a requested tool action.

use vstd::prelude::*;
use vstd::string::*;

use crate::bd::BdEvaluation;
use crate::claude::SuperegoEvaluation;
use crate::state::{clone_opt_string, without_override, State};
use crate::text::str_eq;
use crate::tools::{classify, classify_spec, ToolClass};

verus! {

/// Stage of a collaborative session. Only `Ready` permits unconstrained
/// writes.
#[derive(Debug, Clone, Copy, PartialEq, Eq, Structural)]
pub enum Phase {
    Exploring,
    Discussing,
    Ready,
}

/// The lower-case name of a phase, as it appears in judgments and in the
/// persisted record.
pub open spec fn phase_name_spec(p: Phase) -> Seq<char> {
    match p {
        Phase::Exploring => "exploring"@,
        Phase::Discussing => "discussing"@,
        Phase::Ready => "ready"@,
    }
}

/// The phase named by `s`, if any.
pub open spec fn parse_phase_spec(s: Seq<char>) -> Option<Phase> {
    if s == "exploring"@ {
        Some(Phase::Exploring)
    } else if s == "discussing"@ {
        Some(Phase::Discussing)
    } else if s == "ready"@ {
        Some(Phase::Ready)
    } else {
        None
    }
}

impl Phase {
    /// The lower-case name of this phase.
    pub fn name(&self) -> (s: String)
        ensures
            s@ == phase_name_spec(*self),
    {
        match self {
            Phase::Exploring => String::from_str("exploring"),
            Phase::Discussing => String::from_str("discussing"),
            Phase::Ready => String::from_str("ready"),
        }
    }

    /// Parse a lower-case phase name.
    pub fn parse(s: &str) -> (r: Option<Phase>)
        ensures
            r == parse_phase_spec(s@),
    {
        if str_eq(s, "exploring") {
            Some(Phase::Exploring)
        } else if str_eq(s, "discussing") {
            Some(Phase::Discussing)
        } else if str_eq(s, "ready") {
            Some(Phase::Ready)
        } else {
            None
        }
    }
}

/// The verdict given for one requested action.
#[derive(Debug, Clone, Copy, PartialEq, Eq, Structural)]
pub enum Verdict {
    Allow,
    Block,
}

/// A verdict together with the message surfaced for it, if any.
#[derive(Debug)]
pub struct GateOutcome {
    pub verdict: Verdict,
    pub message: Option<String>,
}

/// The hint in a phase-block message: the most recent judgment's suggestion,
/// else its reason, else an admission that no phase could be determined.
pub open spec fn block_hint_spec(evaluation: Option<SuperegoEvaluation>) -> Seq<char> {
    match evaluation {
        None => "could not determine phase"@,
        Some(e) => match e.suggestion {
            Some(s) => s@,
            None => match e.reason {
                Some(r) => r@,
                None => "could not determine phase"@,
            },
        },
    }
}

/// The message surfaced when the phase blocks a write.
pub open spec fn block_message_spec(evaluation: Option<SuperegoEvaluation>, phase: Phase) -> Seq<
    char,
> {
    "Write blocked in "@ + phase_name_spec(phase) + " phase: "@ + block_hint_spec(evaluation)
}

/// Build the message surfaced when the phase blocks a write.
pub fn build_block_message(evaluation: &Option<SuperegoEvaluation>, phase: Phase) -> (m: String)
    ensures
        m@ == block_message_spec(*evaluation, phase),
{
    let mut m = String::from_str("Write blocked in ");
    m.append(phase.name().as_str());
    m.append(" phase: ");
    match evaluation {
        None => m.append("could not determine phase"),
        Some(e) => match &e.suggestion {
            Some(s) => m.append(s.as_str()),
            None => match &e.reason {
                Some(r) => m.append(r.as_str()),
                None => m.append("could not determine phase"),
            },
        },
    }
    m
}

/// Merge every signal into one verdict for a single requested action.
///
/// In order: a disabled gate allows everything; a read-only tool is always
/// allowed; the tracker's read-only constraint vetoes even a ready phase or
/// a pending override, surfacing the tracker's feedback; a pending override
/// allows one action and is consumed here; a ready phase allows; anything
/// else blocks with a message built from the latest judgment and the
/// current phase. Only the consumed override ever changes the state.
pub fn decide(
    tool_name: &str,
    state: &mut State,
    signal: &BdEvaluation,
    evaluation: &Option<SuperegoEvaluation>,
) -> (out: GateOutcome)
    ensures
        old(state).disabled ==> out.verdict is Allow && out.message is None && *final(state)
            == *old(state),
        !old(state).disabled && classify_spec(tool_name@) is Read ==> out.verdict is Allow
            && out.message is None && *final(state) == *old(state),
        !old(state).disabled && !(classify_spec(tool_name@) is Read) && signal.read_only
            ==> out.verdict is Block && out.message == signal.feedback && *final(state)
            == *old(state),
        !old(state).disabled && !(classify_spec(tool_name@) is Read) && !signal.read_only
            && old(state).pending_override is Some ==> out.verdict is Allow && out.message is None
            && *final(state) == without_override(*old(state)),
        !old(state).disabled && !(classify_spec(tool_name@) is Read) && !signal.read_only
            && old(state).pending_override is None && old(state).phase is Ready
            ==> out.verdict is Allow && out.message is None && *final(state) == *old(state),
        !old(state).disabled && !(classify_spec(tool_name@) is Read) && !signal.read_only
            && old(state).pending_override is None && !(old(state).phase is Ready)
            ==> out.verdict is Block && (out.message matches Some(m) && m@ == block_message_spec(
            *evaluation,
            old(state).phase,
        )) && *final(state) == *old(state),
{
    if state.disabled {
        return GateOutcome { verdict: Verdict::Allow, message: None };
    }
    match classify(tool_name) {
        ToolClass::Read => {
            return GateOutcome { verdict: Verdict::Allow, message: None };
        },
        _ => {},
    }
    if signal.read_only {
        return GateOutcome { verdict: Verdict::Block, message: clone_opt_string(&signal.feedback) };
    }
    if state.pending_override.is_some() {
        state.consume_override();
        return GateOutcome { verdict: Verdict::Allow, message: None };
    }
    match state.phase {
        Phase::Ready => GateOutcome { verdict: Verdict::Allow, message: None },
        _ => {
            let m = build_block_message(evaluation, state.phase);
            GateOutcome { verdict: Verdict::Block, message: Some(m) }
        },
    }
}

/// Fold a fresh judgment into the state: a recognizable phase name drives a
/// transition that adopts the judgment's scope; anything else leaves the
/// state untouched, and the caller fails closed.
pub fn apply_evaluation(state: &mut State, evaluation: &SuperegoEvaluation) -> (applied: bool)
    ensures
        match parse_phase_spec(evaluation.phase@) {
            Some(p) => applied && final(state).phase == p && final(state).approved_scope
                == evaluation.approved_scope && final(state).last_evaluated
                == Some(final(state).since) && final(state).pending_override
                == old(state).pending_override && final(state).disabled == old(state).disabled,
            None => !applied && *final(state) == *old(state),
        },
{
    match Phase::parse(evaluation.phase.as_str()) {
        Some(p) => {
            state.transition_to(p, clone_opt_string(&evaluation.approved_scope));
            true
        },
        None => false,
    }
}

} // verus!
