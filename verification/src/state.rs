//! The durable gating state: current phase, pending override, disabled flag,
//! and the timestamps of the last transition and evaluation.
//!
//! Instants are held as milliseconds since the Unix epoch. The clock is read
//! through a single trusted call; every state change that stamps a time also
//! exists in a variant that takes the time as an argument, and that variant
//! carries the exact contract.

use vstd::prelude::*;
use vstd::string::*;

use crate::decision::{parse_phase_spec, phase_name_spec, Phase};
use crate::json::{
    json_as_bool, json_as_i64, json_as_string, json_doc, json_get, json_is_null, json_of,
    obj_member, opt_string_member_matches, opt_string_member_ok, parse_json, JsonData,
};
use crate::numeral::{dec_int, i64_to_string};
use crate::text::{json_escape_str, json_string_lit};

verus! {

/// One-shot permission that lets a single blocked action proceed.
#[derive(Debug, PartialEq)]
pub struct PendingOverride {
    pub reason: String,
    pub timestamp: i64,
}

impl Clone for PendingOverride {
    fn clone(&self) -> (r: Self)
        ensures
            r == *self,
    {
        PendingOverride { reason: self.reason.clone(), timestamp: self.timestamp }
    }
}

/// The single durable record that gating decisions read and write.
#[derive(Debug, PartialEq)]
pub struct State {
    pub phase: Phase,
    pub since: i64,
    pub approved_scope: Option<String>,
    pub last_evaluated: Option<i64>,
    pub pending_override: Option<PendingOverride>,
    pub disabled: bool,
}

impl Clone for State {
    fn clone(&self) -> (r: Self)
        ensures
            r == *self,
    {
        State {
            phase: self.phase,
            since: self.since,
            approved_scope: clone_opt_string(&self.approved_scope),
            last_evaluated: self.last_evaluated,
            pending_override: match &self.pending_override {
                Some(po) => Some(po.clone()),
                None => None,
            },
            disabled: self.disabled,
        }
    }
}

/// Clone an optional string, keeping its value.
pub fn clone_opt_string(s: &Option<String>) -> (r: Option<String>)
    ensures
        r == *s,
{
    match s {
        Some(x) => Some(x.clone()),
        None => None,
    }
}

/// Relies on `chrono::Utc::now`: the current time, read from the system
/// clock, as milliseconds since the Unix epoch. Nothing is promised of the
/// value; two reads may differ.
#[verifier::external_body]
pub(crate) fn now_millis() -> i64 {
    chrono::Utc::now().timestamp_millis()
}

/// `s` with a fresh pending override in place of any previous one.
pub open spec fn with_override(s: State, po: PendingOverride) -> State {
    State { pending_override: Some(po), ..s }
}

/// `s` with no pending override.
pub open spec fn without_override(s: State) -> State {
    State { pending_override: None, ..s }
}

/// `s` moved to `phase` at time `now`: scope replaced, both timestamps
/// rewritten together, override and disabled flag untouched.
pub open spec fn transitioned(s: State, phase: Phase, scope: Option<String>, now: i64) -> State {
    State { phase, since: now, approved_scope: scope, last_evaluated: Some(now), ..s }
}

impl State {
    /// Writes are allowed exactly when gating is disabled, the phase is
    /// ready, or an override is pending.
    pub open spec fn allows_write_spec(self) -> bool {
        self.disabled || self.phase is Ready || self.pending_override is Some
    }

    /// Create a new state with the given phase, stamped `now`.
    pub fn with_phase_at(phase: Phase, now: i64) -> (s: Self)
        ensures
            s == (State {
                phase,
                since: now,
                approved_scope: None,
                last_evaluated: None,
                pending_override: None,
                disabled: false,
            }),
    {
        State {
            phase,
            since: now,
            approved_scope: None,
            last_evaluated: None,
            pending_override: None,
            disabled: false,
        }
    }

    /// Create a new state with the given phase, stamped with the current time.
    pub fn with_phase(phase: Phase) -> (s: Self)
        ensures
            s.phase == phase,
            s.approved_scope is None,
            s.last_evaluated is None,
            s.pending_override is None,
            !s.disabled,
    {
        let now = now_millis();
        State::with_phase_at(phase, now)
    }

    /// Check whether writes are allowed.
    pub fn allows_write(&self) -> (r: bool)
        ensures
            r == self.allows_write_spec(),
    {
        if self.disabled {
            return true;
        }
        match self.phase {
            Phase::Ready => true,
            _ => self.pending_override.is_some(),
        }
    }

    /// Consume the pending override; a no-op if none is pending.
    pub fn consume_override(&mut self)
        ensures
            *final(self) == without_override(*old(self)),
    {
        self.pending_override = None;
    }

    /// Replace any pending override with a fresh one stamped `now`.
    pub fn set_override_at(&mut self, reason: String, now: i64)
        ensures
            *final(self) == with_override(*old(self), (PendingOverride { reason, timestamp: now })),
    {
        self.pending_override = Some(PendingOverride { reason, timestamp: now });
    }

    /// Replace any pending override with a fresh one stamped with the
    /// current time.
    pub fn set_override(&mut self, reason: String)
        ensures
            final(self).pending_override matches Some(po) && po.reason == reason,
            final(self).phase == old(self).phase,
            final(self).since == old(self).since,
            final(self).approved_scope == old(self).approved_scope,
            final(self).last_evaluated == old(self).last_evaluated,
            final(self).disabled == old(self).disabled,
    {
        let now = now_millis();
        self.set_override_at(reason, now);
    }

    /// Move to `phase` at time `now`: both timestamps are rewritten to `now`,
    /// the scope is replaced, and the override and disabled flag are kept.
    pub fn transition_to_at(&mut self, phase: Phase, scope: Option<String>, now: i64)
        ensures
            *final(self) == transitioned(*old(self), phase, scope, now),
    {
        self.phase = phase;
        self.since = now;
        self.approved_scope = scope;
        self.last_evaluated = Some(now);
    }

    /// Move to `phase` at the current time. Both timestamps always come from
    /// one clock read, so they can never drift apart.
    pub fn transition_to(&mut self, phase: Phase, scope: Option<String>)
        ensures
            final(self).phase == phase,
            final(self).approved_scope == scope,
            final(self).last_evaluated == Some(final(self).since),
            final(self).pending_override == old(self).pending_override,
            final(self).disabled == old(self).disabled,
    {
        let now = now_millis();
        self.transition_to_at(phase, scope, now);
    }
}

impl Default for State {
    /// The first-run state: exploring, stamped now, nothing else set.
    fn default() -> (s: Self)
        ensures
            s.phase is Exploring,
            s.approved_scope is None,
            s.last_evaluated is None,
            s.pending_override is None,
            !s.disabled,
    {
        State::with_phase(Phase::Exploring)
    }
}

/// Error from reading or writing the persisted record.
#[derive(Debug)]
pub enum StateError {
    IoError(String),
    JsonError(String),
}

/// An optional string in the record: absent as `null`.
pub open spec fn enc_opt_string(o: Option<String>) -> Seq<char> {
    match o {
        None => "null"@,
        Some(s) => json_string_lit(s@),
    }
}

/// An optional instant in the record: absent as `null`.
pub open spec fn enc_opt_i64(o: Option<i64>) -> Seq<char> {
    match o {
        None => "null"@,
        Some(v) => dec_int(v as int),
    }
}

/// A pending override in the record.
pub open spec fn enc_override(po: PendingOverride) -> Seq<char> {
    "{\n    \"reason\": "@ + json_string_lit(po.reason@) + ",\n    \"timestamp\": "@ + dec_int(
        po.timestamp as int,
    ) + "\n  }"@
}

/// An optional pending override in the record: absent as `null`.
pub open spec fn enc_opt_override(o: Option<PendingOverride>) -> Seq<char> {
    match o {
        None => "null"@,
        Some(po) => enc_override(po),
    }
}

/// The persisted record: one pretty-printed JSON object holding exactly the
/// fields of `State`.
pub open spec fn encode_state_spec(s: State) -> Seq<char> {
    "{\n  \"phase\": \""@ + phase_name_spec(s.phase) + "\",\n  \"since\": "@ + dec_int(
        s.since as int,
    ) + ",\n  \"approved_scope\": "@ + enc_opt_string(s.approved_scope)
        + ",\n  \"last_evaluated\": "@ + enc_opt_i64(s.last_evaluated)
        + ",\n  \"pending_override\": "@ + enc_opt_override(s.pending_override)
        + ",\n  \"disabled\": "@ + (if s.disabled {
        "true"@
    } else {
        "false"@
    }) + "\n}"@
}

fn append_string_lit(out: &mut String, s: &str)
    ensures
        final(out)@ == old(out)@ + json_string_lit(s@),
{
    out.append("\"");
    let e = json_escape_str(s);
    out.append(e.as_str());
    out.append("\"");
    proof {
        reveal_strlit("\"");
        assert(final(out)@ =~= old(out)@ + json_string_lit(s@));
    }
}

fn append_opt_string(out: &mut String, o: &Option<String>)
    ensures
        final(out)@ == old(out)@ + enc_opt_string(*o),
{
    match o {
        None => out.append("null"),
        Some(s) => append_string_lit(out, s.as_str()),
    }
}

fn append_opt_i64(out: &mut String, o: &Option<i64>)
    ensures
        final(out)@ == old(out)@ + enc_opt_i64(*o),
{
    match o {
        None => out.append("null"),
        Some(v) => {
            let d = i64_to_string(*v);
            out.append(d.as_str());
        },
    }
}

/// Write the state as its persisted record.
pub fn encode_state(s: &State) -> (text: String)
    ensures
        text@ == encode_state_spec(*s),
{
    let mut out = String::from_str("{\n  \"phase\": \"");
    out.append(s.phase.name().as_str());
    out.append("\",\n  \"since\": ");
    let since = i64_to_string(s.since);
    out.append(since.as_str());
    out.append(",\n  \"approved_scope\": ");
    append_opt_string(&mut out, &s.approved_scope);
    out.append(",\n  \"last_evaluated\": ");
    append_opt_i64(&mut out, &s.last_evaluated);
    out.append(",\n  \"pending_override\": ");
    match &s.pending_override {
        None => out.append("null"),
        Some(po) => {
            out.append("{\n    \"reason\": ");
            append_string_lit(&mut out, po.reason.as_str());
            out.append(",\n    \"timestamp\": ");
            let ts = i64_to_string(po.timestamp);
            out.append(ts.as_str());
            out.append("\n  }");
            proof {
                assert(enc_opt_override(s.pending_override) == enc_override(*po));
            }
        },
    }
    out.append(",\n  \"disabled\": ");
    if s.disabled {
        out.append("true");
    } else {
        out.append("false");
    }
    out.append("\n}");
    proof {
        assert(out@ =~= encode_state_spec(*s));
    }
    out
}

fn corrupt(detail: &str) -> (e: StateError)
    ensures
        e is JsonError,
{
    StateError::JsonError(String::from_str(detail))
}

/// An optional instant member denotes `v`: absent and null are both absent,
/// an integer number is that instant.
pub open spec fn opt_i64_member_matches(m: Option<JsonData>, v: Option<i64>) -> bool {
    match m {
        None => v is None,
        Some(JsonData::Null) => v is None,
        Some(JsonData::Number(oi, _)) => oi is Some && v == oi,
        Some(_) => false,
    }
}

/// An optional instant member is well-shaped.
pub open spec fn opt_i64_member_ok(m: Option<JsonData>) -> bool {
    match m {
        None => true,
        Some(JsonData::Null) => true,
        Some(JsonData::Number(oi, _)) => oi is Some,
        Some(_) => false,
    }
}

/// An override document denotes `po`: a string reason and an integer
/// timestamp.
pub open spec fn override_matches(d: JsonData, po: PendingOverride) -> bool {
    (obj_member(d, "reason"@) matches Some(JsonData::Str(s)) && po.reason@ == s) && (obj_member(
        d,
        "timestamp"@,
    ) matches Some(JsonData::Number(oi, _)) && oi == Some(po.timestamp))
}

/// An override document is well-shaped.
pub open spec fn override_ok(d: JsonData) -> bool {
    (obj_member(d, "reason"@) matches Some(JsonData::Str(_))) && (obj_member(d, "timestamp"@)
        matches Some(JsonData::Number(oi, _)) && oi is Some)
}

/// An optional override member denotes `v`.
pub open spec fn opt_override_matches(m: Option<JsonData>, v: Option<PendingOverride>) -> bool {
    match m {
        None => v is None,
        Some(JsonData::Null) => v is None,
        Some(d) => (v matches Some(po) && override_matches(d, po)),
    }
}

/// An optional override member is well-shaped.
pub open spec fn opt_override_ok(m: Option<JsonData>) -> bool {
    match m {
        None => true,
        Some(JsonData::Null) => true,
        Some(d) => override_ok(d),
    }
}

/// The document `d` denotes the state `st`, member by member.
pub open spec fn state_matches_doc(st: State, d: JsonData) -> bool {
    (obj_member(d, "phase"@) matches Some(JsonData::Str(p)) && parse_phase_spec(p) == Some(
        st.phase,
    )) && (obj_member(d, "since"@) matches Some(JsonData::Number(oi, _)) && oi == Some(st.since))
        && opt_string_member_matches(obj_member(d, "approved_scope"@), st.approved_scope)
        && opt_i64_member_matches(obj_member(d, "last_evaluated"@), st.last_evaluated)
        && opt_override_matches(obj_member(d, "pending_override"@), st.pending_override)
        && obj_member(d, "disabled"@) == Some(JsonData::Bool(st.disabled))
}

/// The document `d` is a state record: a named phase, an integer since
/// instant, a boolean disabled flag, and well-shaped optional members.
pub open spec fn doc_is_record(d: JsonData) -> bool {
    (obj_member(d, "phase"@) matches Some(JsonData::Str(p)) && parse_phase_spec(p) is Some) && (
    obj_member(d, "since"@) matches Some(JsonData::Number(oi, _)) && oi is Some)
        && opt_string_member_ok(obj_member(d, "approved_scope"@)) && opt_i64_member_ok(
        obj_member(d, "last_evaluated"@),
    ) && opt_override_ok(obj_member(d, "pending_override"@)) && (obj_member(d, "disabled"@)
        matches Some(JsonData::Bool(_)))
}

/// Read a persisted record back: the state whose members the document
/// gives, exactly when the text is such a record; anything else is reported
/// as corrupt, never papered over. A record lacking an optional member
/// reads as absent, the same as a null member.
pub fn decode_state(content: &str) -> (r: Result<State, StateError>)
    ensures
        r matches Ok(st) ==> (json_doc(content@) matches Some(d) && state_matches_doc(st, d)),
        r matches Err(e) ==> e is JsonError && !(json_doc(content@) matches Some(d)
            && doc_is_record(d)),
{
    let v = match parse_json(content) {
        Err(m) => {
            return Err(StateError::JsonError(m));
        },
        Ok(v) => v,
    };
    let phase = match json_get(&v, "phase") {
        None => {
            return Err(corrupt("record lacks a phase"));
        },
        Some(f) => match json_as_string(f) {
            None => {
                return Err(corrupt("phase is not a string"));
            },
            Some(name) => match Phase::parse(name.as_str()) {
                None => {
                    return Err(corrupt("phase names no known phase"));
                },
                Some(p) => p,
            },
        },
    };
    let since = match json_get(&v, "since") {
        None => {
            return Err(corrupt("record lacks a since instant"));
        },
        Some(f) => match json_as_i64(f) {
            None => {
                return Err(corrupt("since is not an integer instant"));
            },
            Some(t) => t,
        },
    };
    let approved_scope = match json_get(&v, "approved_scope") {
        None => None,
        Some(f) => {
            if json_is_null(f) {
                None
            } else {
                match json_as_string(f) {
                    None => {
                        return Err(corrupt("approved_scope is not a string"));
                    },
                    Some(s) => Some(s),
                }
            }
        },
    };
    let last_evaluated = match json_get(&v, "last_evaluated") {
        None => None,
        Some(f) => {
            if json_is_null(f) {
                None
            } else {
                match json_as_i64(f) {
                    None => {
                        return Err(corrupt("last_evaluated is not an integer instant"));
                    },
                    Some(t) => Some(t),
                }
            }
        },
    };
    let pending_override = match json_get(&v, "pending_override") {
        None => None,
        Some(f) => {
            if json_is_null(f) {
                None
            } else {
                let reason = match json_get(f, "reason") {
                    None => {
                        return Err(corrupt("pending override lacks a reason"));
                    },
                    Some(g) => match json_as_string(g) {
                        None => {
                            return Err(corrupt("override reason is not a string"));
                        },
                        Some(s) => s,
                    },
                };
                let timestamp = match json_get(f, "timestamp") {
                    None => {
                        return Err(corrupt("pending override lacks a timestamp"));
                    },
                    Some(g) => match json_as_i64(g) {
                        None => {
                            return Err(corrupt("override timestamp is not an integer"));
                        },
                        Some(t) => t,
                    },
                };
                Some(PendingOverride { reason, timestamp })
            }
        },
    };
    let disabled = match json_get(&v, "disabled") {
        None => {
            return Err(corrupt("record lacks a disabled flag"));
        },
        Some(f) => match json_as_bool(f) {
            None => {
                return Err(corrupt("disabled is not a boolean"));
            },
            Some(b) => b,
        },
    };
    Ok(State { phase, since, approved_scope, last_evaluated, pending_override, disabled })
}

/// A transition never leaves the timestamps stale: both are rewritten
/// together to the transition instant, and they move forward whenever that
/// instant is not before the previous one. Of the clock itself nothing is
/// promised, so an instant from a clock that ran backward is left out.
pub proof fn lemma_transition_advances(s: State, phase: Phase, scope: Option<String>, now: i64)
    requires
        now >= s.since,
    ensures
        transitioned(s, phase, scope, now).since >= s.since,
        transitioned(s, phase, scope, now).last_evaluated == Some(
            transitioned(s, phase, scope, now).since,
        ),
{
}

/// Consuming an override directly after granting one restores the write
/// permission that held before the grant. This needs the state not to have
/// carried an override already: a grant replaces any earlier override, and
/// consuming then removes both.
pub proof fn lemma_override_round_trip(s: State, po: PendingOverride)
    requires
        s.pending_override is Some ==> s.disabled || s.phase is Ready,
    ensures
        without_override(with_override(s, po)).allows_write_spec() == s.allows_write_spec(),
{
}

} // verus!
