//! Extracting a structured phase judgment from free-form model output.
//!
//! The model's answer is untrusted text: the judgment may arrive wrapped in
//! a fenced markdown block, tagged or untagged, or stand bare. Extraction is
//! permissive about the wrapping and strict about the payload shape; when
//! nothing can be extracted the caller fails closed.

use vstd::prelude::*;
use vstd::string::*;

use crate::json::{
    json_as_array, json_as_string, json_doc, json_get, json_is_null, json_number_text, json_of,
    obj_member, opt_string_member_matches, opt_string_member_ok, parse_json, JsonData,
};
use crate::text::{find_from, find_pat, lemma_find_from_some, trim_spec, trim_str};

verus! {

/// A concern raised by an evaluation.
#[derive(Debug)]
pub struct Concern {
    pub concern_type: String,
    pub description: String,
}

/// A structured phase judgment. `confidence` holds the number's decimal
/// text as `serde_json` re-renders its value, unvalidated.
#[derive(Debug)]
pub struct SuperegoEvaluation {
    pub phase: String,
    pub confidence: Option<String>,
    pub approved_scope: Option<String>,
    pub concerns: Option<Vec<Concern>>,
    pub suggestion: Option<String>,
    pub reason: Option<String>,
}

/// Error from model invocation or judgment parsing.
#[derive(Debug)]
pub enum ClaudeError {
    CommandFailed(String),
    ParseError(String),
    IoError(String),
    Timeout,
}

/// Options for a model invocation.
#[derive(Debug)]
pub struct ClaudeOptions {
    pub model: Option<String>,
    pub session_id: Option<String>,
    pub timeout_secs: Option<u64>,
    pub no_session_persistence: bool,
}

impl Default for ClaudeOptions {
    fn default() -> (o: Self)
        ensures
            o.model is None,
            o.session_id is None,
            o.timeout_secs is None,
            !o.no_session_persistence,
    {
        ClaudeOptions { model: None, session_id: None, timeout_secs: None, no_session_persistence: false }
    }
}

/// What a fence tagged as JSON contains: the text between the opening tag
/// and the next closing fence, trimmed.
pub open spec fn tagged_fence_extract(s: Seq<char>) -> Option<Seq<char>> {
    match find_from(s, "```json"@, 0) {
        None => None,
        Some(start) => {
            let cs = start + "```json"@.len();
            match find_from(s, "```"@, cs) {
                None => None,
                Some(end) => Some(trim_spec(s.subrange(cs, end))),
            }
        },
    }
}

/// What the first generic fence contains: the text after the opening fence,
/// past the language-identifier line if one is there, up to the next closing
/// fence, trimmed.
pub open spec fn generic_fence_extract(s: Seq<char>) -> Option<Seq<char>> {
    match find_from(s, "```"@, 0) {
        None => None,
        Some(start) => {
            let after = start + "```"@.len();
            let cs = match find_from(s, "\n"@, after) {
                Some(nl) => nl + 1,
                None => after,
            };
            match find_from(s, "```"@, cs) {
                None => None,
                Some(end) => Some(trim_spec(s.subrange(cs, end))),
            }
        },
    }
}

/// The JSON object embedded in `s`: a tagged fence first, then the first
/// generic fence, then the whole text if it starts with a brace once
/// trimmed; otherwise nothing.
pub open spec fn extract_json_spec(s: Seq<char>) -> Option<Seq<char>> {
    if tagged_fence_extract(s) is Some {
        tagged_fence_extract(s)
    } else if generic_fence_extract(s) is Some {
        generic_fence_extract(s)
    } else {
        let t = trim_spec(s);
        if t.len() > 0 && t[0] == '{' {
            Some(t)
        } else {
            None
        }
    }
}

/// Extract the JSON object embedded in model output, fenced or bare.
pub fn extract_json<'a>(result: &'a str) -> (r: Option<&'a str>)
    ensures
        match r {
            Some(j) => extract_json_spec(result@) == Some(j@),
            None => extract_json_spec(result@) is None,
        },
{
    proof {
        reveal_strlit("```json");
        reveal_strlit("```");
        reveal_strlit("\n");
    }
    // learns that the character count fits in usize, which bounds every
    // fence index below
    let _chars: usize = result.unicode_len();
    if let Some(start) = find_pat(result, "```json", 0) {
        proof {
            lemma_find_from_some(result@, "```json"@, 0, start as int);
        }
        let cs = start + 7;
        if let Some(end) = find_pat(result, "```", cs) {
            proof {
                lemma_find_from_some(result@, "```"@, cs as int, end as int);
            }
            return Some(trim_str(result.substring_char(cs, end)));
        }
    }
    if let Some(start) = find_pat(result, "```", 0) {
        proof {
            lemma_find_from_some(result@, "```"@, 0, start as int);
        }
        let after = start + 3;
        let cs = match find_pat(result, "\n", after) {
            Some(nl) => {
                proof {
                    lemma_find_from_some(result@, "\n"@, after as int, nl as int);
                }
                nl + 1
            },
            None => after,
        };
        if let Some(end) = find_pat(result, "```", cs) {
            proof {
                lemma_find_from_some(result@, "```"@, cs as int, end as int);
            }
            return Some(trim_str(result.substring_char(cs, end)));
        }
    }
    let t = trim_str(result);
    if t.unicode_len() > 0 && t.get_char(0) == '{' {
        Some(t)
    } else {
        None
    }
}

fn shape_error() -> (e: ClaudeError)
    ensures
        e is ParseError,
{
    ClaudeError::ParseError(String::from_str("evaluation payload has an unexpected shape"))
}

/// An optional number member denotes `v`: absent and null are both absent,
/// a number is its decimal text.
pub open spec fn opt_number_member_matches(m: Option<JsonData>, v: Option<String>) -> bool {
    match m {
        None => v is None,
        Some(JsonData::Null) => v is None,
        Some(JsonData::Number(_, t)) => (v matches Some(x) && x@ == t),
        Some(_) => false,
    }
}

/// An optional number member is well-shaped.
pub open spec fn opt_number_member_ok(m: Option<JsonData>) -> bool {
    match m {
        None => true,
        Some(JsonData::Null) => true,
        Some(JsonData::Number(_, _)) => true,
        Some(_) => false,
    }
}

/// A concern document denotes `c`: string type and description members.
pub open spec fn concern_matches(c: Concern, d: JsonData) -> bool {
    (obj_member(d, "type"@) matches Some(JsonData::Str(t)) && c.concern_type@ == t) && (obj_member(
        d,
        "description"@,
    ) matches Some(JsonData::Str(s)) && c.description@ == s)
}

/// A concern document is well-shaped.
pub open spec fn doc_is_concern(d: JsonData) -> bool {
    (obj_member(d, "type"@) matches Some(JsonData::Str(_))) && (obj_member(d, "description"@)
        matches Some(JsonData::Str(_)))
}

/// An optional concern-list member denotes `v`.
pub open spec fn concerns_member_matches(m: Option<JsonData>, v: Option<Vec<Concern>>) -> bool {
    match m {
        None => v is None,
        Some(JsonData::Null) => v is None,
        Some(JsonData::Arr(items)) => (v matches Some(cs) && cs@.len() == items.len() && forall|
            i: int,
        |
            0 <= i < items.len() ==> concern_matches(cs@[i], items[i])),
        Some(_) => false,
    }
}

/// Every element of a concern list is well-shaped.
pub open spec fn all_concerns_ok(items: Seq<JsonData>) -> bool {
    forall|i: int| 0 <= i < items.len() ==> doc_is_concern(items[i])
}

/// An optional concern-list member is well-shaped.
pub open spec fn concerns_member_ok(m: Option<JsonData>) -> bool {
    match m {
        None => true,
        Some(JsonData::Null) => true,
        Some(JsonData::Arr(items)) => all_concerns_ok(items),
        Some(_) => false,
    }
}

/// The document `d` denotes the judgment `ev`, member by member; unknown
/// members are ignored.
pub open spec fn eval_matches_doc(ev: SuperegoEvaluation, d: JsonData) -> bool {
    (obj_member(d, "phase"@) matches Some(JsonData::Str(p)) && ev.phase@ == p)
        && opt_number_member_matches(obj_member(d, "confidence"@), ev.confidence)
        && opt_string_member_matches(obj_member(d, "approved_scope"@), ev.approved_scope)
        && concerns_member_matches(obj_member(d, "concerns"@), ev.concerns)
        && opt_string_member_matches(obj_member(d, "suggestion"@), ev.suggestion)
        && opt_string_member_matches(obj_member(d, "reason"@), ev.reason)
}

/// The document `d` is a judgment: a string phase and well-shaped optional
/// members.
pub open spec fn doc_is_eval(d: JsonData) -> bool {
    (obj_member(d, "phase"@) matches Some(JsonData::Str(_))) && opt_number_member_ok(
        obj_member(d, "confidence"@),
    ) && opt_string_member_ok(obj_member(d, "approved_scope"@)) && concerns_member_ok(
        obj_member(d, "concerns"@),
    ) && opt_string_member_ok(obj_member(d, "suggestion"@)) && opt_string_member_ok(
        obj_member(d, "reason"@),
    )
}

/// Read an optional string member: absent and null are both absent; any
/// other non-string value is a shape error.
fn opt_string_member(v: &serde_json::Value, key: &str) -> (r: Result<Option<String>, ()>)
    ensures
        r matches Ok(o) ==> opt_string_member_matches(obj_member(json_of(*v), key@), o),
        r is Err ==> !opt_string_member_ok(obj_member(json_of(*v), key@)),
{
    match json_get(v, key) {
        None => Ok(None),
        Some(f) => {
            if json_is_null(f) {
                Ok(None)
            } else {
                match json_as_string(f) {
                    Some(s) => Ok(Some(s)),
                    None => Err(()),
                }
            }
        },
    }
}

/// Read the optional confidence member, keeping the number's decimal text.
fn opt_number_member(v: &serde_json::Value, key: &str) -> (r: Result<Option<String>, ()>)
    ensures
        r matches Ok(o) ==> opt_number_member_matches(obj_member(json_of(*v), key@), o),
        r is Err ==> !opt_number_member_ok(obj_member(json_of(*v), key@)),
{
    match json_get(v, key) {
        None => Ok(None),
        Some(f) => {
            if json_is_null(f) {
                Ok(None)
            } else {
                match json_number_text(f) {
                    Some(t) => Ok(Some(t)),
                    None => Err(()),
                }
            }
        },
    }
}

/// Read one concern: both members are required strings.
fn parse_concern(v: &serde_json::Value) -> (r: Result<Concern, ()>)
    ensures
        r matches Ok(c) ==> concern_matches(c, json_of(*v)),
        r is Err ==> !doc_is_concern(json_of(*v)),
{
    let concern_type = match json_get(v, "type") {
        None => {
            return Err(());
        },
        Some(f) => match json_as_string(f) {
            Some(s) => s,
            None => {
                return Err(());
            },
        },
    };
    let description = match json_get(v, "description") {
        None => {
            return Err(());
        },
        Some(f) => match json_as_string(f) {
            Some(s) => s,
            None => {
                return Err(());
            },
        },
    };
    Ok(Concern { concern_type, description })
}

/// Read the optional concern list: absent and null are both absent; any
/// other non-array value, or a malformed element, is a shape error.
fn opt_concerns_member(v: &serde_json::Value) -> (r: Result<Option<Vec<Concern>>, ()>)
    ensures
        r matches Ok(o) ==> concerns_member_matches(obj_member(json_of(*v), "concerns"@), o),
        r is Err ==> !concerns_member_ok(obj_member(json_of(*v), "concerns"@)),
{
    match json_get(v, "concerns") {
        None => Ok(None),
        Some(f) => {
            if json_is_null(f) {
                return Ok(None);
            }
            let arr = match json_as_array(f) {
                Some(a) => a,
                None => {
                    return Err(());
                },
            };
            let ghost items = json_of(*f)->Arr_0;
            let mut out: Vec<Concern> = Vec::new();
            let mut i: usize = 0;
            while i < arr.len()
                invariant
                    i <= arr.len(),
                    obj_member(json_of(*v), "concerns"@) == Some(JsonData::Arr(items)),
                    items.len() == arr@.len(),
                    forall|k: int| 0 <= k < arr@.len() ==> items[k] == json_of(arr@[k]),
                    out@.len() == i,
                    forall|k: int| 0 <= k < i ==> concern_matches(out@[k], items[k]),
                decreases arr.len() - i,
            {
                match parse_concern(&arr[i]) {
                    Ok(c) => out.push(c),
                    Err(()) => {
                        proof {
                            assert(!doc_is_concern(items[i as int]));
                            assert(!all_concerns_ok(items)) by {
                                if all_concerns_ok(items) {
                                    assert(doc_is_concern(items[i as int]));
                                }
                            }
                        }
                        return Err(());
                    },
                }
                i += 1;
            }
            Ok(Some(out))
        },
    }
}

/// Parse the evaluation out of model output: extract the embedded JSON
/// object, then read it leniently — unknown members are ignored, optional
/// members default to absent, and only the phase is required. Success comes
/// exactly when the extracted text is a judgment document, and the returned
/// fields are the document's members.
pub fn parse_evaluation(result: &str) -> (r: Result<SuperegoEvaluation, ClaudeError>)
    ensures
        (r matches Err(e) && e is CommandFailed) <==> extract_json_spec(result@) is None,
        extract_json_spec(result@) is None ==> (r matches Err(e) && e matches
            ClaudeError::CommandFailed(m) && m@ == "No JSON found in model response"@),
        r matches Err(e) ==> e is CommandFailed || e is ParseError,
        extract_json_spec(result@) matches Some(j) ==> match r {
            Ok(ev) => (json_doc(j) matches Some(d) && eval_matches_doc(ev, d)),
            Err(_) => !(json_doc(j) matches Some(d) && doc_is_eval(d)),
        },
{
    let json_str = match extract_json(result) {
        None => {
            return Err(ClaudeError::CommandFailed(String::from_str("No JSON found in model response")));
        },
        Some(j) => j,
    };
    let v = match parse_json(json_str) {
        Err(m) => {
            return Err(ClaudeError::ParseError(m));
        },
        Ok(v) => v,
    };
    let phase = match json_get(&v, "phase") {
        None => {
            return Err(shape_error());
        },
        Some(f) => match json_as_string(f) {
            Some(s) => s,
            None => {
                return Err(shape_error());
            },
        },
    };
    let confidence = match opt_number_member(&v, "confidence") {
        Ok(c) => c,
        Err(()) => {
            return Err(shape_error());
        },
    };
    let approved_scope = match opt_string_member(&v, "approved_scope") {
        Ok(s) => s,
        Err(()) => {
            return Err(shape_error());
        },
    };
    let concerns = match opt_concerns_member(&v) {
        Ok(c) => c,
        Err(()) => {
            return Err(shape_error());
        },
    };
    let suggestion = match opt_string_member(&v, "suggestion") {
        Ok(s) => s,
        Err(()) => {
            return Err(shape_error());
        },
    };
    let reason = match opt_string_member(&v, "reason") {
        Ok(s) => s,
        Err(()) => {
            return Err(shape_error());
        },
    };
    Ok(SuperegoEvaluation { phase, confidence, approved_scope, concerns, suggestion, reason })
}

} // verus!
