//! The task-tracker signal.
//!
//! Task state comes from an external tracker queried as a subprocess. The
//! querying itself is I/O and lives with the caller; this module holds the
//! verified pieces around it: reading the tracker's listing, telling an
//! uninitialized tracker apart from a failed command, and deriving the
//! read-only constraint from the tasks in progress.

use vstd::prelude::*;
use vstd::string::*;

use crate::json::{
    json_as_array, json_as_string, json_doc, json_get, json_of, obj_member, parse_json, JsonData,
};
use crate::text::{contains_pat, find_pat, str_eq, trim_spec, trim_str};

verus! {

/// A work item claimed in the tracker.
#[derive(Debug, PartialEq)]
pub struct BdIssue {
    pub id: String,
    pub title: String,
}

impl Clone for BdIssue {
    fn clone(&self) -> (r: Self)
        ensures
            r == *self,
    {
        BdIssue { id: self.id.clone(), title: self.title.clone() }
    }
}

/// Error from tracker operations.
#[derive(Debug)]
pub enum BdError {
    CommandFailed(String),
    ParseError(String),
    NotInitialized,
}

/// The constraint derived from the tracker's state.
#[derive(Debug)]
pub struct BdEvaluation {
    /// No task is claimed: mutating actions must wait.
    pub read_only: bool,
    /// The task being worked on, if any.
    pub current_task: Option<BdIssue>,
    /// Human-readable feedback when something needs attention.
    pub feedback: Option<String>,
}

/// Sort a tracker command failure: known phrases in its error output mean
/// the tracker was never initialized here, anything else is a real failure.
pub fn classify_command_failure(stderr: &str) -> (e: BdError)
    ensures
        contains_pat(stderr@, "not initialized"@) || contains_pat(stderr@, "No database"@)
            ==> e is NotInitialized,
        !(contains_pat(stderr@, "not initialized"@) || contains_pat(stderr@, "No database"@)) ==> (
        e matches BdError::CommandFailed(m) && m@ == stderr@),
{
    if find_pat(stderr, "not initialized", 0).is_some() || find_pat(stderr, "No database", 0).is_some() {
        BdError::NotInitialized
    } else {
        BdError::CommandFailed(String::from_str(stderr))
    }
}

/// A task document denotes `t`: string id and title members.
pub open spec fn task_matches(t: BdIssue, d: JsonData) -> bool {
    (obj_member(d, "id"@) matches Some(JsonData::Str(s)) && t.id@ == s) && (obj_member(
        d,
        "title"@,
    ) matches Some(JsonData::Str(s2)) && t.title@ == s2)
}

/// A task document is well-shaped.
pub open spec fn doc_is_task(d: JsonData) -> bool {
    (obj_member(d, "id"@) matches Some(JsonData::Str(_))) && (obj_member(d, "title"@)
        matches Some(JsonData::Str(_)))
}

/// Every element of a listing is a well-shaped task.
pub open spec fn all_tasks_ok(items: Seq<JsonData>) -> bool {
    forall|i: int| 0 <= i < items.len() ==> doc_is_task(items[i])
}

/// The document `d` is a task listing.
pub open spec fn doc_is_task_list(d: JsonData) -> bool {
    d matches JsonData::Arr(items) && all_tasks_ok(items)
}

/// Read the tracker's listing of tasks in progress. Empty output and an
/// empty array both mean no tasks; anything else succeeds exactly when the
/// output is a JSON array of objects carrying an id and a title, and yields
/// those tasks in order.
pub fn parse_tasks_body(stdout: &str) -> (r: Result<Vec<BdIssue>, BdError>)
    ensures
        trim_spec(stdout@).len() == 0 || trim_spec(stdout@) == "[]"@ ==> (r matches Ok(ts)
            && ts@.len() == 0),
        r matches Err(e) ==> e is ParseError,
        !(trim_spec(stdout@).len() == 0 || trim_spec(stdout@) == "[]"@) ==> match r {
            Ok(ts) => (json_doc(stdout@) matches Some(d) && d matches JsonData::Arr(items)
                && ts@.len() == items.len() && forall|i: int|
                0 <= i < items.len() ==> task_matches(ts@[i], items[i])),
            Err(_) => !(json_doc(stdout@) matches Some(d) && doc_is_task_list(d)),
        },
{
    let t = trim_str(stdout);
    if t.unicode_len() == 0 || str_eq(t, "[]") {
        return Ok(Vec::new());
    }
    let v = match parse_json(stdout) {
        Err(m) => {
            return Err(BdError::ParseError(tasks_error_message(m.as_str(), stdout)));
        },
        Ok(v) => v,
    };
    let arr = match json_as_array(&v) {
        None => {
            return Err(BdError::ParseError(String::from_str("tracker output is not a JSON array")));
        },
        Some(a) => a,
    };
    let ghost items = json_of(v)->Arr_0;
    let mut out: Vec<BdIssue> = Vec::new();
    let mut i: usize = 0;
    while i < arr.len()
        invariant
            i <= arr.len(),
            !(trim_spec(stdout@).len() == 0 || trim_spec(stdout@) == "[]"@),
            json_doc(stdout@) == Some(JsonData::Arr(items)),
            items.len() == arr@.len(),
            forall|k: int| 0 <= k < arr@.len() ==> items[k] == json_of(arr@[k]),
            out@.len() == i,
            forall|k: int| 0 <= k < i ==> task_matches(out@[k], items[k]),
        decreases arr.len() - i,
    {
        let id = match member_string(&arr[i], "id") {
            Some(s) => s,
            None => {
                proof {
                    lemma_bad_task(items, i as int);
                }
                return Err(BdError::ParseError(String::from_str("task entry lacks a string id")));
            },
        };
        let title = match member_string(&arr[i], "title") {
            Some(s) => s,
            None => {
                proof {
                    lemma_bad_task(items, i as int);
                }
                return Err(
                    BdError::ParseError(String::from_str("task entry lacks a string title")),
                );
            },
        };
        out.push(BdIssue { id, title });
        i += 1;
    }
    Ok(out)
}

proof fn lemma_bad_task(items: Seq<JsonData>, i: int)
    requires
        0 <= i < items.len(),
        !doc_is_task(items[i]),
    ensures
        !all_tasks_ok(items),
{
    if all_tasks_ok(items) {
        assert(doc_is_task(items[i]));
    }
}

/// The details of an unreadable listing: the parse failure, then the output.
fn tasks_error_message(err: &str, stdout: &str) -> (m: String)
    ensures
        m@ == err@ + ": "@ + stdout@,
{
    let mut m = String::from_str(err);
    m.append(": ");
    m.append(stdout);
    m
}

fn member_string(v: &serde_json::Value, key: &str) -> (r: Option<String>)
    ensures
        match r {
            Some(s) => (obj_member(json_of(*v), key@) matches Some(JsonData::Str(t)) && s@ == t),
            None => !(obj_member(json_of(*v), key@) matches Some(JsonData::Str(_))),
        },
{
    match json_get(v, key) {
        None => None,
        Some(f) => json_as_string(f),
    }
}

/// The instruction surfaced when no task is claimed.
pub open spec fn no_task_feedback() -> Seq<char> {
    "No task in progress. Claim a task with `bd update <id> --status in_progress` before making changes."@
}

/// One task as `id: title`.
pub open spec fn task_line(t: BdIssue) -> Seq<char> {
    t.id@ + ": "@ + t.title@
}

/// All tasks as `id: title`, comma-joined.
pub open spec fn task_list(ts: Seq<BdIssue>) -> Seq<char>
    decreases ts.len(),
{
    if ts.len() == 0 {
        Seq::empty()
    } else if ts.len() == 1 {
        task_line(ts[0])
    } else {
        task_list(ts.drop_last()) + ", "@ + task_line(ts.last())
    }
}

/// The warning surfaced when several tasks are claimed at once.
pub open spec fn multi_task_feedback(ts: Seq<BdIssue>) -> Seq<char> {
    "Multiple tasks in progress ("@ + task_list(ts) + "). Consider focusing on one at a time."@
}

fn join_task_list(tasks: &Vec<BdIssue>) -> (list: String)
    ensures
        list@ == task_list(tasks@),
{
    let mut list = String::new();
    let mut i: usize = 0;
    while i < tasks.len()
        invariant
            i <= tasks.len(),
            list@ == task_list(tasks@.take(i as int)),
        decreases tasks.len() - i,
    {
        if i > 0 {
            list.append(", ");
        }
        list.append(tasks[i].id.as_str());
        list.append(": ");
        list.append(tasks[i].title.as_str());
        proof {
            let pre = tasks@.take(i as int);
            let cur = tasks@.take(i + 1);
            assert(cur.drop_last() =~= pre);
            assert(cur.last() == tasks@[i as int]);
            if i == 0 {
                assert(list@ =~= task_line(tasks@[0]));
            } else {
                assert(list@ =~= task_list(pre) + ", "@ + task_line(tasks@[i as int]));
            }
        }
        i += 1;
    }
    proof {
        assert(tasks@.take(tasks@.len() as int) =~= tasks@);
    }
    list
}

/// Derive the task signal from the tracker's state: no tracker means
/// no constraint, no claimed task means read-only, one claimed task is the
/// current one, several are allowed but flagged.
pub fn evaluate(initialized: bool, tasks: Vec<BdIssue>) -> (r: BdEvaluation)
    ensures
        !initialized ==> !r.read_only && r.current_task is None && r.feedback is None,
        initialized && tasks@.len() == 0 ==> r.read_only && r.current_task is None && (
        r.feedback matches Some(f) && f@ == no_task_feedback()),
        initialized && tasks@.len() == 1 ==> !r.read_only && r.current_task == Some(tasks@[0])
            && r.feedback is None,
        initialized && tasks@.len() > 1 ==> !r.read_only && r.current_task == Some(tasks@[0]) && (
        r.feedback matches Some(f) && f@ == multi_task_feedback(tasks@)),
{
    if !initialized {
        return BdEvaluation { read_only: false, current_task: None, feedback: None };
    }
    if tasks.len() == 0 {
        return BdEvaluation {
            read_only: true,
            current_task: None,
            feedback: Some(
                String::from_str(
                    "No task in progress. Claim a task with `bd update <id> --status in_progress` before making changes.",
                ),
            ),
        };
    }
    let current = tasks[0].clone();
    if tasks.len() > 1 {
        let list = join_task_list(&tasks);
        let mut message = String::from_str("Multiple tasks in progress (");
        message.append(list.as_str());
        message.append("). Consider focusing on one at a time.");
        BdEvaluation { read_only: false, current_task: Some(current), feedback: Some(message) }
    } else {
        BdEvaluation { read_only: false, current_task: Some(current), feedback: None }
    }
}

} // verus!
