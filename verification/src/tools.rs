//! Tool classification for gating.
//!
//! Read tools are always allowed; write tools require the ready phase or an
//! override. A name found in neither set is gated too: every name outside the
//! read set fails closed.

use vstd::prelude::*;

use crate::text::str_eq;

verus! {

/// Class of an agent action: read-only, mutating, or unclassified.
#[derive(Debug, Clone, Copy, PartialEq, Eq, Structural)]
pub enum ToolClass {
    Read,
    Write,
    Unknown,
}

/// The fixed set of read-only tool names.
pub open spec fn in_read_set(name: Seq<char>) -> bool {
    name == "Glob"@ || name == "Grep"@ || name == "Read"@ || name == "LS"@ || name == "WebFetch"@
        || name == "WebSearch"@ || name == "TaskOutput"@
}

/// The fixed set of mutating tool names.
pub open spec fn in_write_set(name: Seq<char>) -> bool {
    name == "Edit"@ || name == "Write"@ || name == "Bash"@ || name == "Task"@
        || name == "NotebookEdit"@ || name == "KillShell"@ || name == "TodoWrite"@
}

/// Class of a tool name: read set first, then write set, else unknown.
pub open spec fn classify_spec(name: Seq<char>) -> ToolClass {
    if in_read_set(name) {
        ToolClass::Read
    } else if in_write_set(name) {
        ToolClass::Write
    } else {
        ToolClass::Unknown
    }
}

/// A name requires gating exactly when it is not in the read set.
pub open spec fn requires_gating_spec(name: Seq<char>) -> bool {
    !(classify_spec(name) is Read)
}

fn in_read_set_exec(tool_name: &str) -> (b: bool)
    ensures
        b == in_read_set(tool_name@),
{
    str_eq(tool_name, "Glob") || str_eq(tool_name, "Grep") || str_eq(tool_name, "Read") || str_eq(
        tool_name,
        "LS",
    ) || str_eq(tool_name, "WebFetch") || str_eq(tool_name, "WebSearch") || str_eq(
        tool_name,
        "TaskOutput",
    )
}

fn in_write_set_exec(tool_name: &str) -> (b: bool)
    ensures
        b == in_write_set(tool_name@),
{
    str_eq(tool_name, "Edit") || str_eq(tool_name, "Write") || str_eq(tool_name, "Bash") || str_eq(
        tool_name,
        "Task",
    ) || str_eq(tool_name, "NotebookEdit") || str_eq(tool_name, "KillShell") || str_eq(
        tool_name,
        "TodoWrite",
    )
}

/// Classify a tool by name.
pub fn classify(tool_name: &str) -> (r: ToolClass)
    ensures
        r == classify_spec(tool_name@),
{
    if in_read_set_exec(tool_name) {
        ToolClass::Read
    } else if in_write_set_exec(tool_name) {
        ToolClass::Write
    } else {
        ToolClass::Unknown
    }
}

/// Check whether a tool requires phase gating.
pub fn requires_gating(tool_name: &str) -> (r: bool)
    ensures
        r == requires_gating_spec(tool_name@),
{
    match classify(tool_name) {
        ToolClass::Read => false,
        ToolClass::Write => true,
        ToolClass::Unknown => true,
    }
}

/// Check whether a tool is a read-only tool.
pub fn is_read_only(tool_name: &str) -> (r: bool)
    ensures
        r == (classify_spec(tool_name@) is Read),
{
    match classify(tool_name) {
        ToolClass::Read => true,
        ToolClass::Write => false,
        ToolClass::Unknown => false,
    }
}

/// Classification is total and fails closed: a name in the read set is read,
/// any other name is write or unknown, and both of those require gating.
pub proof fn lemma_classifier_fails_closed(name: Seq<char>)
    ensures
        in_read_set(name) ==> classify_spec(name) is Read,
        !in_read_set(name) ==> classify_spec(name) is Write || classify_spec(name) is Unknown,
        !in_read_set(name) ==> requires_gating_spec(name),
        requires_gating_spec(name) == !(classify_spec(name) is Read),
{
}

} // verus!
