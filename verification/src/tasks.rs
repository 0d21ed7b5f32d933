//! How background work of a session is shown to a client: subagents and
//! background processes become tool calls whose status follows theirs, and
//! token usage is reported per model.

use vstd::prelude::*;

use crate::reports::ToolCallStatus;

verus! {

/// The state of a subagent.
#[derive(Clone, Copy, Debug, PartialEq, Eq, Structural)]
pub enum SubagentState {
    Queued,
    Running,
    Waiting,
    Completed,
    Failed,
    Closed,
}

/// The state of a background process.
#[derive(Clone, Copy, Debug, PartialEq, Eq, Structural)]
pub enum BackgroundState {
    Starting,
    Running,
    Stopped,
    Error,
}

/// The task status a client sees, and the tool call status that carries it.
pub open spec fn subagent_status(state: SubagentState) -> (Seq<char>, ToolCallStatus) {
    match state {
        SubagentState::Queued => ("pending"@, ToolCallStatus::Pending),
        SubagentState::Running | SubagentState::Waiting => ("in_progress"@, ToolCallStatus::InProgress),
        SubagentState::Completed => ("completed"@, ToolCallStatus::Completed),
        SubagentState::Failed | SubagentState::Closed => ("failed"@, ToolCallStatus::Failed),
    }
}

pub open spec fn background_status(state: BackgroundState) -> (Seq<char>, ToolCallStatus) {
    match state {
        BackgroundState::Starting => ("pending"@, ToolCallStatus::Pending),
        BackgroundState::Running => ("in_progress"@, ToolCallStatus::InProgress),
        BackgroundState::Stopped => ("completed"@, ToolCallStatus::Completed),
        BackgroundState::Error => ("failed"@, ToolCallStatus::Failed),
    }
}

/// The status of a subagent's task.
pub fn subagent_task_status(state: SubagentState) -> (r: (&'static str, ToolCallStatus))
    ensures
        (r.0@, r.1) == subagent_status(state),
{
    match state {
        SubagentState::Queued => ("pending", ToolCallStatus::Pending),
        SubagentState::Running | SubagentState::Waiting => ("in_progress", ToolCallStatus::InProgress),
        SubagentState::Completed => ("completed", ToolCallStatus::Completed),
        SubagentState::Failed | SubagentState::Closed => ("failed", ToolCallStatus::Failed),
    }
}

/// The status of a background process's task.
pub fn background_task_status(state: BackgroundState) -> (r: (&'static str, ToolCallStatus))
    ensures
        (r.0@, r.1) == background_status(state),
{
    match state {
        BackgroundState::Starting => ("pending", ToolCallStatus::Pending),
        BackgroundState::Running => ("in_progress", ToolCallStatus::InProgress),
        BackgroundState::Stopped => ("completed", ToolCallStatus::Completed),
        BackgroundState::Error => ("failed", ToolCallStatus::Failed),
    }
}

/// A task's status text and its tool call status always agree: a task is
/// shown failed exactly when its tool call failed, and so on for each
/// status.
pub proof fn law_task_status_agrees_with_tool_call(s: SubagentState, b: BackgroundState)
    ensures
        (subagent_status(s).1 == ToolCallStatus::Failed) == (subagent_status(s).0 == "failed"@),
        (subagent_status(s).1 == ToolCallStatus::Completed) == (subagent_status(s).0 == "completed"@),
        (background_status(b).1 == ToolCallStatus::Failed) == (background_status(b).0 == "failed"@),
        (background_status(b).1 == ToolCallStatus::Completed) == (background_status(b).0
            == "completed"@),
{
    reveal_strlit("pending");
    reveal_strlit("in_progress");
    reveal_strlit("completed");
    reveal_strlit("failed");
    assert("pending"@.len() == 7);
    assert("in_progress"@.len() == 11);
    assert("completed"@.len() == 9);
    assert("failed"@.len() == 6);
}

/// The tool call id of a task.
pub fn task_tool_call_id(task_id: &str) -> (s: String)
    ensures
        s@ == "task:"@ + task_id@,
{
    let mut s = String::from_str("task:");
    s.append(task_id);
    s
}

/// The text shown for a task: its error, else its summary, else its
/// description.
pub fn task_text<'a>(error: Option<&'a str>, summary: Option<&'a str>, description: &'a str) -> (s:
    &'a str)
    ensures
        s@ == match error {
            Some(e) => e@,
            None => match summary {
                Some(m) => m@,
                None => description@,
            },
        },
{
    match error {
        Some(e) => e,
        None => match summary {
            Some(m) => m,
            None => description,
        },
    }
}

/// When a background process counts as started: when it started running,
/// or when it was created if it never did.
pub fn background_started_at(started_at: Option<i64>, created_at: i64) -> (t: i64)
    ensures
        t == match started_at {
            Some(s) => s,
            None => created_at,
        },
{
    match started_at {
        Some(s) => s,
        None => created_at,
    }
}

/// The model usage is reported under: the response's model, or the
/// session's model when the response names none.
pub fn usage_model<'a>(response_model: &'a str, fallback_model: &'a str) -> (m: &'a str)
    ensures
        m@ == if response_model@.len() == 0 {
            fallback_model@
        } else {
            response_model@
        },
{
    if response_model.unicode_len() == 0 {
        fallback_model
    } else {
        response_model
    }
}

/// The extension method that reports session usage.
pub const USAGE_UPDATE_METHOD: &'static str = "_lody/session/usage_update";

} // verus!
