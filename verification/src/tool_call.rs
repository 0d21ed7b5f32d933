//! The decisions around one tool call: what the PreToolUse hook, the
//! PermissionRequest hook, the client's permission and a cancellation do to
//! it, which report a call that cannot run gets, and what the PostToolUse
//! hook adds to the model's view of the result.
//!
//! The caller runs the hooks, asks the client and runs the tool; it hands
//! each answer to these functions and carries out the step it gets back.

use vstd::prelude::*;

use crate::reports::{failure_view, ToolAuditStatus, ToolCallStatus, ToolExecutionReport, TOOL_EXECUTION_CANCELLED_MESSAGE};
use crate::text::{trim, trimmed};

verus! {

/// The report message of a call whose request has no function payload.
pub const MISSING_PAYLOAD_MESSAGE: &'static str = "Malformed tool call: missing function payload";

/// The report message of a call the PreToolUse hook denied.
pub const PRE_TOOL_DENIED_MESSAGE: &'static str = "Tool execution denied by PreToolUse hook";

/// The report message of a call the PermissionRequest hook interrupted.
pub const PERMISSION_HOOK_INTERRUPTED_MESSAGE: &'static str = "Tool execution interrupted by PermissionRequest hook";

/// The report message of a call the PermissionRequest hook denied.
pub const PERMISSION_HOOK_DENIED_MESSAGE: &'static str = "Tool execution denied by PermissionRequest hook";

/// The report message of a call to a tool no registry knows.
pub const UNSUPPORTED_TOOL_MESSAGE: &'static str = "Unsupported tool";

/// The report message of a call whose arguments are not JSON.
pub const INVALID_ARGUMENTS_MESSAGE: &'static str = "Invalid JSON arguments";

/// What the PreToolUse hook decided.
#[derive(Clone, Copy, Debug, PartialEq, Eq, Structural)]
pub enum PreToolDecision {
    /// No decision: the usual permission rules apply.
    Continue,
    /// The call runs without asking the client.
    Allow,
    /// The call is refused.
    Deny,
    /// The client is asked even when it would not be.
    Ask,
}

/// What the PermissionRequest hook decided, when it decided.
#[derive(Clone, Copy, Debug, PartialEq, Eq, Structural)]
pub enum PermissionHookDecision {
    Allow,
    Deny,
    /// The hook interrupted the call, whatever it allowed.
    Interrupt,
}

/// The next step of a call before its tool runs.
#[derive(Debug)]
pub enum CallStep {
    /// The call ends with this report; no tool runs.
    Finish(ToolExecutionReport),
    /// Ask the PermissionRequest hook.
    AskHook,
    /// Ask the client; `forced` when the client is asked even if it
    /// remembered an answer or confirmations are skipped.
    PromptClient { forced: bool },
    /// Go on to run the tool.
    Run,
}

/// The report for a call whose request has no function payload.
pub fn missing_payload_report() -> (r: ToolExecutionReport)
    ensures
        r@ == failure_view("unknown"@, MISSING_PAYLOAD_MESSAGE@, ToolAuditStatus::Failure),
{
    ToolExecutionReport::failure("unknown", MISSING_PAYLOAD_MESSAGE)
}

/// Whether the permission checks apply: the turn is not cancelled, the
/// tool is known and its arguments parsed.
pub open spec fn permission_checks_apply(cancelled: bool, has_descriptor: bool, args_parsed: bool) -> bool {
    !cancelled && has_descriptor && args_parsed
}

/// The step after the PreToolUse hook decided `pre` for a call to `tool`:
/// a denial ends the call as blocked; otherwise the PermissionRequest hook
/// is asked when the permission checks apply, and the call runs when they
/// do not.
pub fn after_pre_tool_hook(
    tool: &str,
    pre: PreToolDecision,
    cancelled: bool,
    has_descriptor: bool,
    args_parsed: bool,
) -> (s: CallStep)
    ensures
        pre == PreToolDecision::Deny ==> (s matches CallStep::Finish(r) && r@ == failure_view(
            tool@,
            PRE_TOOL_DENIED_MESSAGE@,
            ToolAuditStatus::Blocked,
        )),
        pre != PreToolDecision::Deny && permission_checks_apply(cancelled, has_descriptor, args_parsed)
            ==> s is AskHook,
        pre != PreToolDecision::Deny && !permission_checks_apply(cancelled, has_descriptor, args_parsed)
            ==> s is Run,
{
    if pre == PreToolDecision::Deny {
        CallStep::Finish(ToolExecutionReport::blocked(tool, PRE_TOOL_DENIED_MESSAGE))
    } else if !cancelled && has_descriptor && args_parsed {
        CallStep::AskHook
    } else {
        CallStep::Run
    }
}

/// The step after the PermissionRequest hook answered `hook` for a call to
/// `tool` whose PreToolUse decision was `pre`: an interruption fails the
/// call, a denial blocks it, an allowance runs it; without a decision, a
/// call the PreToolUse hook allowed runs and any other asks the client,
/// forced when that hook asked for it.
pub fn after_permission_hook(tool: &str, pre: PreToolDecision, hook: Option<PermissionHookDecision>) -> (s:
    CallStep)
    ensures
        hook == Some(PermissionHookDecision::Interrupt) ==> (s matches CallStep::Finish(r) && r@
            == failure_view(tool@, PERMISSION_HOOK_INTERRUPTED_MESSAGE@, ToolAuditStatus::Failure)),
        hook == Some(PermissionHookDecision::Deny) ==> (s matches CallStep::Finish(r) && r@
            == failure_view(tool@, PERMISSION_HOOK_DENIED_MESSAGE@, ToolAuditStatus::Blocked)),
        hook == Some(PermissionHookDecision::Allow) ==> s is Run,
        hook is None && pre == PreToolDecision::Allow ==> s is Run,
        hook is None && pre != PreToolDecision::Allow ==> (s matches CallStep::PromptClient { forced }
            && forced == (pre == PreToolDecision::Ask)),
{
    match hook {
        Some(PermissionHookDecision::Interrupt) => CallStep::Finish(
            ToolExecutionReport::failure(tool, PERMISSION_HOOK_INTERRUPTED_MESSAGE),
        ),
        Some(PermissionHookDecision::Deny) => CallStep::Finish(
            ToolExecutionReport::blocked(tool, PERMISSION_HOOK_DENIED_MESSAGE),
        ),
        Some(PermissionHookDecision::Allow) => CallStep::Run,
        None => if pre == PreToolDecision::Allow {
            CallStep::Run
        } else {
            CallStep::PromptClient { forced: pre == PreToolDecision::Ask }
        },
    }
}

/// How a call that passed its permission checks goes on.
#[derive(Debug)]
pub enum RunStep {
    /// Run the tool.
    Execute,
    /// The call ends with this report; no tool runs.
    Report(ToolExecutionReport),
}

/// What happens once the permission checks passed for a call to `tool`,
/// with the turn cancelled when `cancelled`, the tool known when
/// `has_descriptor`, and `args_error` the parser's message when the
/// arguments are not JSON. The first part says whether the client is told
/// that the call is in progress.
pub fn run_step(tool: &str, cancelled: bool, has_descriptor: bool, args_error: Option<&str>) -> (r: (
    bool,
    RunStep,
))
    ensures
        r.0 == (has_descriptor && !cancelled),
        cancelled ==> (r.1 matches RunStep::Report(rep) && rep@ == failure_view(
            tool@,
            TOOL_EXECUTION_CANCELLED_MESSAGE@,
            ToolAuditStatus::Cancelled,
        )),
        !cancelled && has_descriptor && args_error is None ==> r.1 is Execute,
        !cancelled && !has_descriptor && args_error is None ==> (r.1 matches RunStep::Report(rep) && rep@
            == failure_view(tool@, UNSUPPORTED_TOOL_MESSAGE@, ToolAuditStatus::Failure)),
        !cancelled && has_descriptor && args_error is Some ==> (r.1 matches RunStep::Report(rep) && rep@
            == failure_view(
            tool@,
            INVALID_ARGUMENTS_MESSAGE@ + ": "@ + args_error->0@,
            ToolAuditStatus::Failure,
        )),
        !cancelled && !has_descriptor && args_error is Some ==> (r.1 matches RunStep::Report(rep) && rep@
            == failure_view(tool@, INVALID_ARGUMENTS_MESSAGE@, ToolAuditStatus::Failure)),
{
    let show_in_progress = has_descriptor && !cancelled;
    let step = if cancelled {
        RunStep::Report(ToolExecutionReport::cancelled(tool))
    } else {
        match (has_descriptor, args_error) {
            (true, None) => RunStep::Execute,
            (false, None) => RunStep::Report(ToolExecutionReport::failure(tool, UNSUPPORTED_TOOL_MESSAGE)),
            (true, Some(error)) => {
                let mut message = String::from_str(INVALID_ARGUMENTS_MESSAGE);
                message.append(": ");
                message.append(error);
                RunStep::Report(ToolExecutionReport::failure(tool, message.as_str()))
            },
            (false, Some(_)) => RunStep::Report(ToolExecutionReport::failure(tool, INVALID_ARGUMENTS_MESSAGE)),
        }
    };
    (show_in_progress, step)
}

/// The report a call to `tool` ends with: a call that completed while the
/// turn was cancelled counts as cancelled; any other report stays.
pub fn settle_report(tool: &str, report: ToolExecutionReport, cancelled: bool) -> (r: ToolExecutionReport)
    ensures
        cancelled && report@.status == ToolCallStatus::Completed ==> r@ == failure_view(
            tool@,
            TOOL_EXECUTION_CANCELLED_MESSAGE@,
            ToolAuditStatus::Cancelled,
        ),
        !(cancelled && report@.status == ToolCallStatus::Completed) ==> r@ == report@,
{
    if cancelled && report.status == ToolCallStatus::Completed {
        ToolExecutionReport::cancelled(tool)
    } else {
        report
    }
}

/// The entries of `items` that are not blank, in order.
pub open spec fn non_blank(items: Seq<Seq<char>>) -> Seq<Seq<char>>
    decreases items.len(),
{
    if items.len() == 0 {
        Seq::empty()
    } else if trimmed(items.last()).len() == 0 {
        non_blank(items.drop_last())
    } else {
        non_blank(items.drop_last()).push(items.last())
    }
}

/// Each hook context as a line of the model's view.
pub open spec fn context_lines(contexts: Seq<Seq<char>>) -> Seq<char>
    decreases contexts.len(),
{
    if contexts.len() == 0 {
        Seq::empty()
    } else {
        context_lines(contexts.drop_last()) + "\nHook context: "@ + contexts.last()
    }
}

/// The model's view of a result after the PostToolUse hook: each non-blank
/// context it added, then its feedback when it blocked.
pub open spec fn hook_feedback_text(
    response: Seq<char>,
    contexts: Seq<Seq<char>>,
    block_reason: Option<Seq<char>>,
) -> Seq<char> {
    response + context_lines(non_blank(contexts)) + match block_reason {
        Some(reason) => "\nHook feedback: "@ + reason,
        None => Seq::empty(),
    }
}

pub open spec fn views(items: Seq<String>) -> Seq<Seq<char>> {
    items.map_values(|s: String| s@)
}

/// Appends to `response` the PostToolUse hook's non-blank `contexts` and
/// its `block_reason`.
pub fn with_hook_feedback(response: &str, contexts: &Vec<String>, block_reason: Option<&str>) -> (r: String)
    ensures
        r@ == hook_feedback_text(
            response@,
            views(contexts@),
            match block_reason {
                Some(b) => Some(b@),
                None => None,
            },
        ),
{
    let ghost items = views(contexts@);
    let mut out = String::from_str(response);
    let mut i: usize = 0;
    while i < contexts.len()
        invariant
            i <= contexts.len(),
            items == views(contexts@),
            out@ == response@ + context_lines(non_blank(items.take(i as int))),
        decreases contexts.len() - i,
    {
        proof {
            assert(items.take(i + 1).drop_last() =~= items.take(i as int));
            assert(items.take(i + 1).last() == contexts@[i as int]@);
        }
        let context = contexts[i].as_str();
        if trim(context).unicode_len() > 0 {
            let ghost before = out@;
            out.append("\nHook context: ");
            out.append(context);
            proof {
                let kept = non_blank(items.take(i as int));
                assert(non_blank(items.take(i + 1)) == kept.push(context@));
                assert(kept.push(context@).drop_last() =~= kept);
                assert(out@ =~= response@ + context_lines(kept.push(context@)));
            }
        }
        i += 1;
    }
    proof {
        assert(items.take(contexts.len() as int) =~= items);
    }
    match block_reason {
        Some(reason) => {
            out.append("\nHook feedback: ");
            out.append(reason);
        },
        None => {
            assert(out@ + Seq::<char>::empty() =~= out@);
        },
    }
    out
}

/// The non-blank `contexts` a hook added, in order.
pub fn non_blank_contexts(contexts: &Vec<String>) -> (r: Vec<String>)
    ensures
        views(r@) == non_blank(views(contexts@)),
{
    let ghost items = views(contexts@);
    let mut out: Vec<String> = Vec::new();
    let mut i: usize = 0;
    while i < contexts.len()
        invariant
            i <= contexts.len(),
            items == views(contexts@),
            views(out@) == non_blank(items.take(i as int)),
        decreases contexts.len() - i,
    {
        proof {
            assert(items.take(i + 1).drop_last() =~= items.take(i as int));
            assert(items.take(i + 1).last() == contexts@[i as int]@);
        }
        let context = contexts[i].as_str();
        if trim(context).unicode_len() > 0 {
            let ghost before = out@;
            out.push(String::from_str(context));
            proof {
                assert(views(out@) =~= views(before).push(context@));
            }
        }
        i += 1;
    }
    proof {
        assert(items.take(contexts.len() as int) =~= items);
    }
    out
}

} // verus!
