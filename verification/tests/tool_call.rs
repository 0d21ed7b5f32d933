use vtcode_acp::reports::{ToolAuditStatus, ToolCallStatus, ToolExecutionReport};
use vtcode_acp::tool_call::{
    after_permission_hook, after_pre_tool_hook, missing_payload_report, non_blank_contexts, run_step,
    settle_report, with_hook_feedback, PermissionHookDecision, CallStep, PreToolDecision, RunStep,
};

fn message_of(report: &ToolExecutionReport) -> String {
    report.llm_response.clone()
}

#[test]
fn a_call_without_payload_fails_as_unknown() {
    let report = missing_payload_report();
    assert_eq!(report.status, ToolCallStatus::Failed);
    assert_eq!(
        message_of(&report),
        "{\"status\":\"error\",\"tool\":\"unknown\",\"message\":\"Malformed tool call: missing function payload\"}"
    );
}

#[test]
fn the_pre_tool_hook_decides_first() {
    match after_pre_tool_hook("read_file", PreToolDecision::Deny, false, true, true) {
        CallStep::Finish(report) => {
            assert_eq!(report.audit_status, ToolAuditStatus::Blocked);
            assert!(message_of(&report).contains("Tool execution denied by PreToolUse hook"));
        }
        other => panic!("expected a blocked report, got {other:?}"),
    }
    assert!(matches!(after_pre_tool_hook("t", PreToolDecision::Continue, false, true, true), CallStep::AskHook));
    assert!(matches!(after_pre_tool_hook("t", PreToolDecision::Ask, true, true, true), CallStep::Run));
    assert!(matches!(after_pre_tool_hook("t", PreToolDecision::Allow, false, false, true), CallStep::Run));
}

#[test]
fn the_permission_hook_overrides_and_otherwise_the_client_is_asked() {
    match after_permission_hook("t", PreToolDecision::Allow, Some(PermissionHookDecision::Interrupt)) {
        CallStep::Finish(report) => {
            assert_eq!(report.audit_status, ToolAuditStatus::Failure);
            assert!(message_of(&report).contains("interrupted by PermissionRequest hook"));
        }
        other => panic!("expected a failure, got {other:?}"),
    }
    match after_permission_hook("t", PreToolDecision::Continue, Some(PermissionHookDecision::Deny)) {
        CallStep::Finish(report) => assert_eq!(report.audit_status, ToolAuditStatus::Blocked),
        other => panic!("expected a blocked report, got {other:?}"),
    }
    assert!(matches!(after_permission_hook("t", PreToolDecision::Ask, Some(PermissionHookDecision::Allow)), CallStep::Run));
    assert!(matches!(after_permission_hook("t", PreToolDecision::Allow, None), CallStep::Run));
    assert!(matches!(
        after_permission_hook("t", PreToolDecision::Ask, None),
        CallStep::PromptClient { forced: true }
    ));
    assert!(matches!(
        after_permission_hook("t", PreToolDecision::Continue, None),
        CallStep::PromptClient { forced: false }
    ));
}

#[test]
fn calls_that_cannot_run_get_their_report() {
    let (in_progress, step) = run_step("t", true, true, None);
    assert!(!in_progress);
    match step {
        RunStep::Report(report) => assert_eq!(report.audit_status, ToolAuditStatus::Cancelled),
        RunStep::Execute => panic!("a cancelled call must not run"),
    }
    let (in_progress, step) = run_step("t", false, true, None);
    assert!(in_progress);
    assert!(matches!(step, RunStep::Execute));
    let (in_progress, step) = run_step("mystery", false, false, None);
    assert!(!in_progress);
    match step {
        RunStep::Report(report) => assert!(message_of(&report).contains("Unsupported tool")),
        RunStep::Execute => panic!("an unknown tool must not run"),
    }
    match run_step("t", false, true, Some("expected value at line 1 column 1")).1 {
        RunStep::Report(report) => {
            assert!(message_of(&report).contains("Invalid JSON arguments: expected value at line 1 column 1"))
        }
        RunStep::Execute => panic!("bad arguments must not run"),
    }
    match run_step("t", false, false, Some("eof")).1 {
        RunStep::Report(report) => assert!(message_of(&report).ends_with("\"message\":\"Invalid JSON arguments\"}")),
        RunStep::Execute => panic!("bad arguments must not run"),
    }
}

#[test]
fn a_completion_after_cancellation_counts_as_cancelled() {
    let done = ToolExecutionReport::success(Vec::new(), Vec::new(), "ok".to_string());
    assert_eq!(settle_report("t", done, true).audit_status, ToolAuditStatus::Cancelled);
    let done = ToolExecutionReport::success(Vec::new(), Vec::new(), "ok".to_string());
    assert_eq!(settle_report("t", done, false).llm_response, "ok");
    let failed = ToolExecutionReport::failure("t", "boom");
    assert_eq!(settle_report("t", failed, true).audit_status, ToolAuditStatus::Failure);
}

#[test]
fn post_tool_hook_feedback_is_appended() {
    let contexts = vec!["  ".to_string(), "use rg".to_string(), "".to_string(), "prefer tests".to_string()];
    assert_eq!(
        with_hook_feedback("result", &contexts, Some("too broad")),
        "result\nHook context: use rg\nHook context: prefer tests\nHook feedback: too broad"
    );
    assert_eq!(with_hook_feedback("result", &Vec::new(), None), "result");
    assert_eq!(non_blank_contexts(&contexts), vec!["use rg".to_string(), "prefer tests".to_string()]);
}
