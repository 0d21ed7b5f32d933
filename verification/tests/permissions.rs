use vtcode_acp::permissions::{
    DefaultPermissionPrompter, PermissionOptionKind, PermissionOutcome, PermissionStep, PermissionToolContext,
    PersistentPermissionDecision, ToolKind,
};
use vtcode_acp::reports::{
    ToolExecutionReport, TOOL_PERMISSION_ALLOW_ALWAYS_OPTION_ID, TOOL_PERMISSION_ALLOW_OPTION_ID,
    TOOL_PERMISSION_CANCELLED_MESSAGE, TOOL_PERMISSION_DENIED_MESSAGE, TOOL_PERMISSION_DENY_ALWAYS_OPTION_ID,
    TOOL_PERMISSION_DENY_OPTION_ID, TOOL_PERMISSION_REQUEST_FAILURE_MESSAGE,
};

#[derive(Clone, Copy)]
enum ClientDecision {
    Allow,
    AllowAlways,
    Deny,
    DenyAlways,
    Cancel,
    Unknown,
    RequestFailure,
}

fn outcome(decision: ClientDecision) -> PermissionOutcome {
    match decision {
        ClientDecision::Allow => PermissionOutcome::Selected(TOOL_PERMISSION_ALLOW_OPTION_ID.to_string()),
        ClientDecision::AllowAlways => PermissionOutcome::Selected(TOOL_PERMISSION_ALLOW_ALWAYS_OPTION_ID.to_string()),
        ClientDecision::Deny => PermissionOutcome::Selected(TOOL_PERMISSION_DENY_OPTION_ID.to_string()),
        ClientDecision::DenyAlways => PermissionOutcome::Selected(TOOL_PERMISSION_DENY_ALWAYS_OPTION_ID.to_string()),
        ClientDecision::Cancel => PermissionOutcome::Cancelled,
        ClientDecision::Unknown => PermissionOutcome::Selected("unsupported-option".to_string()),
        ClientDecision::RequestFailure => PermissionOutcome::RequestFailed,
    }
}

fn read_file_tool() -> PermissionToolContext {
    PermissionToolContext::new("read_file", ToolKind::Read, "Read file src/lib.rs")
}

/// Runs one permission request, answering any prompt with `decision`;
/// returns the report and whether a prompt was shown.
fn request(
    prompter: &mut DefaultPermissionPrompter<()>,
    session_id: &str,
    decision: ClientDecision,
    force_prompt: bool,
) -> (Option<ToolExecutionReport>, bool) {
    let tool = read_file_tool();
    match prompter.begin_permission_request(session_id, &tool, force_prompt) {
        PermissionStep::Resolved(report) => (report, false),
        PermissionStep::Prompt(prompt) => {
            assert_eq!(prompt.options.len(), 4);
            (prompter.finish_permission_request(session_id, &tool, &outcome(decision)), true)
        }
    }
}

fn run_permission_flow(decision: ClientDecision) -> Option<ToolExecutionReport> {
    let mut prompter = DefaultPermissionPrompter::new(());
    request(&mut prompter, "permission-test-session", decision, false).0
}

fn run_repeated_permission_flow(
    decision: ClientDecision,
    skip_confirmations: bool,
    force_prompt: bool,
) -> (Vec<Option<ToolExecutionReport>>, usize) {
    let mut prompter = DefaultPermissionPrompter::with_skip_confirmations((), skip_confirmations);
    let mut results = Vec::new();
    let mut prompts = 0;
    for _ in 0..2 {
        let (report, prompted) = request(&mut prompter, "persistent-permission-test-session", decision, force_prompt);
        results.push(report);
        prompts += usize::from(prompted);
    }
    (results, prompts)
}

#[test]
fn permission_allow_flow_returns_no_failure() {
    assert!(run_permission_flow(ClientDecision::Allow).is_none());
}

#[test]
fn permission_deny_flow_returns_denied_report() {
    let report = run_permission_flow(ClientDecision::Deny).expect("deny should produce a report");
    assert!(report.llm_response.contains(TOOL_PERMISSION_DENIED_MESSAGE));
}

#[test]
fn permission_cancel_flow_returns_cancelled_report() {
    let report = run_permission_flow(ClientDecision::Cancel).expect("cancel should produce a report");
    assert!(report.llm_response.contains(TOOL_PERMISSION_CANCELLED_MESSAGE));
}

#[test]
fn permission_unknown_option_fails_closed() {
    let report = run_permission_flow(ClientDecision::Unknown).expect("unknown option should be denied");
    assert!(report.llm_response.contains(TOOL_PERMISSION_DENIED_MESSAGE));
}

#[test]
fn permission_request_failure_returns_failure_report() {
    let report = run_permission_flow(ClientDecision::RequestFailure).expect("request failure should produce a report");
    assert!(report.llm_response.contains(TOOL_PERMISSION_REQUEST_FAILURE_MESSAGE));
}

#[test]
fn skip_confirmations_bypasses_acp_permission_requests() {
    let (results, request_count) = run_repeated_permission_flow(ClientDecision::Allow, true, false);

    assert!(results.iter().all(Option::is_none));
    assert_eq!(request_count, 0);
}

#[test]
fn allow_always_is_reused_for_the_session_tool() {
    let (results, request_count) = run_repeated_permission_flow(ClientDecision::AllowAlways, false, false);

    assert!(results.iter().all(Option::is_none));
    assert_eq!(request_count, 1);
}

#[test]
fn reject_always_is_reused_for_the_session_tool() {
    let (results, request_count) = run_repeated_permission_flow(ClientDecision::DenyAlways, false, false);

    assert!(results
        .iter()
        .all(|report| report.as_ref().is_some_and(|report| report.llm_response.contains(TOOL_PERMISSION_DENIED_MESSAGE))));
    assert_eq!(request_count, 1);
}

#[test]
fn forced_permission_prompt_overrides_skip_confirmations() {
    let (results, request_count) = run_repeated_permission_flow(ClientDecision::Allow, true, true);

    assert!(results.iter().all(Option::is_none));
    assert_eq!(request_count, 2);
}

#[test]
fn remembered_decisions_are_scoped_to_session_and_tool() {
    let mut prompter = DefaultPermissionPrompter::new(());
    prompter.remember_persistent_decision("s1", "read_file", PersistentPermissionDecision::Allow);
    assert_eq!(prompter.persistent_decision("s1", "read_file"), Some(PersistentPermissionDecision::Allow));
    assert_eq!(prompter.persistent_decision("s2", "read_file"), None);
    assert_eq!(prompter.persistent_decision("s1", "write_file"), None);
    prompter.remember_persistent_decision("s1", "read_file", PersistentPermissionDecision::Reject);
    assert_eq!(prompter.persistent_decision("s1", "read_file"), Some(PersistentPermissionDecision::Reject));
}

#[test]
fn options_offer_allow_and_reject_once_and_always() {
    let prompter = DefaultPermissionPrompter::new(());
    let options = prompter.permission_options_for_action("Read file src/lib.rs");
    let ids: Vec<_> = options.iter().map(|o| o.option_id.as_str()).collect();
    assert_eq!(ids, ["allow-once", "allow-always", "reject-once", "reject-always"]);
    assert_eq!(options[0].kind, PermissionOptionKind::AllowOnce);
    assert_eq!(options[3].kind, PermissionOptionKind::RejectAlways);
    assert!(options[0].name.starts_with("Allow"));
    assert!(options[2].name.starts_with("Deny"));
}

#[test]
fn registry_is_the_one_given_and_survives_decisions() {
    let mut prompter = DefaultPermissionPrompter::with_skip_confirmations(7u8, true);
    assert_eq!(*prompter.registry(), 7u8);
    prompter.remember_persistent_decision("s", "read_file", PersistentPermissionDecision::Allow);
    assert_eq!(*prompter.registry(), 7u8);
    assert_eq!(*DefaultPermissionPrompter::new("tools").registry(), "tools");
}
