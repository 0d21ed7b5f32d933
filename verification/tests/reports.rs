use vtcode_acp::reports::{
    create_diff_content, should_run_post_tool_hook, tool_name_or_unknown, update_fields_from_report, ToolAuditStatus,
    ToolCallLocation, ToolCallStatus, ToolContent, ToolExecutionReport, TOOL_PERMISSION_DENIED_MESSAGE,
};

#[test]
fn post_tool_hook_only_runs_for_successful_completion() {
    assert!(should_run_post_tool_hook(&ToolCallStatus::Completed));
    assert!(!should_run_post_tool_hook(&ToolCallStatus::Failed));
    assert!(!should_run_post_tool_hook(&ToolCallStatus::InProgress));
    assert!(!should_run_post_tool_hook(&ToolCallStatus::Pending));
}

#[test]
fn maps_success_denied_and_failure_to_audit_statuses() {
    assert_eq!(
        ToolExecutionReport::success(Vec::new(), Vec::new(), "{}".to_string()).audit_status,
        ToolAuditStatus::Success
    );
    assert_eq!(ToolExecutionReport::blocked("read_file", "denied").audit_status, ToolAuditStatus::Blocked);
    assert_eq!(ToolExecutionReport::failure("read_file", "failed").audit_status, ToolAuditStatus::Failure);
    assert_eq!(ToolExecutionReport::cancelled("read_file").audit_status, ToolAuditStatus::Cancelled);
}

#[test]
fn failure_payload_is_json_with_tool_and_message() {
    let report = ToolExecutionReport::failure("read_file", "no \"such\" file");
    let value: serde_json::Value = serde_json::from_str(&report.llm_response).expect("failure payload is JSON");
    assert_eq!(value["status"], "error");
    assert_eq!(value["tool"], "read_file");
    assert_eq!(value["message"], "no \"such\" file");
    assert_eq!(report.raw_output.as_deref(), Some(report.llm_response.as_str()));
    assert_eq!(report.status, ToolCallStatus::Failed);
    match &report.content[0] {
        ToolContent::Text(text) => assert_eq!(text, "Tool execution failed: no \"such\" file"),
        other => panic!("unexpected content {other:?}"),
    }
}

#[test]
fn denied_report_mentions_the_denial() {
    let report = ToolExecutionReport::blocked("write_file", TOOL_PERMISSION_DENIED_MESSAGE);
    assert!(report.llm_response.contains(TOOL_PERMISSION_DENIED_MESSAGE));
}

#[test]
fn update_fields_keep_only_present_parts() {
    let report = ToolExecutionReport::success(
        vec![ToolContent::Text("done".to_string())],
        Vec::new(),
        "{\"ok\":true}".to_string(),
    );
    let fields = update_fields_from_report(report);
    assert_eq!(fields.status, ToolCallStatus::Completed);
    assert_eq!(fields.content.as_ref().map(Vec::len), Some(1));
    assert!(fields.locations.is_none());
    assert_eq!(fields.raw_output.as_deref(), Some("{\"ok\":true}"));

    let report = ToolExecutionReport::success(
        Vec::new(),
        vec![ToolCallLocation { path: "/w/a.rs".to_string(), line: Some(3) }],
        "{}".to_string(),
    );
    let fields = update_fields_from_report(report);
    assert!(fields.content.is_none());
    assert_eq!(fields.locations.as_ref().map(Vec::len), Some(1));
}

#[test]
fn diff_content_keeps_old_and_new_text() {
    match create_diff_content("/w/a.rs", Some("old"), "new") {
        ToolContent::Diff { path, old_text, new_text } => {
            assert_eq!(path, "/w/a.rs");
            assert_eq!(old_text.as_deref(), Some("old"));
            assert_eq!(new_text, "new");
        }
        other => panic!("unexpected content {other:?}"),
    }
}

#[test]
fn unnamed_tool_calls_are_unknown() {
    assert_eq!(tool_name_or_unknown(None), "unknown");
    assert_eq!(tool_name_or_unknown(Some("read_file")), "read_file");
}

#[test]
fn failure_payload_escapes_quotes_backslashes_and_control_characters() {
    let report = ToolExecutionReport::failure("t", "a\"b\\c\n\u{1}\u{1f}\u{e9}");
    assert_eq!(
        report.llm_response,
        "{\"status\":\"error\",\"tool\":\"t\",\"message\":\"a\\\"b\\\\c\\n\\u0001\\u001f\u{e9}\"}"
    );
}
