use vtcode_acp::exec_output::{
    field_label, render_additional_details, render_command_details_block, render_command_output_block,
    render_exec_command_content, render_summary, truncate_text, ExecCommandPresentation, ExecField,
};

fn field(key: &str, display: &str) -> ExecField {
    ExecField { key: key.to_string(), display: display.to_string(), is_text: true }
}

fn plain(key: &str, display: &str) -> ExecField {
    ExecField { key: key.to_string(), display: display.to_string(), is_text: false }
}

#[test]
fn exec_command_presentation_separates_output_from_execution_metadata() {
    let fields = vec![
        plain("success", "true"),
        field("output", "first line\nsecond line\n"),
        plain("wall_time", "0.212"),
        field("session_id", "run-123"),
        field("command", "git status --short"),
        field("working_directory", "/workspace"),
        field("backend", "pipe"),
        plain("is_exited", "true"),
        plain("exit_code", "0"),
        plain("total_output_bytes", "23"),
        plain("output_truncated", "false"),
        field("spool_path", ".vtcode/context/tool_outputs/run-123.txt"),
        plain("spool_complete", "true"),
    ];
    let presentation = ExecCommandPresentation::from_fields(&fields);

    assert_eq!(
        presentation.summary,
        "Command: git status --short\nWorking directory: /workspace\nBackend: pipe\nSession ID: run-123\nTool succeeded: true\nProcess exited: true\nExit code: 0\nWall time (seconds): 0.212"
    );
    assert_eq!(presentation.output, "first line\nsecond line\n");
    assert_eq!(
        presentation.details.as_deref(),
        Some(
            "Total output bytes: 23\nOutput truncated: false\nSpool path: .vtcode/context/tool_outputs/run-123.txt\nSpool complete: true"
        )
    );
}

#[test]
fn exec_command_presentation_preserves_unknown_structured_details() {
    let fields = vec![
        field("output", ""),
        plain("future_metadata", "{\n  \"attempts\": 2,\n  \"recovered\": true\n}"),
        field("next_action", "retry"),
    ];
    let presentation = ExecCommandPresentation::from_fields(&fields);

    let details = presentation.details.expect("additional details should be rendered");
    assert!(details.contains("Future metadata: {\n  \"attempts\": 2,\n  \"recovered\": true\n}"));
    assert!(details.contains("Next action: retry"));
}

#[test]
fn missing_fields_fall_back_to_fixed_texts() {
    let presentation = ExecCommandPresentation::from_fields(&Vec::new());
    assert_eq!(presentation.summary, "Command completed");
    assert_eq!(presentation.output, "(no command output returned)");
    assert!(presentation.details.is_none());
    let value = ExecCommandPresentation::from_value("42", false);
    assert_eq!(value.summary, "Command completed");
    assert_eq!(value.output, "42");
    assert!(render_additional_details(&vec![field("output", "x"), field("command", "ls")]).is_none());
    assert_eq!(render_summary(&vec![plain("exit_code", "1")]), "Exit code: 1");
}

#[test]
fn labels_capitalise_and_space_keys() {
    assert_eq!(field_label("spool_path"), "Spool path");
    assert_eq!(field_label("_private"), " private");
    assert_eq!(field_label("\u{e9}tat_final"), "\u{e9}tat final");
    assert_eq!(field_label(""), "");
}

#[test]
fn blocks_are_cut_to_the_display_limit() {
    assert_eq!(truncate_text("abcdef", 3), ("abc".to_string(), true));
    assert_eq!(truncate_text("abc", 3), ("abc".to_string(), false));
    assert_eq!(render_command_output_block("hello", 10), "Command output\nhello");
    assert_eq!(
        render_command_output_block("hello", 2),
        "Command output\nhe\n[command output truncated for display; complete data remains in rawOutput]"
    );
    assert_eq!(
        render_command_details_block("abc", 1),
        "Execution details\na\n[execution details truncated for display; complete data remains in rawOutput]"
    );
}

#[test]
fn content_blocks_follow_the_presentation() {
    let presentation = ExecCommandPresentation::from_fields(&vec![field("command", "ls"), field("extra", "1")]);
    let blocks = render_exec_command_content(&presentation, 100);
    assert_eq!(blocks, vec![
        "Command: ls".to_string(),
        "Command output\n(no command output returned)".to_string(),
        "Execution details\nExtra: 1".to_string(),
    ]);
}

#[test]
fn exec_command_presentation_strips_terminal_escape_sequences() {
    let fields = vec![field("command", "printf colour"), field("output", "\u{1b}[31mred\u{1b}[0m")];
    let presentation = ExecCommandPresentation::from_fields(&fields);

    assert_eq!(presentation.summary, "Command: printf colour");
    assert_eq!(presentation.output, "red");
}

#[test]
fn only_text_values_lose_escape_sequences() {
    let raw = "\u{1b}]0;title\u{7}done\u{1b}(B!";
    assert_eq!(ExecCommandPresentation::from_value(raw, true).output, "done!");
    assert_eq!(ExecCommandPresentation::from_value(raw, false).output, raw);
    let details = render_additional_details(&vec![field("note", "\u{1b}[1;32mok\u{1b}[m")]);
    assert_eq!(details.as_deref(), Some("Note: ok"));
}
