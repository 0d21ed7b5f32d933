use vtcode_acp::recovery::{
    repair_unresolved_tool_calls, replace_tool_results, stage_tool_calls, MessageRole, ToolCallRef, ToolCallResult,
    TranscriptMessage,
};

fn call(id: &str) -> ToolCallRef {
    ToolCallRef { id: id.to_string(), function_name: Some("apply_patch".to_string()) }
}

fn assistant(calls: Vec<ToolCallRef>) -> TranscriptMessage {
    TranscriptMessage { role: MessageRole::Assistant, content: String::new(), tool_calls: calls, tool_call_id: None }
}

fn user(text: &str) -> TranscriptMessage {
    TranscriptMessage { role: MessageRole::User, content: text.to_string(), tool_calls: Vec::new(), tool_call_id: None }
}

fn tool_result(id: &str, content: &str) -> TranscriptMessage {
    TranscriptMessage::tool_response(id.to_string(), content.to_string())
}

fn tool_ids_after(messages: &[TranscriptMessage], assistant_index: usize) -> Vec<String> {
    messages
        .iter()
        .skip(assistant_index + 1)
        .take_while(|message| message.role == MessageRole::Tool)
        .filter_map(|message| message.tool_call_id.clone())
        .collect()
}

fn content_for<'a>(messages: &'a [TranscriptMessage], call_id: &str) -> Option<&'a str> {
    messages
        .iter()
        .find(|message| message.role == MessageRole::Tool && message.tool_call_id.as_deref() == Some(call_id))
        .map(|message| message.content.as_str())
}

fn same(a: &TranscriptMessage, b: &TranscriptMessage) -> bool {
    a.role == b.role
        && a.content == b.content
        && a.tool_call_id == b.tool_call_id
        && a.tool_calls.len() == b.tool_calls.len()
        && a.tool_calls.iter().zip(&b.tool_calls).all(|(x, y)| x.id == y.id && x.function_name == y.function_name)
}

#[test]
fn unresolved_history_is_not_closed_without_repair() {
    let messages = vec![assistant(vec![call("call-1")]), user("continue")];

    assert!(tool_ids_after(&messages, 0).is_empty());
}

#[test]
fn repair_inserts_incomplete_result_before_later_messages() {
    let mut messages = vec![assistant(vec![call("call-1")]), user("continue")];

    let report = repair_unresolved_tool_calls(&mut messages);

    assert_eq!(report.repaired_calls, 1);
    assert_eq!(tool_ids_after(&messages, 0), ["call-1"]);
    assert_eq!(messages[2].role, MessageRole::User);
    let content = content_for(&messages, "call-1").expect("recovery result should have text content");
    let recovery: serde_json::Value = serde_json::from_str(content).expect("recovery result should be JSON");
    assert_eq!(recovery["status"], "incomplete");
    assert_eq!(recovery["replayed"], false);
    let next_action = recovery["next_action"]
        .as_str()
        .expect("recovery result should have a next action")
        .to_ascii_lowercase();
    assert!(next_action.contains("verify"));
    assert!(next_action.contains("resubmit"));
}

#[test]
fn complete_history_is_preserved() {
    let mut messages = vec![assistant(vec![call("call-1")]), tool_result("call-1", "real result")];
    let expected: Vec<TranscriptMessage> = messages.iter().map(TranscriptMessage::duplicate).collect();

    let report = repair_unresolved_tool_calls(&mut messages);

    assert_eq!(report.repaired_calls, 0);
    assert_eq!(messages.len(), expected.len());
    assert!(messages.iter().zip(&expected).all(|(a, b)| same(a, b)));
}

#[test]
fn stage_writes_one_incomplete_result_per_call() {
    let mut messages = vec![user("edit files")];

    let call_ids = stage_tool_calls(&mut messages, assistant(vec![call("call-1"), call("call-2")]));

    assert_eq!(call_ids, ["call-1", "call-2"]);
    assert_eq!(tool_ids_after(&messages, 1), ["call-1", "call-2"]);
}

#[test]
fn successful_results_replace_incomplete_results() {
    let mut messages = Vec::new();
    drop(stage_tool_calls(&mut messages, assistant(vec![call("call-1")])));
    let results = vec![ToolCallResult { tool_call_id: "call-1".to_string(), llm_response: "real result".to_string() }];

    let replaced = replace_tool_results(&mut messages, &results);

    assert_eq!(replaced, 1);
    assert_eq!(content_for(&messages, "call-1"), Some("real result"));
}

#[test]
fn repair_is_idempotent_and_keeps_real_results() {
    let mut messages = vec![
        user("before"),
        assistant(vec![call("a"), call("b"), call("c")]),
        tool_result("b", "real b"),
        user("after"),
    ];

    let first = repair_unresolved_tool_calls(&mut messages);
    let once: Vec<TranscriptMessage> = messages.iter().map(TranscriptMessage::duplicate).collect();
    let second = repair_unresolved_tool_calls(&mut messages);

    assert_eq!(first.repaired_calls, 2);
    assert_eq!(second.repaired_calls, 0);
    assert!(messages.iter().zip(&once).all(|(a, b)| same(a, b)));
    let mut ids = tool_ids_after(&messages, 1);
    ids.sort();
    assert_eq!(ids, ["a", "b", "c"]);
    assert_eq!(content_for(&messages, "b"), Some("real b"));
    assert_eq!(messages.last().map(|m| m.role), Some(MessageRole::User));
}

#[test]
fn unnamed_call_is_reported_as_unknown_tool() {
    let mut messages = vec![assistant(vec![ToolCallRef { id: "x".to_string(), function_name: None }])];
    let report = repair_unresolved_tool_calls(&mut messages);
    assert_eq!(report.repaired_calls, 1);
    let value: serde_json::Value =
        serde_json::from_str(content_for(&messages, "x").expect("placeholder")).expect("placeholder JSON");
    assert_eq!(value["tool"], "unknown");
    assert_eq!(value["state"], "uncertain");
}

#[test]
fn result_without_staged_placeholder_is_appended() {
    let mut messages = vec![user("hello")];
    let results = vec![ToolCallResult { tool_call_id: "late".to_string(), llm_response: "value".to_string() }];
    assert_eq!(replace_tool_results(&mut messages, &results), 1);
    assert_eq!(messages.len(), 2);
    assert_eq!(content_for(&messages, "late"), Some("value"));
}
