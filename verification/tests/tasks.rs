use vtcode_acp::reports::ToolCallStatus;
use vtcode_acp::tasks::{
    background_started_at, background_task_status, subagent_task_status, task_text, task_tool_call_id, usage_model,
    BackgroundState, SubagentState,
};

#[test]
fn maps_worker_and_background_states_to_lody_task_metadata() {
    let subagents = [
        (SubagentState::Queued, "pending", ToolCallStatus::Pending),
        (SubagentState::Running, "in_progress", ToolCallStatus::InProgress),
        (SubagentState::Waiting, "in_progress", ToolCallStatus::InProgress),
        (SubagentState::Completed, "completed", ToolCallStatus::Completed),
        (SubagentState::Failed, "failed", ToolCallStatus::Failed),
        (SubagentState::Closed, "failed", ToolCallStatus::Failed),
    ];
    for (state, text, status) in subagents {
        assert_eq!(subagent_task_status(state), (text, status));
    }
    let background = [
        (BackgroundState::Starting, "pending", ToolCallStatus::Pending),
        (BackgroundState::Running, "in_progress", ToolCallStatus::InProgress),
        (BackgroundState::Stopped, "completed", ToolCallStatus::Completed),
        (BackgroundState::Error, "failed", ToolCallStatus::Failed),
    ];
    for (state, text, status) in background {
        assert_eq!(background_task_status(state), (text, status));
    }
    assert_eq!(task_tool_call_id("worker-1"), "task:worker-1");
}

#[test]
fn task_text_prefers_error_then_summary() {
    assert_eq!(task_text(Some("boom"), Some("done"), "desc"), "boom");
    assert_eq!(task_text(None, Some("done"), "desc"), "done");
    assert_eq!(task_text(None, None, "desc"), "desc");
}

#[test]
fn background_start_falls_back_to_creation() {
    assert_eq!(background_started_at(Some(20), 10), 20);
    assert_eq!(background_started_at(None, 10), 10);
}

#[test]
fn usage_is_reported_under_the_response_model() {
    assert_eq!(usage_model("model-a", "fallback-model"), "model-a");
    assert_eq!(usage_model("", "fallback-model"), "fallback-model");
}
