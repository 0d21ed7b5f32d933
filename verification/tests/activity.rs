use vtcode_acp::activity::{ActivityStatus, CompactionActivity, COMPACTION_TITLE, LODY_EXTENSION_VERSION};

#[test]
fn compaction_updates_use_standard_tool_lifecycle_with_lody_activity_meta() {
    let activity = CompactionActivity::with_id("activity:compaction:test".to_string(), 120_000);

    let started = activity.started_update();
    assert!(started.is_initial);
    assert_eq!(started.status, ActivityStatus::InProgress);
    assert_eq!(started.meta.used_tokens_before, 120_000);
    assert_eq!(started.meta.version, LODY_EXTENSION_VERSION);
    assert!(started.meta.automatic);

    let finished = activity.finished_update(5, Some(42_000), None);
    assert!(!finished.is_initial);
    assert_eq!(finished.status, ActivityStatus::Completed);
    assert_eq!(finished.meta.used_tokens_after, Some(42_000));
    assert_eq!(finished.tool_call_id, "activity:compaction:test");
    assert_eq!(COMPACTION_TITLE, "Compact conversation context");
}

#[test]
fn failed_compaction_update_carries_the_failure_reason() {
    let activity = CompactionActivity::begin("session-a", 32_000);
    let update = activity.finished_update(1_500, None, Some("provider timed out"));

    assert_eq!(update.status, ActivityStatus::Failed);
    assert_eq!(update.meta.failure_reason.as_deref(), Some("provider timed out"));
    assert_eq!(update.meta.duration_ms, Some(1_500));
}

#[test]
fn activity_ids_name_the_session_and_a_fresh_uuid() {
    let first = CompactionActivity::begin("session-a", 1);
    let second = CompactionActivity::begin("session-a", 1);
    let id = first.tool_call_id();
    assert!(id.starts_with("activity:compaction:session-a:"));
    assert_eq!(id.len(), "activity:compaction:session-a:".len() + 36);
    assert_ne!(first.tool_call_id(), second.tool_call_id());
}

#[test]
fn elapsed_time_saturates() {
    let activity = CompactionActivity::with_id("id".to_string(), 0);
    let update = activity.finished_update(u128::from(u64::MAX) + 7, Some(0), None);
    assert_eq!(update.meta.duration_ms, Some(u64::MAX));
}
