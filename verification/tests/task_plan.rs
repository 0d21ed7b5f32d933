use vtcode_acp::task_plan::{map_status, plan_entries, PlanEntryStatus, TrackerItem};

fn item(description: &str, status: &str) -> TrackerItem {
    TrackerItem { description: Some(description.to_string()), status: Some(status.to_string()) }
}

#[test]
fn renders_tracker_summary_and_extended_item_metadata() {
    let items = vec![item("Implement rendering", "in_progress"), item("Publish release", "blocked")];

    let entries = plan_entries(&items).expect("valid task tracker result");
    assert_eq!(entries.len(), 2);
    assert_eq!(entries[0].content, "Implement rendering");
    assert_eq!(entries[0].status, PlanEntryStatus::InProgress);
    assert_eq!(entries[1].content, "Publish release [blocked]");
    assert_eq!(entries[1].status, PlanEntryStatus::Pending);
}

#[test]
fn ignores_failed_or_malformed_tracker_results() {
    let malformed = vec![TrackerItem { description: None, status: None }];
    assert!(plan_entries(&malformed).is_none());
    let missing_status = vec![item("a", "pending"), TrackerItem { description: Some("b".to_string()), status: None }];
    assert!(plan_entries(&missing_status).is_none());
}

#[test]
fn status_mapping_preserves_content_and_exposes_blocked() {
    let descriptions = ["", "plain", "already [blocked]", "caf\u{e9} \u{1f680}", " [blocked]"];
    for description in descriptions {
        for status in ["pending", "in_progress", "completed", "blocked", "unknown"] {
            let (content, mapped) = map_status(description, status);
            let expected_content = if status == "blocked" {
                format!("{} [blocked]", description.strip_suffix(" [blocked]").unwrap_or(description))
            } else {
                description.to_string()
            };
            assert_eq!(content, expected_content);
            let expected_status = match status {
                "in_progress" => PlanEntryStatus::InProgress,
                "completed" => PlanEntryStatus::Completed,
                _ => PlanEntryStatus::Pending,
            };
            assert_eq!(mapped, expected_status);
        }
    }
}

#[test]
fn blocked_mark_is_not_doubled() {
    let (once, _) = map_status("Wait for input", "blocked");
    let (twice, _) = map_status(&once, "blocked");
    assert_eq!(once, "Wait for input [blocked]");
    assert_eq!(twice, once);
}
