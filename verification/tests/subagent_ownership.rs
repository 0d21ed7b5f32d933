use vtcode_acp::subagent_ownership::{listed_task_ids, managed_target, BackgroundTask, ChildTask, ManagedTarget};

fn background(id: &str, owner: Option<&str>, active: bool) -> BackgroundTask {
    BackgroundTask { id: id.to_string(), owner_session_id: owner.map(str::to_string), active }
}

#[test]
fn a_session_manages_only_what_it_owns() {
    let owned = vec!["child-1".to_string()];
    let tasks = vec![background("bg-1", Some("s1"), true), background("bg-2", Some("s2"), true), background("bg-3", None, true)];
    assert_eq!(managed_target("s1", "child-1", &owned, &tasks), ManagedTarget::Child);
    assert_eq!(managed_target("s1", "bg-1", &owned, &tasks), ManagedTarget::Background);
    assert_eq!(managed_target("s1", "bg-2", &owned, &tasks), ManagedTarget::Unknown);
    assert_eq!(managed_target("s1", "bg-3", &owned, &tasks), ManagedTarget::Unknown);
    assert_eq!(managed_target("s1", "child-2", &owned, &tasks), ManagedTarget::Unknown);
}

#[test]
fn listings_show_owned_tasks_and_running_ones_when_asked() {
    let owned = vec!["c1".to_string(), "c2".to_string()];
    let children = vec![
        ChildTask { id: "c1".to_string(), terminal: false },
        ChildTask { id: "c2".to_string(), terminal: true },
        ChildTask { id: "c3".to_string(), terminal: false },
    ];
    let tasks = vec![background("b1", Some("s1"), false), background("b2", Some("s1"), true), background("b3", Some("s2"), true)];
    assert_eq!(listed_task_ids("s1", &owned, &children, &tasks, false), vec!["c1", "c2", "b1", "b2"]);
    assert_eq!(listed_task_ids("s1", &owned, &children, &tasks, true), vec!["c1", "b2"]);
}
