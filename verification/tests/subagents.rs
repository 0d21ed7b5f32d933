use vtcode_acp::subagents::{
    effective_acp_subagent_concurrency, provider_request_limit, subagent_concurrency_plan, tool_call_session_limit,
    ProviderRequestPolicy, SubagentConcurrencyPlan,
};

#[test]
fn provider_limit_reserves_one_request_for_the_parent() {
    assert_eq!(effective_acp_subagent_concurrency(3, Some(3)), Some(2));
    assert_eq!(effective_acp_subagent_concurrency(3, Some(6)), Some(3));
    assert_eq!(effective_acp_subagent_concurrency(3, None), Some(3));
}

#[test]
fn single_request_provider_capacity_disables_acp_subagents() {
    assert_eq!(effective_acp_subagent_concurrency(3, Some(1)), None);
}

#[test]
fn zero_request_capacity_also_disables_subagents() {
    assert_eq!(effective_acp_subagent_concurrency(5, Some(0)), None);
    assert_eq!(effective_acp_subagent_concurrency(0, Some(2)), Some(0));
}

#[test]
fn subagents_always_leave_parent_capacity() {
    for limit in 0..20usize {
        for configured in 0..20usize {
            if let Some(n) = effective_acp_subagent_concurrency(configured, Some(limit)) {
                assert!(n + 1 <= limit);
                assert!(n <= configured);
            } else {
                assert!(limit <= 1);
            }
        }
    }
}

#[test]
fn provider_limit_is_found_by_case_insensitive_name() {
    let policies = vec![
        ProviderRequestPolicy { name: "other".to_string(), max_in_flight_requests: Some(9) },
        ProviderRequestPolicy { name: "Baseten".to_string(), max_in_flight_requests: Some(4) },
        ProviderRequestPolicy { name: "baseten".to_string(), max_in_flight_requests: Some(1) },
    ];
    assert_eq!(provider_request_limit(&policies, "BASETEN"), Some(4));
    assert_eq!(provider_request_limit(&policies, "missing"), None);
}

#[test]
fn first_matching_policy_without_limit_gives_none() {
    let policies = vec![
        ProviderRequestPolicy { name: "together".to_string(), max_in_flight_requests: None },
        ProviderRequestPolicy { name: "Together".to_string(), max_in_flight_requests: Some(8) },
    ];
    assert_eq!(provider_request_limit(&policies, "together"), None);
}

#[test]
fn concurrency_plan_caps_disables_or_keeps() {
    assert_eq!(subagent_concurrency_plan(4, Some(3)), SubagentConcurrencyPlan::Capped(2));
    assert_eq!(subagent_concurrency_plan(2, Some(3)), SubagentConcurrencyPlan::Unchanged);
    assert_eq!(subagent_concurrency_plan(4, Some(1)), SubagentConcurrencyPlan::Disabled);
    assert_eq!(subagent_concurrency_plan(4, None), SubagentConcurrencyPlan::Unchanged);
}

#[test]
fn session_tool_call_limit_prefers_configuration() {
    assert_eq!(tool_call_session_limit(Some(0), 50), 0);
    assert_eq!(tool_call_session_limit(None, 50), 50);
}
