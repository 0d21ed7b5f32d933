//! How many subagents a session may run at once when the provider limits
//! in-flight requests: the parent always keeps one request for itself.

use vstd::prelude::*;

use crate::text::{eq_ignore_ascii_case, eq_ignore_ascii_case_spec};

verus! {

/// The subagent concurrency that a provider limit of `max_in_flight`
/// requests leaves: none when the provider allows at most one request,
/// otherwise at most one less than the limit.
pub open spec fn effective_concurrency(configured: usize, max_in_flight: Option<usize>) -> Option<
    usize,
> {
    match max_in_flight {
        Some(limit) => if limit <= 1 {
            None
        } else if configured <= limit - 1 {
            Some(configured)
        } else {
            Some((limit - 1) as usize)
        },
        None => Some(configured),
    }
}

/// The subagent concurrency left by a provider limit.
pub fn effective_acp_subagent_concurrency(configured: usize, max_in_flight: Option<usize>) -> (r:
    Option<usize>)
    ensures
        r == effective_concurrency(configured, max_in_flight),
{
    match max_in_flight {
        Some(limit) => if limit <= 1 {
            None
        } else if configured <= limit - 1 {
            Some(configured)
        } else {
            Some(limit - 1)
        },
        None => Some(configured),
    }
}

/// Subagents never take the parent's request: with a provider limit, the
/// subagents run at most one request fewer than the limit, never more than
/// configured, and none at all when the limit allows a single request.
pub proof fn law_subagents_leave_parent_capacity(configured: usize, limit: usize)
    ensures
        limit <= 1 ==> effective_concurrency(configured, Some(limit)) is None,
        effective_concurrency(configured, Some(limit)) matches Some(n) ==> n + 1 <= limit && n
            <= configured,
        effective_concurrency(configured, None) == Some(configured),
{
}

/// A provider's request policy, as configured.
#[derive(Debug)]
pub struct ProviderRequestPolicy {
    pub name: String,
    pub max_in_flight_requests: Option<usize>,
}

/// The index of the first policy whose name equals `provider` up to ASCII
/// case.
pub open spec fn first_matching_policy(
    names: Seq<Seq<char>>,
    provider: Seq<char>,
) -> Option<int> {
    if exists|i: int| 0 <= i < names.len() && eq_ignore_ascii_case_spec(names[i], provider) {
        Some(
            choose|i: int|
                0 <= i < names.len() && eq_ignore_ascii_case_spec(names[i], provider) && forall|
                    j: int,
                |
                    0 <= j < i ==> !eq_ignore_ascii_case_spec(#[trigger] names[j], provider),
        )
    } else {
        None
    }
}

pub open spec fn policy_names(policies: Seq<ProviderRequestPolicy>) -> Seq<Seq<char>> {
    policies.map_values(|p: ProviderRequestPolicy| p.name@)
}

/// The in-flight request limit configured for `provider`: that of the
/// first policy named like it up to ASCII case.
pub open spec fn provider_limit(policies: Seq<ProviderRequestPolicy>, provider: Seq<char>) -> Option<
    usize,
> {
    match first_matching_policy(policy_names(policies), provider) {
        Some(i) => policies[i].max_in_flight_requests,
        None => None,
    }
}

/// The in-flight request limit configured for `provider`.
pub fn provider_request_limit(policies: &Vec<ProviderRequestPolicy>, provider: &str) -> (r: Option<
    usize,
>)
    ensures
        r == provider_limit(policies@, provider@),
{
    let ghost names = policy_names(policies@);
    let mut i: usize = 0;
    while i < policies.len()
        invariant
            i <= policies.len(),
            names == policy_names(policies@),
            forall|j: int| 0 <= j < i ==> !eq_ignore_ascii_case_spec(#[trigger] names[j], provider@),
        decreases policies.len() - i,
    {
        if eq_ignore_ascii_case(policies[i].name.as_str(), provider) {
            proof {
                assert(names[i as int] == policies@[i as int].name@);
                let w = choose|k: int|
                    0 <= k < names.len() && eq_ignore_ascii_case_spec(names[k], provider@) && forall|
                        j: int,
                    |
                        0 <= j < k ==> !eq_ignore_ascii_case_spec(#[trigger] names[j], provider@);
                if w < i {
                    assert(!eq_ignore_ascii_case_spec(names[w], provider@));
                } else if w > i {
                    assert(!eq_ignore_ascii_case_spec(names[i as int], provider@));
                }
            }
            return policies[i].max_in_flight_requests;
        }
        proof {
            assert(names[i as int] == policies@[i as int].name@);
        }
        i += 1;
    }
    None
}

/// What a provider limit does to the configured subagent concurrency.
#[derive(Clone, Copy, Debug, PartialEq, Eq, Structural)]
pub enum SubagentConcurrencyPlan {
    /// The limit leaves no capacity: subagents are not started.
    Disabled,
    /// The concurrency is lowered to the given value.
    Capped(usize),
    /// The configured concurrency stands.
    Unchanged,
}

pub open spec fn concurrency_plan(configured: usize, provider_limit: Option<usize>) -> SubagentConcurrencyPlan {
    match provider_limit {
        Some(limit) => match effective_concurrency(configured, Some(limit)) {
            None => SubagentConcurrencyPlan::Disabled,
            Some(n) => if configured > n {
                SubagentConcurrencyPlan::Capped(n)
            } else {
                SubagentConcurrencyPlan::Unchanged
            },
        },
        None => SubagentConcurrencyPlan::Unchanged,
    }
}

/// What the provider limit, if any, does to `configured`.
pub fn subagent_concurrency_plan(configured: usize, provider_limit: Option<usize>) -> (p:
    SubagentConcurrencyPlan)
    ensures
        p == concurrency_plan(configured, provider_limit),
{
    match provider_limit {
        Some(limit) => match effective_acp_subagent_concurrency(configured, Some(limit)) {
            None => SubagentConcurrencyPlan::Disabled,
            Some(n) => if configured > n {
                SubagentConcurrencyPlan::Capped(n)
            } else {
                SubagentConcurrencyPlan::Unchanged
            },
        },
        None => SubagentConcurrencyPlan::Unchanged,
    }
}

/// The per-session tool call limit: the configured one, or the safety
/// gateway's current limit when none is configured.
pub fn tool_call_session_limit(configured: Option<usize>, current: usize) -> (r: usize)
    ensures
        r == match configured {
            Some(n) => n,
            None => current,
        },
{
    match configured {
        Some(n) => n,
        None => current,
    }
}

} // verus!
