//! Provider rate-limit observations: the quota dimensions a provider reported
//! are projected into the push-only rate-limit snapshot a client displays,
//! and into the text of a rate-limit notice.
//!
//! Nothing is invented: a dimension appears only with a positive limit, a
//! utilisation window only when the remaining count is consistent with that
//! limit, and a reset time only on the per-second request window.

use vstd::prelude::*;

use crate::decimal::{decimal, push_decimal};

verus! {

/// The method of the extension notification that carries a snapshot.
pub const UPDATE_METHOD: &'static str = "_lody/rate_limits/update";

/// The rate-limit headers a provider reported.
#[derive(Clone, Copy, Debug, PartialEq, Eq, Structural)]
pub struct RateLimitMetadata {
    pub requests_limit_per_minute: Option<u64>,
    pub requests_remaining_per_minute: Option<u64>,
    pub tokens_limit_per_minute: Option<u64>,
    pub tokens_remaining_per_minute: Option<u64>,
    pub requests_limit_per_second: Option<u64>,
    pub requests_remaining_per_second: Option<u64>,
    pub tokens_limit_per_second: Option<u64>,
    pub tokens_remaining_per_second: Option<u64>,
    pub prompt_tokens_limit_per_second: Option<u64>,
    pub cache_adjusted_prompt_tokens_limit_per_second: Option<u64>,
    pub generated_tokens_limit_per_second: Option<u64>,
    pub prompt_tokens: Option<u64>,
    pub cached_prompt_tokens: Option<u64>,
    pub reset_after_millis: Option<u64>,
}

impl RateLimitMetadata {
    /// Metadata with no header reported.
    pub fn empty() -> (m: RateLimitMetadata)
        ensures
            m == RateLimitMetadata::none_reported(),
    {
        RateLimitMetadata {
            requests_limit_per_minute: None,
            requests_remaining_per_minute: None,
            tokens_limit_per_minute: None,
            tokens_remaining_per_minute: None,
            requests_limit_per_second: None,
            requests_remaining_per_second: None,
            tokens_limit_per_second: None,
            tokens_remaining_per_second: None,
            prompt_tokens_limit_per_second: None,
            cache_adjusted_prompt_tokens_limit_per_second: None,
            generated_tokens_limit_per_second: None,
            prompt_tokens: None,
            cached_prompt_tokens: None,
            reset_after_millis: None,
        }
    }

    pub open spec fn none_reported() -> RateLimitMetadata {
        RateLimitMetadata {
            requests_limit_per_minute: None,
            requests_remaining_per_minute: None,
            tokens_limit_per_minute: None,
            tokens_remaining_per_minute: None,
            requests_limit_per_second: None,
            requests_remaining_per_second: None,
            tokens_limit_per_second: None,
            tokens_remaining_per_second: None,
            prompt_tokens_limit_per_second: None,
            cache_adjusted_prompt_tokens_limit_per_second: None,
            generated_tokens_limit_per_second: None,
            prompt_tokens: None,
            cached_prompt_tokens: None,
            reset_after_millis: None,
        }
    }
}

/// One quota dimension a provider may report.
#[derive(Clone, Copy, Debug)]
pub struct QuotaDimension {
    pub id: &'static str,
    pub label: &'static str,
    pub limit: Option<u64>,
    pub remaining: Option<u64>,
    pub window_seconds: u64,
    pub reset_epoch_seconds: Option<u64>,
}

/// A utilisation window: how much of `limit` is left in a window of
/// `window_duration_seconds`. The used share is `limit - remaining` of
/// `limit`, and `remaining <= limit` always holds.
#[derive(Clone, Copy, Debug, PartialEq, Eq, Structural)]
pub struct RateLimitWindow {
    pub limit: u64,
    pub remaining: u64,
    pub window_duration_seconds: u64,
    pub resets_at_epoch_seconds: Option<u64>,
}

impl RateLimitWindow {
    /// The count used up so far in the window.
    pub fn used(&self) -> (u: u64)
        requires
            self.remaining <= self.limit,
        ensures
            u == self.limit - self.remaining,
    {
        self.limit - self.remaining
    }
}

/// One rate limit of a snapshot.
#[derive(Debug)]
pub struct RateLimit {
    pub limit_id: String,
    pub provider_id: String,
    pub model_id: String,
    pub limit_name: String,
    pub windows: Vec<RateLimitWindow>,
}

/// The mathematical content of a [`RateLimit`].
pub struct RateLimitView {
    pub limit_id: Seq<char>,
    pub provider_id: Seq<char>,
    pub model_id: Seq<char>,
    pub limit_name: Seq<char>,
    pub windows: Seq<RateLimitWindow>,
}

impl View for RateLimit {
    type V = RateLimitView;

    open spec fn view(&self) -> RateLimitView {
        RateLimitView {
            limit_id: self.limit_id@,
            provider_id: self.provider_id@,
            model_id: self.model_id@,
            limit_name: self.limit_name@,
            windows: self.windows@,
        }
    }
}

/// The rate limits observed at one moment.
#[derive(Debug)]
pub struct RateLimitsSnapshot {
    pub rate_limits: Vec<RateLimit>,
    pub fetched_at_epoch_seconds: u64,
}

/// The views of a sequence of rate limits.
pub open spec fn limit_views(limits: Seq<RateLimit>) -> Seq<RateLimitView> {
    limits.map_values(|l: RateLimit| l@)
}

/// `n / d` rounded up.
pub open spec fn ceil_div(n: int, d: int) -> int {
    if n % d == 0 {
        n / d
    } else {
        n / d + 1
    }
}

/// The second at which the provider's reset interval ends, when it is
/// reported and the sum stays within `u64`.
pub open spec fn reset_epoch(limits: RateLimitMetadata, now: u64) -> Option<u64> {
    match limits.reset_after_millis {
        Some(millis) => {
            let at = now + ceil_div(millis as int, 1000);
            if at <= u64::MAX {
                Some(at as u64)
            } else {
                None
            }
        },
        None => None,
    }
}

/// The seven quota dimensions, in the order a snapshot lists them.
pub open spec fn quota_dimensions(limits: RateLimitMetadata, now: u64) -> Seq<QuotaDimension> {
    seq![
        QuotaDimension {
            id: "requests-minute",
            label: "Requests/min",
            limit: limits.requests_limit_per_minute,
            remaining: limits.requests_remaining_per_minute,
            window_seconds: 60,
            reset_epoch_seconds: None,
        },
        QuotaDimension {
            id: "tokens-minute",
            label: "Tokens/min",
            limit: limits.tokens_limit_per_minute,
            remaining: limits.tokens_remaining_per_minute,
            window_seconds: 60,
            reset_epoch_seconds: None,
        },
        QuotaDimension {
            id: "requests-second",
            label: "Requests/s",
            limit: limits.requests_limit_per_second,
            remaining: limits.requests_remaining_per_second,
            window_seconds: 1,
            reset_epoch_seconds: reset_epoch(limits, now),
        },
        QuotaDimension {
            id: "tokens-second",
            label: "Tokens/s",
            limit: limits.tokens_limit_per_second,
            remaining: limits.tokens_remaining_per_second,
            window_seconds: 1,
            reset_epoch_seconds: None,
        },
        QuotaDimension {
            id: "prompt-second",
            label: "Prompt tokens/s",
            limit: limits.prompt_tokens_limit_per_second,
            remaining: None,
            window_seconds: 1,
            reset_epoch_seconds: None,
        },
        QuotaDimension {
            id: "cache-adjusted-prompt-second",
            label: "Cache-adjusted prompt tokens/s",
            limit: limits.cache_adjusted_prompt_tokens_limit_per_second,
            remaining: None,
            window_seconds: 1,
            reset_epoch_seconds: None,
        },
        QuotaDimension {
            id: "generated-second",
            label: "Generated tokens/s",
            limit: limits.generated_tokens_limit_per_second,
            remaining: None,
            window_seconds: 1,
            reset_epoch_seconds: None,
        },
    ]
}

/// The utilisation windows of a dimension with limit `limit`: one when the
/// remaining count is reported and does not exceed the limit, none otherwise.
pub open spec fn dimension_windows(d: QuotaDimension, limit: u64) -> Seq<RateLimitWindow> {
    match d.remaining {
        Some(remaining) => if remaining <= limit {
            seq![
                RateLimitWindow {
                    limit,
                    remaining,
                    window_duration_seconds: d.window_seconds,
                    resets_at_epoch_seconds: d.reset_epoch_seconds,
                },
            ]
        } else {
            Seq::empty()
        },
        None => Seq::empty(),
    }
}

/// The rate limit a dimension contributes: none unless its limit is
/// reported and positive.
pub open spec fn dimension_entry(
    provider: Seq<char>,
    model: Seq<char>,
    d: QuotaDimension,
) -> Option<RateLimitView> {
    match d.limit {
        Some(limit) => if limit > 0 {
            Some(
                RateLimitView {
                    limit_id: provider + seq![':'] + model + seq![':'] + d.id@,
                    provider_id: provider,
                    model_id: model,
                    limit_name: d.label@ + " (limit "@ + decimal(limit as nat) + seq![')'],
                    windows: dimension_windows(d, limit),
                },
            )
        } else {
            None
        },
        None => None,
    }
}

/// The rate limits contributed by `dims`, in order.
pub open spec fn dimension_entries(
    provider: Seq<char>,
    model: Seq<char>,
    dims: Seq<QuotaDimension>,
) -> Seq<RateLimitView>
    decreases dims.len(),
{
    if dims.len() == 0 {
        Seq::empty()
    } else {
        let rest = dimension_entries(provider, model, dims.drop_last());
        match dimension_entry(provider, model, dims.last()) {
            Some(entry) => rest.push(entry),
            None => rest,
        }
    }
}

/// The rate limits of a snapshot taken at `now`.
pub open spec fn snapshot_entries(
    provider: Seq<char>,
    model: Seq<char>,
    limits: RateLimitMetadata,
    now: u64,
) -> Seq<RateLimitView> {
    dimension_entries(provider, model, quota_dimensions(limits, now))
}

fn reset_epoch_seconds(limits: &RateLimitMetadata, now: u64) -> (r: Option<u64>)
    ensures
        r == reset_epoch(*limits, now),
{
    match limits.reset_after_millis {
        Some(millis) => {
            let seconds: u64 = if millis % 1000 == 0 {
                millis / 1000
            } else {
                millis / 1000 + 1
            };
            now.checked_add(seconds)
        },
        None => None,
    }
}

fn dimensions(limits: &RateLimitMetadata, now: u64) -> (v: Vec<QuotaDimension>)
    ensures
        v@ == quota_dimensions(*limits, now),
{
    let reset = reset_epoch_seconds(limits, now);
    let v = vec![
        QuotaDimension {
            id: "requests-minute",
            label: "Requests/min",
            limit: limits.requests_limit_per_minute,
            remaining: limits.requests_remaining_per_minute,
            window_seconds: 60,
            reset_epoch_seconds: None,
        },
        QuotaDimension {
            id: "tokens-minute",
            label: "Tokens/min",
            limit: limits.tokens_limit_per_minute,
            remaining: limits.tokens_remaining_per_minute,
            window_seconds: 60,
            reset_epoch_seconds: None,
        },
        QuotaDimension {
            id: "requests-second",
            label: "Requests/s",
            limit: limits.requests_limit_per_second,
            remaining: limits.requests_remaining_per_second,
            window_seconds: 1,
            reset_epoch_seconds: reset,
        },
        QuotaDimension {
            id: "tokens-second",
            label: "Tokens/s",
            limit: limits.tokens_limit_per_second,
            remaining: limits.tokens_remaining_per_second,
            window_seconds: 1,
            reset_epoch_seconds: None,
        },
        QuotaDimension {
            id: "prompt-second",
            label: "Prompt tokens/s",
            limit: limits.prompt_tokens_limit_per_second,
            remaining: None,
            window_seconds: 1,
            reset_epoch_seconds: None,
        },
        QuotaDimension {
            id: "cache-adjusted-prompt-second",
            label: "Cache-adjusted prompt tokens/s",
            limit: limits.cache_adjusted_prompt_tokens_limit_per_second,
            remaining: None,
            window_seconds: 1,
            reset_epoch_seconds: None,
        },
        QuotaDimension {
            id: "generated-second",
            label: "Generated tokens/s",
            limit: limits.generated_tokens_limit_per_second,
            remaining: None,
            window_seconds: 1,
            reset_epoch_seconds: None,
        },
    ];
    assert(v@ =~= quota_dimensions(*limits, now));
    v
}

/// The rate limit that one dimension contributes, if any.
fn entry_for(provider: &str, model: &str, d: &QuotaDimension) -> (r: Option<RateLimit>)
    ensures
        match dimension_entry(provider@, model@, *d) {
            Some(view) => r is Some && r->0@ == view,
            None => r is None,
        },
{
    let limit = match d.limit {
        Some(limit) => limit,
        None => return None,
    };
    if limit == 0 {
        return None;
    }
    let mut windows: Vec<RateLimitWindow> = Vec::new();
    if let Some(remaining) = d.remaining {
        if remaining <= limit {
            windows.push(
                RateLimitWindow {
                    limit,
                    remaining,
                    window_duration_seconds: d.window_seconds,
                    resets_at_epoch_seconds: d.reset_epoch_seconds,
                },
            );
        }
    }
    let mut limit_id = String::from_str(provider);
    limit_id.append(":");
    limit_id.append(model);
    limit_id.append(":");
    limit_id.append(d.id);
    let mut limit_name = String::from_str(d.label);
    limit_name.append(" (limit ");
    push_decimal(&mut limit_name, limit);
    limit_name.append(")");
    proof {
        reveal_strlit(":");
        reveal_strlit(")");
        assert(windows@ =~= dimension_windows(*d, limit));
        assert(":"@ =~= seq![':']);
        assert(")"@ =~= seq![')']);
        assert(limit_id@ =~= provider@ + seq![':'] + model@ + seq![':'] + d.id@);
        assert(limit_name@ =~= d.label@ + " (limit "@ + decimal(limit as nat) + seq![')']);
    }
    Some(
        RateLimit {
            limit_id,
            provider_id: String::from_str(provider),
            model_id: String::from_str(model),
            limit_name,
            windows,
        },
    )
}

/// The rate-limit snapshot for `provider` and `model` at `now` (seconds
/// since the epoch): one rate limit per dimension with a positive limit, or
/// `None` when no dimension has one.
pub fn rate_limit_snapshot(
    provider: &str,
    model: &str,
    limits: &RateLimitMetadata,
    now: u64,
) -> (r: Option<RateLimitsSnapshot>)
    ensures
        r is None <==> snapshot_entries(provider@, model@, *limits, now).len() == 0,
        r matches Some(s) ==> limit_views(s.rate_limits@) == snapshot_entries(
            provider@,
            model@,
            *limits,
            now,
        ) && s.fetched_at_epoch_seconds == now,
{
    let dims = dimensions(limits, now);
    let mut rate_limits: Vec<RateLimit> = Vec::new();
    let mut i: usize = 0;
    while i < dims.len()
        invariant
            i <= dims.len(),
            dims@ == quota_dimensions(*limits, now),
            limit_views(rate_limits@) == dimension_entries(provider@, model@, dims@.take(i as int)),
        decreases dims.len() - i,
    {
        let entry = entry_for(provider, model, &dims[i]);
        proof {
            assert(dims@.take(i + 1).drop_last() =~= dims@.take(i as int));
            assert(dims@.take(i + 1).last() == dims@[i as int]);
        }
        match entry {
            Some(limit) => {
                rate_limits.push(limit);
                proof {
                    assert(limit_views(rate_limits@) =~= dimension_entries(
                        provider@,
                        model@,
                        dims@.take(i as int),
                    ).push(limit@));
                }
            },
            None => {},
        }
        i += 1;
    }
    proof {
        assert(dims@.take(dims@.len() as int) =~= dims@);
    }
    if rate_limits.len() == 0 {
        None
    } else {
        Some(RateLimitsSnapshot { rate_limits, fetched_at_epoch_seconds: now })
    }
}

/// The level of a rate-limit notice.
pub const NOTICE_LEVEL: &'static str = "warning";

/// The source named by a rate-limit notice.
pub const NOTICE_SOURCE: &'static str = "provider_rate_limit";

/// The reported counts a notice lists, each with its label, in order.
pub open spec fn notice_counts(limits: RateLimitMetadata) -> Seq<(&'static str, Option<u64>)> {
    seq![
        ("request limit/min", limits.requests_limit_per_minute),
        ("requests remaining/min", limits.requests_remaining_per_minute),
        ("token limit/min", limits.tokens_limit_per_minute),
        ("tokens remaining/min", limits.tokens_remaining_per_minute),
        ("request limit/s", limits.requests_limit_per_second),
        ("requests remaining/s", limits.requests_remaining_per_second),
        ("token limit/s", limits.tokens_limit_per_second),
        ("tokens remaining/s", limits.tokens_remaining_per_second),
        ("prompt token limit/s", limits.prompt_tokens_limit_per_second),
        ("cache-adjusted prompt token limit/s", limits.cache_adjusted_prompt_tokens_limit_per_second),
        ("generated token limit/s", limits.generated_tokens_limit_per_second),
        ("request prompt tokens", limits.prompt_tokens),
        ("request cached prompt tokens", limits.cached_prompt_tokens),
    ]
}

/// `; label: value` for each reported count, in order.
pub open spec fn counts_text(counts: Seq<(&'static str, Option<u64>)>) -> Seq<char>
    decreases counts.len(),
{
    if counts.len() == 0 {
        Seq::empty()
    } else {
        let rest = counts_text(counts.drop_last());
        match counts.last().1 {
            Some(value) => rest + "; "@ + counts.last().0@ + ": "@ + decimal(value as nat),
            None => rest,
        }
    }
}

/// The details a notice gives of reported limits; `reset_text` is the
/// provider's reset interval in seconds, written with three decimals.
pub open spec fn limits_details(limits: RateLimitMetadata, reset_text: Seq<char>) -> Seq<char> {
    counts_text(notice_counts(limits)) + if limits.reset_after_millis is Some {
        "; provider reset interval: "@ + reset_text + seq!['s']
    } else {
        Seq::empty()
    }
}

/// Whether a provider failure is a rate limit: a rate-limit failure, or any
/// failure with HTTP status 429.
pub open spec fn is_rate_limit_failure(rate_limit_kind: bool, status: Option<u16>) -> bool {
    rate_limit_kind || status == Some(429u16)
}

/// The text of a rate-limit notice. `retry_delay_text` is the delay before
/// the next automatic attempt in seconds with one decimal, when one is
/// scheduled.
pub open spec fn notice_text(
    provider: Seq<char>,
    retry_after: Option<Seq<char>>,
    limits: Option<RateLimitMetadata>,
    reset_text: Seq<char>,
    retry_delay_text: Option<Seq<char>>,
) -> Seq<char> {
    provider + " returned HTTP 429 (rate limited)"@ + match retry_after {
        Some(value) => "; provider Retry-After: "@ + value,
        None => Seq::empty(),
    } + match limits {
        Some(limits) => limits_details(limits, reset_text),
        None => Seq::empty(),
    } + match retry_delay_text {
        Some(delay) => "; VTCode will retry in "@ + delay + seq!['s'],
        None => "; no further automatic retry is scheduled"@,
    }
}

/// Whether a provider failure is a rate limit.
pub fn is_rate_limit(rate_limit_kind: bool, status: Option<u16>) -> (r: bool)
    ensures
        r == is_rate_limit_failure(rate_limit_kind, status),
{
    rate_limit_kind || status == Some(429u16)
}

fn notice_count_entries(limits: &RateLimitMetadata) -> (v: Vec<(&'static str, Option<u64>)>)
    ensures
        v@ == notice_counts(*limits),
{
    let v = vec![
        ("request limit/min", limits.requests_limit_per_minute),
        ("requests remaining/min", limits.requests_remaining_per_minute),
        ("token limit/min", limits.tokens_limit_per_minute),
        ("tokens remaining/min", limits.tokens_remaining_per_minute),
        ("request limit/s", limits.requests_limit_per_second),
        ("requests remaining/s", limits.requests_remaining_per_second),
        ("token limit/s", limits.tokens_limit_per_second),
        ("tokens remaining/s", limits.tokens_remaining_per_second),
        ("prompt token limit/s", limits.prompt_tokens_limit_per_second),
        ("cache-adjusted prompt token limit/s", limits.cache_adjusted_prompt_tokens_limit_per_second),
        ("generated token limit/s", limits.generated_tokens_limit_per_second),
        ("request prompt tokens", limits.prompt_tokens),
        ("request cached prompt tokens", limits.cached_prompt_tokens),
    ];
    assert(v@ =~= notice_counts(*limits));
    v
}

/// Appends the details of reported limits to `message`.
pub fn append_rate_limit_details(message: &mut String, limits: &RateLimitMetadata, reset_text: &str)
    ensures
        final(message)@ == old(message)@ + limits_details(*limits, reset_text@),
{
    let counts = notice_count_entries(limits);
    let ghost start = message@;
    let mut i: usize = 0;
    while i < counts.len()
        invariant
            i <= counts.len(),
            counts@ == notice_counts(*limits),
            message@ == start + counts_text(counts@.take(i as int)),
        decreases counts.len() - i,
    {
        let (label, value) = counts[i];
        proof {
            assert(counts@.take(i + 1).drop_last() =~= counts@.take(i as int));
            assert(counts@.take(i + 1).last() == counts@[i as int]);
        }
        if let Some(value) = value {
            let ghost before = message@;
            message.append("; ");
            message.append(label);
            message.append(": ");
            push_decimal(message, value);
            proof {
                assert(message@ =~= before + "; "@ + label@ + ": "@ + decimal(value as nat));
            }
        }
        i += 1;
    }
    proof {
        assert(counts@.take(counts@.len() as int) =~= counts@);
    }
    if limits.reset_after_millis.is_some() {
        let ghost before = message@;
        message.append("; provider reset interval: ");
        message.append(reset_text);
        message.append("s");
        proof {
            reveal_strlit("s");
            assert(message@ =~= before + "; provider reset interval: "@ + reset_text@ + seq!['s']);
        }
    } else {
        assert(message@ =~= start + counts_text(counts@) + Seq::<char>::empty());
    }
}

/// The text of the notice for a provider failure, or `None` when the failure
/// is not a rate limit.
pub fn rate_limit_notice(
    rate_limit_kind: bool,
    status: Option<u16>,
    provider: &str,
    retry_after: Option<&str>,
    limits: Option<&RateLimitMetadata>,
    reset_text: &str,
    retry_delay_text: Option<&str>,
) -> (r: Option<String>)
    ensures
        r is Some <==> is_rate_limit_failure(rate_limit_kind, status),
        r matches Some(text) ==> text@ == notice_text(
            provider@,
            match retry_after {
                Some(value) => Some(value@),
                None => None,
            },
            match limits {
                Some(limits) => Some(*limits),
                None => None,
            },
            reset_text@,
            match retry_delay_text {
                Some(delay) => Some(delay@),
                None => None,
            },
        ),
{
    if !is_rate_limit(rate_limit_kind, status) {
        return None;
    }
    let mut message = String::from_str(provider);
    message.append(" returned HTTP 429 (rate limited)");
    let ghost head = message@;
    if let Some(value) = retry_after {
        message.append("; provider Retry-After: ");
        message.append(value);
    }
    let ghost with_retry_after = message@;
    if let Some(limits) = limits {
        append_rate_limit_details(&mut message, limits, reset_text);
    }
    let ghost with_limits = message@;
    if let Some(delay) = retry_delay_text {
        message.append("; VTCode will retry in ");
        message.append(delay);
        message.append("s");
        proof {
            reveal_strlit("s");
        }
    } else {
        message.append("; no further automatic retry is scheduled");
    }
    proof {
        let ra = match retry_after {
            Some(value) => "; provider Retry-After: "@ + value@,
            None => Seq::<char>::empty(),
        };
        let li = match limits {
            Some(limits) => limits_details(*limits, reset_text@),
            None => Seq::<char>::empty(),
        };
        let de = match retry_delay_text {
            Some(delay) => "; VTCode will retry in "@ + delay@ + seq!['s'],
            None => "; no further automatic retry is scheduled"@,
        };
        assert(with_retry_after =~= head + ra);
        assert(with_limits =~= head + ra + li);
        assert(message@ =~= head + ra + li + de);
    }
    Some(message)
}

/// Every rate limit of a list built from `dims` is the contribution of one
/// of them.
proof fn lemma_entries_come_from_dimensions(
    provider: Seq<char>,
    model: Seq<char>,
    dims: Seq<QuotaDimension>,
)
    ensures
        forall|k: int|
            0 <= k < dimension_entries(provider, model, dims).len() ==> exists|j: int|
                0 <= j < dims.len() && dimension_entry(provider, model, #[trigger] dims[j]) == Some(
                    #[trigger] dimension_entries(provider, model, dims)[k],
                ),
    decreases dims.len(),
{
    if dims.len() > 0 {
        let rest = dims.drop_last();
        lemma_entries_come_from_dimensions(provider, model, rest);
        let entries = dimension_entries(provider, model, dims);
        let previous = dimension_entries(provider, model, rest);
        assert forall|k: int| 0 <= k < entries.len() implies exists|j: int|
            0 <= j < dims.len() && dimension_entry(provider, model, #[trigger] dims[j]) == Some(
                #[trigger] entries[k],
            ) by {
            if k < previous.len() {
                assert(entries[k] == previous[k]);
                let j = choose|j: int|
                    0 <= j < rest.len() && dimension_entry(provider, model, #[trigger] rest[j])
                        == Some(previous[k]);
                assert(rest[j] == dims[j]);
            } else {
                assert(dimension_entry(provider, model, dims[dims.len() - 1]) == Some(entries[k]));
            }
        }
    }
}

/// A snapshot never fabricates quota: every rate limit has a positive limit,
/// at most one window, every window holds a remaining count within its limit,
/// and only the per-second request window carries a reset time.
pub proof fn law_snapshot_never_fabricates_quota(
    provider: Seq<char>,
    model: Seq<char>,
    limits: RateLimitMetadata,
    now: u64,
)
    ensures
        forall|k: int|
            #![trigger snapshot_entries(provider, model, limits, now)[k]]
            0 <= k < snapshot_entries(provider, model, limits, now).len() ==> {
                let entry = snapshot_entries(provider, model, limits, now)[k];
                &&& entry.windows.len() <= 1
                &&& forall|w: int|
                    #![trigger entry.windows[w]]
                    0 <= w < entry.windows.len() ==> {
                        &&& 0 < entry.windows[w].limit
                        &&& entry.windows[w].remaining <= entry.windows[w].limit
                        &&& (entry.windows[w].resets_at_epoch_seconds is Some ==> entry.limit_id
                            == provider + seq![':'] + model + seq![':'] + "requests-second"@)
                    }
            },
{
    let dims = quota_dimensions(limits, now);
    lemma_entries_come_from_dimensions(provider, model, dims);
    let entries = snapshot_entries(provider, model, limits, now);
    assert forall|k: int| #![trigger entries[k]] 0 <= k < entries.len() implies {
        let entry = entries[k];
        &&& entry.windows.len() <= 1
        &&& forall|w: int|
            #![trigger entry.windows[w]]
            0 <= w < entry.windows.len() ==> {
                &&& 0 < entry.windows[w].limit
                &&& entry.windows[w].remaining <= entry.windows[w].limit
                &&& (entry.windows[w].resets_at_epoch_seconds is Some ==> entry.limit_id == provider
                    + seq![':'] + model + seq![':'] + "requests-second"@)
            }
    } by {
        let j = choose|j: int|
            0 <= j < dims.len() && dimension_entry(provider, model, #[trigger] dims[j]) == Some(
                entries[k],
            );
        let d = dims[j];
        assert(d.reset_epoch_seconds is Some ==> j == 2);
    }
}

/// The id a snapshot gives the rate limit of dimension `id`.
pub open spec fn limit_id_for(provider: Seq<char>, model: Seq<char>, id: Seq<char>) -> Seq<char> {
    provider + seq![':'] + model + seq![':'] + id
}

/// A rate limit reports the limit `limit` and the remaining count
/// `remaining` a provider sent for one dimension: its windows carry exactly
/// them, and it has a window exactly when a remaining count within the limit
/// was sent.
pub open spec fn reports_counts(e: RateLimitView, limit: Option<u64>, remaining: Option<u64>) -> bool {
    &&& forall|w: int|
        0 <= w < e.windows.len() ==> Some(#[trigger] e.windows[w].limit) == limit && Some(
            e.windows[w].remaining,
        ) == remaining
    &&& (e.windows.len() > 0 <==> (limit matches Some(l) && remaining matches Some(r) && r <= l))
}

proof fn lemma_windows_report(d: QuotaDimension, l: u64, e: RateLimitView)
    requires
        d.limit == Some(l),
        e.windows == dimension_windows(d, l),
    ensures
        reports_counts(e, d.limit, d.remaining),
{
    if e.windows.len() > 0 {
        assert(e.windows[0].limit == l);
    }
}

proof fn lemma_suffix_cancel(prefix: Seq<char>, a: Seq<char>, b: Seq<char>)
    requires
        prefix + a == prefix + b,
    ensures
        a == b,
{
    assert(a =~= (prefix + a).subrange(prefix.len() as int, (prefix + a).len() as int));
    assert(b =~= (prefix + b).subrange(prefix.len() as int, (prefix + b).len() as int));
}

/// Each rate limit of a snapshot reports the counts the provider sent for
/// its own dimension: the requests-per-minute, tokens-per-minute,
/// requests-per-second and tokens-per-second limits each carry that
/// dimension's limit and remaining count, never another dimension's.
pub proof fn law_windows_report_their_own_dimension(
    provider: Seq<char>,
    model: Seq<char>,
    limits: RateLimitMetadata,
    now: u64,
)
    ensures
        forall|k: int|
            #![trigger snapshot_entries(provider, model, limits, now)[k]]
            0 <= k < snapshot_entries(provider, model, limits, now).len() ==> {
                let e = snapshot_entries(provider, model, limits, now)[k];
                &&& e.limit_id == limit_id_for(provider, model, "requests-minute"@) ==> reports_counts(
                    e,
                    limits.requests_limit_per_minute,
                    limits.requests_remaining_per_minute,
                )
                &&& e.limit_id == limit_id_for(provider, model, "tokens-minute"@) ==> reports_counts(
                    e,
                    limits.tokens_limit_per_minute,
                    limits.tokens_remaining_per_minute,
                )
                &&& e.limit_id == limit_id_for(provider, model, "requests-second"@) ==> reports_counts(
                    e,
                    limits.requests_limit_per_second,
                    limits.requests_remaining_per_second,
                )
                &&& e.limit_id == limit_id_for(provider, model, "tokens-second"@) ==> reports_counts(
                    e,
                    limits.tokens_limit_per_second,
                    limits.tokens_remaining_per_second,
                )
            },
{
    reveal_strlit("requests-minute");
    reveal_strlit("tokens-minute");
    reveal_strlit("requests-second");
    reveal_strlit("tokens-second");
    reveal_strlit("prompt-second");
    reveal_strlit("cache-adjusted-prompt-second");
    reveal_strlit("generated-second");
    let dims = quota_dimensions(limits, now);
    let prefix = provider + seq![':'] + model + seq![':'];
    lemma_entries_come_from_dimensions(provider, model, dims);
    let entries = snapshot_entries(provider, model, limits, now);
    assert forall|k: int| #![trigger entries[k]] 0 <= k < entries.len() implies {
        let e = entries[k];
        &&& e.limit_id == limit_id_for(provider, model, "requests-minute"@) ==> reports_counts(
            e,
            limits.requests_limit_per_minute,
            limits.requests_remaining_per_minute,
        )
        &&& e.limit_id == limit_id_for(provider, model, "tokens-minute"@) ==> reports_counts(
            e,
            limits.tokens_limit_per_minute,
            limits.tokens_remaining_per_minute,
        )
        &&& e.limit_id == limit_id_for(provider, model, "requests-second"@) ==> reports_counts(
            e,
            limits.requests_limit_per_second,
            limits.requests_remaining_per_second,
        )
        &&& e.limit_id == limit_id_for(provider, model, "tokens-second"@) ==> reports_counts(
            e,
            limits.tokens_limit_per_second,
            limits.tokens_remaining_per_second,
        )
    } by {
        let j = choose|j: int|
            0 <= j < dims.len() && dimension_entry(provider, model, #[trigger] dims[j]) == Some(entries[k]);
        let d = dims[j];
        let e = entries[k];
        let l = d.limit->0;
        assert(e.limit_id == prefix + d.id@);
        assert(e.windows == dimension_windows(d, l));
        lemma_windows_report(d, l, e);
        let names = seq![
            "requests-minute"@,
            "tokens-minute"@,
            "requests-second"@,
            "tokens-second"@,
        ];
        assert forall|n: int| 0 <= n < 4 && e.limit_id == #[trigger] limit_id_for(provider, model, names[n])
            implies j == n by {
            lemma_suffix_cancel(prefix, d.id@, names[n]);
            assert(d.id@ == names[n]);
            assert(dims[0].id@ == "requests-minute"@);
            assert(dims[1].id@ == "tokens-minute"@);
            assert(dims[2].id@ == "requests-second"@);
            assert(dims[3].id@ == "tokens-second"@);
            assert(dims[4].id@ == "prompt-second"@);
            assert(dims[5].id@ == "cache-adjusted-prompt-second"@);
            assert(dims[6].id@ == "generated-second"@);
            assert(names[0] == "requests-minute"@);
            assert(names[1] == "tokens-minute"@);
            assert(names[2] == "requests-second"@);
            assert(names[3] == "tokens-second"@);
            if j != n {
                assert(names[n][0] != dims[j].id@[0] || names[n][9] != dims[j].id@[9] || names[n].len()
                    != dims[j].id@.len());
            }
        }
        assert(e.limit_id == limit_id_for(provider, model, "requests-minute"@) ==> j == 0) by {
            assert(names[0] == "requests-minute"@);
        }
        assert(e.limit_id == limit_id_for(provider, model, "tokens-minute"@) ==> j == 1) by {
            assert(names[1] == "tokens-minute"@);
        }
        assert(e.limit_id == limit_id_for(provider, model, "requests-second"@) ==> j == 2) by {
            assert(names[2] == "requests-second"@);
        }
        assert(e.limit_id == limit_id_for(provider, model, "tokens-second"@) ==> j == 3) by {
            assert(names[3] == "tokens-second"@);
        }
    }
}

} // verus!
