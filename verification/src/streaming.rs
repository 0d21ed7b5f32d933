//! Decisions taken while a provider generates a turn: which deadline is next
//! while a response streams, whether streaming is allowed at all, how output
//! is counted, and what a turn that the provider could not finish becomes.
//!
//! Instants are milliseconds on one monotonic clock and durations are
//! milliseconds; the caller reads the clock.

use vstd::prelude::*;

use crate::ansi::{strip_escapes, strip_terminal_escapes};
use crate::text::{trim, trimmed};

verus! {

/// Optional deadlines for one provider request, in milliseconds.
#[derive(Clone, Copy, Debug, PartialEq, Eq, Structural)]
pub struct ProviderDeadlinePolicy {
    pub connect: Option<u64>,
    pub first_token: Option<u64>,
    pub stream_idle: Option<u64>,
    pub total_generation: Option<u64>,
}

/// The deadlines a streaming response can miss.
#[derive(Clone, Copy, Debug, PartialEq, Eq, Structural)]
pub enum StreamTimeoutPhase {
    FirstToken,
    InterTokenIdle,
    TotalGeneration,
}

pub open spec fn phase_label(phase: StreamTimeoutPhase) -> Seq<char> {
    match phase {
        StreamTimeoutPhase::FirstToken => "time to first token"@,
        StreamTimeoutPhase::InterTokenIdle => "inter-token idle"@,
        StreamTimeoutPhase::TotalGeneration => "total generation"@,
    }
}

pub open spec fn phase_timeout(phase: StreamTimeoutPhase, policy: ProviderDeadlinePolicy) -> Option<
    u64,
> {
    match phase {
        StreamTimeoutPhase::FirstToken => policy.first_token,
        StreamTimeoutPhase::InterTokenIdle => policy.stream_idle,
        StreamTimeoutPhase::TotalGeneration => policy.total_generation,
    }
}

impl StreamTimeoutPhase {
    /// How the phase is named in a timeout message.
    pub fn label(self) -> (s: &'static str)
        ensures
            s@ == phase_label(self),
    {
        match self {
            StreamTimeoutPhase::FirstToken => "time to first token",
            StreamTimeoutPhase::InterTokenIdle => "inter-token idle",
            StreamTimeoutPhase::TotalGeneration => "total generation",
        }
    }

    /// The timeout `policy` sets for the phase.
    pub fn timeout(self, policy: ProviderDeadlinePolicy) -> (t: Option<u64>)
        ensures
            t == phase_timeout(self, policy),
    {
        match self {
            StreamTimeoutPhase::FirstToken => policy.first_token,
            StreamTimeoutPhase::InterTokenIdle => policy.stream_idle,
            StreamTimeoutPhase::TotalGeneration => policy.total_generation,
        }
    }
}

/// The instant `timeout` after `started_at`, when there is a timeout.
pub open spec fn deadline_after(started_at: u64, timeout: Option<u64>) -> Option<u64> {
    match timeout {
        Some(t) => Some((started_at + t) as u64),
        None => None,
    }
}

/// Whether `started_at + timeout` is an instant of the clock.
pub open spec fn fits(started_at: u64, timeout: Option<u64>) -> bool {
    match timeout {
        Some(t) => started_at + t <= u64::MAX,
        None => true,
    }
}

/// The instant `timeout` after `started_at`, when there is a timeout.
pub fn deadline_from(started_at: u64, timeout: Option<u64>) -> (d: Option<u64>)
    requires
        fits(started_at, timeout),
    ensures
        d == deadline_after(started_at, timeout),
{
    match timeout {
        Some(t) => Some(started_at + t),
        None => None,
    }
}

/// The earliest of the present deadlines, with its phase; on a tie the
/// first of first token, inter-token idle and total generation.
pub open spec fn earliest_deadline(
    first_token: Option<u64>,
    idle: Option<u64>,
    total: Option<u64>,
) -> Option<(StreamTimeoutPhase, u64)> {
    let after_first: Option<(StreamTimeoutPhase, u64)> = match first_token {
        Some(d) => Some((StreamTimeoutPhase::FirstToken, d)),
        None => None,
    };
    let after_idle: Option<(StreamTimeoutPhase, u64)> = match idle {
        Some(d) => match after_first {
            Some(best) => if d < best.1 {
                Some((StreamTimeoutPhase::InterTokenIdle, d))
            } else {
                after_first
            },
            None => Some((StreamTimeoutPhase::InterTokenIdle, d)),
        },
        None => after_first,
    };
    match total {
        Some(d) => match after_idle {
            Some(best) => if d < best.1 {
                Some((StreamTimeoutPhase::TotalGeneration, d))
            } else {
                after_idle
            },
            None => Some((StreamTimeoutPhase::TotalGeneration, d)),
        },
        None => after_idle,
    }
}

/// The deadlines of one streaming response.
#[derive(Clone, Copy, Debug)]
pub struct StreamDeadlineTracker {
    pub policy: ProviderDeadlinePolicy,
    pub first_token: Option<u64>,
    pub idle: Option<u64>,
    pub total: Option<u64>,
}

impl StreamDeadlineTracker {
    /// The deadlines of a response that started at `started_at`: the first
    /// token and total generation deadlines run, no idle deadline yet.
    pub fn new(policy: ProviderDeadlinePolicy, started_at: u64) -> (t: StreamDeadlineTracker)
        requires
            fits(started_at, policy.first_token),
            fits(started_at, policy.total_generation),
        ensures
            t.policy == policy,
            t.first_token == deadline_after(started_at, policy.first_token),
            t.idle is None,
            t.total == deadline_after(started_at, policy.total_generation),
    {
        StreamDeadlineTracker {
            policy,
            first_token: deadline_from(started_at, policy.first_token),
            idle: None,
            total: deadline_from(started_at, policy.total_generation),
        }
    }

    /// Records output at `observed_at`: the first token deadline is over,
    /// the idle deadline restarts, the total generation deadline stays.
    pub fn observe_output_at(&mut self, observed_at: u64)
        requires
            fits(observed_at, old(self).policy.stream_idle),
        ensures
            final(self).policy == old(self).policy,
            final(self).first_token is None,
            final(self).idle == deadline_after(observed_at, old(self).policy.stream_idle),
            final(self).total == old(self).total,
    {
        self.first_token = None;
        self.idle = deadline_from(observed_at, self.policy.stream_idle);
    }

    /// The deadline to wait for next, if any.
    pub fn next(&self) -> (r: Option<(StreamTimeoutPhase, u64)>)
        ensures
            r == earliest_deadline(self.first_token, self.idle, self.total),
    {
        let mut best: Option<(StreamTimeoutPhase, u64)> = match self.first_token {
            Some(d) => Some((StreamTimeoutPhase::FirstToken, d)),
            None => None,
        };
        if let Some(d) = self.idle {
            best = match best {
                Some(b) => if d < b.1 {
                    Some((StreamTimeoutPhase::InterTokenIdle, d))
                } else {
                    Some(b)
                },
                None => Some((StreamTimeoutPhase::InterTokenIdle, d)),
            };
        }
        if let Some(d) = self.total {
            best = match best {
                Some(b) => if d < b.1 {
                    Some((StreamTimeoutPhase::TotalGeneration, d))
                } else {
                    Some(b)
                },
                None => Some((StreamTimeoutPhase::TotalGeneration, d)),
            };
        }
        best
    }
}

/// The deadline chosen next is present and no later than any other present
/// deadline; there is none only when no deadline is present.
pub proof fn law_next_deadline_is_earliest(
    first_token: Option<u64>,
    idle: Option<u64>,
    total: Option<u64>,
)
    ensures
        earliest_deadline(first_token, idle, total) is None <==> (first_token is None && idle is None
            && total is None),
        earliest_deadline(first_token, idle, total) matches Some(next) ==> {
            &&& (first_token matches Some(d) ==> next.1 <= d)
            &&& (idle matches Some(d) ==> next.1 <= d)
            &&& (total matches Some(d) ==> next.1 <= d)
            &&& match next.0 {
                StreamTimeoutPhase::FirstToken => first_token == Some(next.1),
                StreamTimeoutPhase::InterTokenIdle => idle == Some(next.1),
                StreamTimeoutPhase::TotalGeneration => total == Some(next.1),
            }
        },
{
}

/// Observing output never moves the total generation deadline, and after it
/// the first token deadline can no longer be the next one.
pub proof fn law_observing_output_keeps_total_deadline(
    before: StreamDeadlineTracker,
    after: StreamDeadlineTracker,
    observed_at: u64,
)
    requires
        after.policy == before.policy,
        after.first_token is None,
        after.idle == deadline_after(observed_at, before.policy.stream_idle),
        after.total == before.total,
    ensures
        after.total == before.total,
        earliest_deadline(after.first_token, after.idle, after.total) matches Some(next) ==> next.0
            != StreamTimeoutPhase::FirstToken,
{
}

/// Streaming is safe unless a Stop hook needs to inspect the complete draft.
pub fn should_allow_streaming(supports_streaming: bool, _tools_allowed: bool, has_stop_hooks: bool) -> (r:
    bool)
    ensures
        r == (supports_streaming && !has_stop_hooks),
{
    supports_streaming && !has_stop_hooks
}

/// A buffered draft needs one final chunk; streamed deltas are already
/// visible.
pub fn should_emit_buffered_final_chunk(allow_streaming: bool) -> (r: bool)
    ensures
        r == !allow_streaming,
{
    !allow_streaming
}

/// Milliseconds as a `u64`, saturating.
pub fn duration_millis(millis: u128) -> (r: u64)
    ensures
        r == if millis <= u64::MAX {
            millis as u64
        } else {
            u64::MAX
        },
{
    if millis <= u64::MAX as u128 {
        millis as u64
    } else {
        u64::MAX
    }
}

/// Milliseconds since the Unix epoch for the checkpoint metadata of a turn,
/// from the time elapsed since the epoch (`None` when the clock is before
/// it): zero when the clock is before the epoch or the count does not fit.
pub fn unix_timestamp_millis(elapsed_millis: Option<u128>) -> (r: u64)
    ensures
        r == match elapsed_millis {
            Some(m) => if m <= u64::MAX {
                m as u64
            } else {
                0
            },
            None => 0,
        },
{
    match elapsed_millis {
        Some(m) => if m <= u64::MAX as u128 {
            m as u64
        } else {
            0
        },
        None => 0,
    }
}

/// Milliseconds since the Unix epoch for an audit entry, from the time
/// elapsed since the epoch (`None` when the clock is before it): zero before
/// the epoch, saturated when the count does not fit.
pub fn timestamp_unix_ms(elapsed_millis: Option<u128>) -> (r: u64)
    ensures
        r == match elapsed_millis {
            Some(m) => if m <= u64::MAX {
                m as u64
            } else {
                u64::MAX
            },
            None => 0,
        },
{
    match elapsed_millis {
        Some(m) => duration_millis(m),
        None => 0,
    }
}

/// The output tokens estimated for `chars` characters: one per four
/// characters, rounded up.
pub open spec fn estimated_tokens(chars: nat) -> nat {
    if chars % 4 == 0 {
        chars / 4
    } else {
        chars / 4 + 1
    }
}

/// The output tokens estimated for a streamed delta.
pub fn estimated_delta_tokens(delta: &str) -> (r: u64)
    ensures
        r == if estimated_tokens(delta@.len()) <= u64::MAX {
            estimated_tokens(delta@.len())
        } else {
            u64::MAX as nat
        },
{
    let chars = delta.unicode_len();
    let quarter = chars / 4;
    let tokens: usize = if chars % 4 == 0 {
        quarter
    } else {
        quarter + 1
    };
    if tokens as u128 <= u64::MAX as u128 {
        tokens as u64
    } else {
        u64::MAX
    }
}

/// The running output estimate after a delta, saturating.
pub fn add_output_tokens(total: u64, delta_tokens: u64) -> (r: u64)
    ensures
        r == if total + delta_tokens <= u64::MAX {
            (total + delta_tokens) as u64
        } else {
            u64::MAX
        },
{
    total.saturating_add(delta_tokens)
}

/// Where an output token count comes from.
#[derive(Clone, Copy, Debug, PartialEq, Eq, Structural)]
pub enum TokenCountSource {
    Provider,
    Estimated,
}

impl TokenCountSource {
    pub fn as_str(self) -> (s: &'static str)
        ensures
            s@ == match self {
                TokenCountSource::Provider => "provider"@,
                TokenCountSource::Estimated => "estimated"@,
            },
    {
        match self {
            TokenCountSource::Provider => "provider",
            TokenCountSource::Estimated => "estimated",
        }
    }
}

/// The output tokens of a completed generation: the provider's completion
/// count when it reported a positive one, the estimate otherwise.
pub fn generation_output_tokens(completion_tokens: Option<u32>, estimated: u64) -> (r: (
    u64,
    TokenCountSource,
))
    ensures
        r == match completion_tokens {
            Some(c) => if c > 0 {
                (c as u64, TokenCountSource::Provider)
            } else {
                (estimated, TokenCountSource::Estimated)
            },
            None => (estimated, TokenCountSource::Estimated),
        },
{
    match completion_tokens {
        Some(c) => if c > 0 {
            (c as u64, TokenCountSource::Provider)
        } else {
            (estimated, TokenCountSource::Estimated)
        },
        None => (estimated, TokenCountSource::Estimated),
    }
}

/// Output tokens per second over `elapsed_ms` milliseconds (at least one).
pub fn tokens_per_second(output_tokens: u64, elapsed_ms: u64) -> (r: u64)
    ensures
        r == (if output_tokens * 1000 <= u64::MAX {
            output_tokens * 1000
        } else {
            u64::MAX as int
        }) / (if elapsed_ms == 0 {
            1
        } else {
            elapsed_ms as int
        }),
{
    let elapsed = if elapsed_ms == 0 {
        1
    } else {
        elapsed_ms
    };
    let scaled: u64 = if output_tokens <= u64::MAX / 1000 {
        output_tokens * 1000
    } else {
        u64::MAX
    };
    scaled / elapsed
}

/// The message of a provider timeout. `duration_text` is the timeout as a
/// duration is written, when there is one.
pub open spec fn timeout_message(
    provider: Seq<char>,
    phase: Seq<char>,
    duration_text: Option<Seq<char>>,
) -> Seq<char> {
    "provider '"@ + provider + "' exceeded its "@ + phase + " timeout ("@ + match duration_text {
        Some(d) => d,
        None => "configured deadline"@,
    } + seq![')']
}

/// The message of a provider timeout.
pub fn provider_timeout_message(provider: &str, phase: &str, duration_text: Option<&str>) -> (s:
    String)
    ensures
        s@ == timeout_message(
            provider@,
            phase@,
            match duration_text {
                Some(d) => Some(d@),
                None => None,
            },
        ),
{
    let mut s = String::from_str("provider '");
    s.append(provider);
    s.append("' exceeded its ");
    s.append(phase);
    s.append(" timeout (");
    match duration_text {
        Some(d) => s.append(d),
        None => s.append("configured deadline"),
    }
    s.append(")");
    proof {
        reveal_strlit(")");
        let d = match duration_text {
            Some(d) => d@,
            None => "configured deadline"@,
        };
        assert(s@ =~= "provider '"@ + provider@ + "' exceeded its "@ + phase@ + " timeout ("@ + d
            + seq![')']);
    }
    s
}

/// What a turn the provider could not finish leaves behind.
#[derive(Debug)]
pub struct IncompleteProviderTurn {
    /// The assistant message kept in the history: the partial output, then
    /// the notice.
    pub content: String,
    /// The partial reasoning, when there is any.
    pub reasoning: Option<String>,
    /// Why the response is incomplete, as recorded in its metadata.
    pub incomplete_reason: String,
    /// The text sent to the client after the output it already saw.
    pub visible_update: String,
    /// How the prompt turn ends: normally, so that it can be retried.
    pub stop_reason: StopReason,
}

/// The detail reported when the provider gave none.
pub const NO_ERROR_DETAIL: &'static str = "The provider did not report any additional details.";

/// The notice that opens every failure message.
pub const RETRY_NOTICE: &'static str =
    "The provider could not complete this turn. You can retry the prompt.\n\nProvider error: ";

/// The detail of a failure: the error text without terminal escape
/// sequences, trimmed, or a fixed sentence when nothing is left.
pub open spec fn error_detail(error: Seq<char>) -> Seq<char> {
    if trimmed(strip_escapes(error)).len() == 0 {
        NO_ERROR_DETAIL@
    } else {
        trimmed(strip_escapes(error))
    }
}

/// The text sent to the client after partial output `content`.
pub open spec fn visible_update_text(content: Seq<char>, error: Seq<char>) -> Seq<char> {
    let notice = RETRY_NOTICE@ + error_detail(error);
    if content.len() == 0 {
        notice
    } else {
        "\n\n"@ + notice
    }
}

impl IncompleteProviderTurn {
    /// The turn left by a provider failure after partial output `content`
    /// and partial reasoning `reasoning`. Terminal escape sequences are
    /// removed from the failure's text `error` before it is trimmed. The turn
    /// still ends normally, so the prompt can be retried.
    pub fn from_failure(content: &str, reasoning: &str, error: &str) -> (t: IncompleteProviderTurn)
        ensures
            t.visible_update@ == visible_update_text(content@, error@),
            t.content@ == content@ + visible_update_text(content@, error@),
            t.reasoning matches Some(r) ==> r@ == reasoning@,
            t.reasoning is None <==> reasoning@.len() == 0,
            t.incomplete_reason@ == trimmed(error_detail(error@)),
            t.stop_reason == StopReason::EndTurn,
    {
        let stripped = strip_terminal_escapes(error);
        let sanitized = trim(stripped.as_str());
        let detail: &str = if sanitized.unicode_len() == 0 {
            NO_ERROR_DETAIL
        } else {
            sanitized
        };
        let mut notice = String::from_str(RETRY_NOTICE);
        notice.append(detail);
        let visible_update = if content.unicode_len() == 0 {
            notice
        } else {
            let mut v = String::from_str("\n\n");
            v.append(notice.as_str());
            v
        };
        let mut message_content = String::from_str(content);
        message_content.append(visible_update.as_str());
        let reasoning_text = if reasoning.unicode_len() == 0 {
            None
        } else {
            Some(String::from_str(reasoning))
        };
        let reason = trim(detail);
        IncompleteProviderTurn {
            content: message_content,
            reasoning: reasoning_text,
            incomplete_reason: String::from_str(reason),
            visible_update,
            stop_reason: StopReason::EndTurn,
        }
    }
}

/// Why a provider finished a response.
#[derive(Clone, Copy, Debug, PartialEq, Eq, Structural)]
pub enum FinishReason {
    Stop,
    ToolCalls,
    Length,
    ContentFilter,
    Refusal,
    Error,
    Pause,
}

/// Why a prompt turn ended, as the client protocol says it.
#[derive(Clone, Copy, Debug, PartialEq, Eq, Structural)]
pub enum StopReason {
    EndTurn,
    MaxTokens,
    Refusal,
}

pub open spec fn stop_reason_for(finish: FinishReason) -> StopReason {
    match finish {
        FinishReason::Stop | FinishReason::ToolCalls | FinishReason::Pause => StopReason::EndTurn,
        FinishReason::Length => StopReason::MaxTokens,
        FinishReason::ContentFilter | FinishReason::Refusal | FinishReason::Error => StopReason::Refusal,
    }
}

/// The stop reason of a turn whose last response finished for `finish`: a
/// length limit stops at the token limit, filtering, refusal and errors are
/// refusals, anything else ends the turn normally.
pub fn stop_reason_from_finish(finish: FinishReason) -> (r: StopReason)
    ensures
        r == stop_reason_for(finish),
{
    match finish {
        FinishReason::Stop | FinishReason::ToolCalls | FinishReason::Pause => StopReason::EndTurn,
        FinishReason::Length => StopReason::MaxTokens,
        FinishReason::ContentFilter | FinishReason::Refusal | FinishReason::Error => StopReason::Refusal,
    }
}

} // verus!
