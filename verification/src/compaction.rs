//! Context admission and automatic compaction decisions.
//!
//! Before a prompt is sent, its size is estimated (with a safety margin) and
//! compared with the smaller of the configured compaction threshold and the
//! provider's admission budget (context window minus an output reserve and a
//! safety margin). Crossing it triggers compaction; a provider rejection for
//! context length forces it.

use vstd::prelude::*;

use crate::decimal::{decimal, push_decimal};

verus! {

pub const DEFAULT_OUTPUT_RESERVE_TOKENS: usize = 16_384;
pub const ADMISSION_SAFETY_MARGIN_TOKENS: usize = 1_024;
pub const COMPACTION_SUMMARY_MAX_TOKENS: u32 = 4_096;
pub const PROMPT_ESTIMATE_SAFETY_PERCENT: usize = 20;

/// `x` clamped to the largest `usize`, as saturating arithmetic does.
pub open spec fn saturate(x: int) -> int {
    if x > usize::MAX {
        usize::MAX as int
    } else {
        x
    }
}

/// `a / b` rounded up, for `b > 0`.
pub open spec fn div_ceil(a: int, b: int) -> int {
    (a + b - 1) / b
}

/// The raw token estimate plus a 20% safety margin (rounded up), saturating.
pub open spec fn guarded_tokens(raw: int) -> int {
    saturate(raw + div_ceil(saturate(raw * 20), 100))
}

/// The prompt budget a context window of `context_size` tokens admits, or
/// `None` for an unknown (zero) window.
pub open spec fn admission_budget(context_size: int) -> Option<int> {
    if context_size == 0 {
        None
    } else {
        let reserve = if 16_384 >= context_size / 10 {
            16_384
        } else {
            context_size / 10
        };
        let after_reserve = if context_size >= reserve {
            context_size - reserve
        } else {
            0
        };
        let after_margin = if after_reserve >= 1_024 {
            after_reserve - 1_024
        } else {
            0
        };
        Some(
            if after_margin >= 1 {
                after_margin
            } else {
                1
            },
        )
    }
}

/// The smaller of two optional budgets.
pub open spec fn min_budget(a: Option<int>, b: Option<int>) -> Option<int> {
    match (a, b) {
        (Some(x), Some(y)) => Some(
            if x <= y {
                x
            } else {
                y
            },
        ),
        (Some(x), None) => Some(x),
        (None, Some(y)) => Some(y),
        (None, None) => None,
    }
}

pub open spec fn opt_usize(o: Option<usize>) -> Option<int> {
    match o {
        Some(x) => Some(x as int),
        None => None,
    }
}

fn div_ceil_usize(a: usize, b: usize) -> (r: usize)
    requires
        b > 0,
    ensures
        r == div_ceil(a as int, b as int),
{
    let q = a / b;
    let rem = a % b;
    proof {
        let ai = a as int;
        let bi = b as int;
        assert(ai == bi * (q as int) + (rem as int) && 0 <= rem < bi) by (nonlinear_arith)
            requires
                bi > 0,
                q as int == ai / bi,
                rem as int == ai % bi,
        ;
        if rem == 0 {
            assert((ai + bi - 1) / bi == q as int) by (nonlinear_arith)
                requires
                    bi > 0,
                    ai == bi * (q as int),
            ;
        } else {
            assert((ai + bi - 1) / bi == q as int + 1) by (nonlinear_arith)
                requires
                    bi > 0,
                    ai == bi * (q as int) + (rem as int),
                    0 < rem < bi,
            ;
            assert((q as int) < ai) by (nonlinear_arith)
                requires
                    bi > 0,
                    ai == bi * (q as int) + (rem as int),
                    0 < rem < bi,
                    q >= 0,
            ;
        }
    }
    if rem == 0 {
        q
    } else {
        q + 1
    }
}

/// The prompt estimate with its safety margin.
pub fn guarded_prompt_tokens(raw_tokens: usize) -> (r: usize)
    ensures
        r == guarded_tokens(raw_tokens as int),
{
    let scaled = if raw_tokens > usize::MAX / PROMPT_ESTIMATE_SAFETY_PERCENT {
        usize::MAX
    } else {
        raw_tokens * PROMPT_ESTIMATE_SAFETY_PERCENT
    };
    let safety_tokens = div_ceil_usize(scaled, 100);
    raw_tokens.saturating_add(safety_tokens)
}

/// The admission budget for a provider whose effective context window is
/// `context_size` tokens; `None` when the window is unknown (zero).
pub fn admission_prompt_budget(context_size: usize) -> (r: Option<usize>)
    ensures
        opt_usize(r) == admission_budget(context_size as int),
{
    if context_size == 0 {
        return None;
    }
    let tenth = context_size / 10;
    let output_reserve = if DEFAULT_OUTPUT_RESERVE_TOKENS >= tenth {
        DEFAULT_OUTPUT_RESERVE_TOKENS
    } else {
        tenth
    };
    let budget = context_size.saturating_sub(output_reserve).saturating_sub(ADMISSION_SAFETY_MARGIN_TOKENS);
    Some(
        if budget >= 1 {
            budget
        } else {
            1
        },
    )
}

/// Token count of one prompt message and whether it is a system message.
#[derive(Clone, Copy, Debug)]
pub struct MessageTokens {
    pub is_system: bool,
    pub tokens: usize,
}

/// The parts of a prompt estimate.
#[derive(Clone, Copy, Debug, PartialEq, Eq)]
pub struct PromptTokenEstimate {
    pub conversation_tokens: usize,
    pub system_tokens: usize,
    pub tool_definition_tokens: usize,
    pub raw_total_tokens: usize,
    pub guarded_total_tokens: usize,
}

/// Saturating sum of the system (`system == true`) or non-system messages.
pub open spec fn role_tokens(messages: Seq<MessageTokens>, system: bool) -> int
    decreases messages.len(),
{
    if messages.len() == 0 {
        0
    } else {
        let earlier = role_tokens(messages.drop_last(), system);
        if messages.last().is_system == system {
            saturate(earlier + messages.last().tokens)
        } else {
            earlier
        }
    }
}

/// The plain sum of the tokens of `messages`.
pub open spec fn token_sum(messages: Seq<MessageTokens>) -> int
    decreases messages.len(),
{
    if messages.len() == 0 {
        0
    } else {
        token_sum(messages.drop_last()) + messages.last().tokens
    }
}

/// Whether a message is a system message.
pub open spec fn system_message() -> spec_fn(MessageTokens) -> bool {
    |m: MessageTokens| m.is_system
}

/// Whether a message is a conversation message.
pub open spec fn conversation_message() -> spec_fn(MessageTokens) -> bool {
    |m: MessageTokens| !m.is_system
}

proof fn lemma_filter_step(messages: Seq<MessageTokens>, pred: spec_fn(MessageTokens) -> bool)
    requires
        messages.len() > 0,
    ensures
        messages.filter(pred) == (if pred(messages.last()) {
            messages.drop_last().filter(pred).push(messages.last())
        } else {
            messages.drop_last().filter(pred)
        }),
{
    reveal(Seq::filter);
}

proof fn lemma_token_sum_nonneg(messages: Seq<MessageTokens>)
    ensures
        token_sum(messages) >= 0,
    decreases messages.len(),
{
    if messages.len() > 0 {
        lemma_token_sum_nonneg(messages.drop_last());
    }
}

proof fn lemma_role_sums(messages: Seq<MessageTokens>)
    requires
        token_sum(messages) <= usize::MAX,
    ensures
        role_tokens(messages, true) == token_sum(messages.filter(system_message())),
        role_tokens(messages, false) == token_sum(messages.filter(conversation_message())),
        role_tokens(messages, true) + role_tokens(messages, false) == token_sum(messages),
    decreases messages.len(),
{
    let sys = system_message();
    let conv = conversation_message();
    if messages.len() == 0 {
        reveal(Seq::filter);
        assert(messages.filter(sys).len() == 0);
        assert(messages.filter(conv).len() == 0);
    } else {
        let init = messages.drop_last();
        let last = messages.last();
        assert(token_sum(messages) == token_sum(init) + last.tokens);
        lemma_role_sums(init);
        lemma_token_sum_nonneg(init.filter(sys));
        lemma_token_sum_nonneg(init.filter(conv));
        lemma_filter_step(messages, sys);
        lemma_filter_step(messages, conv);
        if last.is_system {
            assert(sys(last));
            assert(!conv(last));
            let f = init.filter(sys).push(last);
            assert(f.drop_last() =~= init.filter(sys));
            assert(f.last() == last);
            assert(token_sum(f) == token_sum(init.filter(sys)) + last.tokens);
            assert(role_tokens(messages, true) == saturate(role_tokens(init, true) + last.tokens));
            assert(role_tokens(messages, false) == role_tokens(init, false));
        } else {
            assert(!sys(last));
            assert(conv(last));
            let f = init.filter(conv).push(last);
            assert(f.drop_last() =~= init.filter(conv));
            assert(f.last() == last);
            assert(token_sum(f) == token_sum(init.filter(conv)) + last.tokens);
            assert(role_tokens(messages, false) == saturate(role_tokens(init, false) + last.tokens));
            assert(role_tokens(messages, true) == role_tokens(init, true));
        }
    }
}

/// Every message's tokens are counted once, in the total of its own role:
/// when the sum does not saturate, the system total is the sum over the
/// system messages, the conversation total the sum over all the others, and
/// together they are the sum over every message.
pub proof fn law_every_message_counted_once(messages: Seq<MessageTokens>)
    requires
        token_sum(messages) <= usize::MAX,
    ensures
        role_tokens(messages, true) == token_sum(messages.filter(system_message())),
        role_tokens(messages, false) == token_sum(messages.filter(conversation_message())),
        role_tokens(messages, true) + role_tokens(messages, false) == token_sum(messages),
{
    lemma_role_sums(messages);
}

/// Token estimate for serialized tool definitions of `encoded_len` bytes
/// (four bytes per token, rounded up); zero when they could not be encoded.
pub fn estimated_tool_tokens(encoded_len: Option<usize>) -> (r: usize)
    ensures
        r == match encoded_len {
            Some(n) => div_ceil(n as int, 4),
            None => 0,
        },
{
    match encoded_len {
        Some(n) => div_ceil_usize(n, 4),
        None => 0,
    }
}

/// Splits the estimate between system and conversation messages, adds the
/// tool definitions, and applies the safety margin; all sums saturate.
pub fn estimated_prompt_tokens(messages: &Vec<MessageTokens>, tool_definition_tokens: usize) -> (e: PromptTokenEstimate)
    ensures
        e.system_tokens == role_tokens(messages@, true),
        e.conversation_tokens == role_tokens(messages@, false),
        e.tool_definition_tokens == tool_definition_tokens,
        e.raw_total_tokens == saturate(
            saturate(role_tokens(messages@, true) + role_tokens(messages@, false)) + tool_definition_tokens,
        ),
        e.guarded_total_tokens == guarded_tokens(e.raw_total_tokens as int),
        token_sum(messages@) <= usize::MAX ==> e.system_tokens == token_sum(messages@.filter(system_message()))
            && e.system_tokens + e.conversation_tokens == token_sum(messages@),
{
    proof {
        if token_sum(messages@) <= usize::MAX {
            lemma_role_sums(messages@);
        }
    }
    let mut system_tokens: usize = 0;
    let mut conversation_tokens: usize = 0;
    let mut i: usize = 0;
    while i < messages.len()
        invariant
            i <= messages.len(),
            system_tokens == role_tokens(messages@.take(i as int), true),
            conversation_tokens == role_tokens(messages@.take(i as int), false),
        decreases messages.len() - i,
    {
        proof {
            assert(messages@.take(i + 1).drop_last() =~= messages@.take(i as int));
            assert(messages@.take(i + 1).last() == messages@[i as int]);
        }
        if messages[i].is_system {
            system_tokens = system_tokens.saturating_add(messages[i].tokens);
        } else {
            conversation_tokens = conversation_tokens.saturating_add(messages[i].tokens);
        }
        i += 1;
    }
    proof {
        assert(messages@.take(i as int) =~= messages@);
    }
    let raw_total_tokens = system_tokens.saturating_add(conversation_tokens).saturating_add(tool_definition_tokens);
    PromptTokenEstimate {
        conversation_tokens,
        system_tokens,
        tool_definition_tokens,
        raw_total_tokens,
        guarded_total_tokens: guarded_prompt_tokens(raw_total_tokens),
    }
}

fn min_option(a: Option<usize>, b: Option<usize>) -> (r: Option<usize>)
    ensures
        opt_usize(r) == min_budget(opt_usize(a), opt_usize(b)),
{
    match (a, b) {
        (Some(x), Some(y)) => Some(
            if x <= y {
                x
            } else {
                y
            },
        ),
        (Some(x), None) => Some(x),
        (None, Some(y)) => Some(y),
        (None, None) => None,
    }
}

/// Whether a prompt of `prompt_tokens` (raw) must be compacted: its guarded
/// estimate reaches the smaller of the configured threshold and the
/// admission budget of a `context_size` window.
pub fn should_compact(configured_threshold: Option<usize>, context_size: usize, prompt_tokens: usize) -> (r: bool)
    ensures
        r == match min_budget(opt_usize(configured_threshold), admission_budget(context_size as int)) {
            Some(budget) => guarded_tokens(prompt_tokens as int) >= budget,
            None => false,
        },
{
    let budget = min_option(configured_threshold, admission_prompt_budget(context_size));
    match budget {
        Some(b) => guarded_prompt_tokens(prompt_tokens) >= b,
        None => false,
    }
}

/// Why compaction is being considered.
#[derive(Clone, Copy, Debug, PartialEq, Eq, Structural)]
pub enum AcpCompactionCause {
    /// The prompt estimate crossed a budget before sending.
    PreflightEstimate,
    /// The provider rejected the prompt for its length.
    ProviderContextRejection,
}

/// How to run a compaction that must happen.
#[derive(Clone, Copy, Debug, PartialEq, Eq)]
pub struct CompactionPlan {
    /// Compact even if the compaction engine's own heuristics would not.
    pub force: bool,
    /// Clear any earlier suppression of automatic compaction.
    pub reset_suppression: bool,
}

/// Whether to compact a prompt whose guarded estimate is `prompt_tokens`,
/// and how: nothing is compacted when no configuration is loaded
/// (`config_loaded` false), whatever the cause; a provider rejection always
/// compacts, with force; otherwise
/// compaction runs once the estimate reaches the smaller budget, and is
/// forced when only the admission budget (not the configured threshold) is
/// crossed.
pub fn plan_compaction(
    config_loaded: bool,
    cause: AcpCompactionCause,
    prompt_tokens: usize,
    configured_threshold: Option<usize>,
    admission_budget: Option<usize>,
) -> (plan: Option<CompactionPlan>)
    ensures
        ({
            let rejection = cause == AcpCompactionCause::ProviderContextRejection;
            let trigger = min_budget(opt_usize(configured_threshold), opt_usize(admission_budget));
            let due = rejection || (trigger matches Some(b) && prompt_tokens >= b);
            let over_admission = admission_budget matches Some(b) && prompt_tokens >= b;
            let under_threshold = configured_threshold matches Some(t) ==> prompt_tokens < t;
            &&& plan is Some <==> (config_loaded && due)
            &&& plan matches Some(p) ==> p.force == (rejection || (over_admission && under_threshold))
                && p.reset_suppression == rejection
        }),
{
    if !config_loaded {
        return None;
    }
    let rejection = match cause {
        AcpCompactionCause::ProviderContextRejection => true,
        AcpCompactionCause::PreflightEstimate => false,
    };
    let trigger = min_option(configured_threshold, admission_budget);
    let due = match trigger {
        Some(b) => prompt_tokens >= b,
        None => false,
    };
    if !rejection && !due {
        return None;
    }
    let over_admission = match admission_budget {
        Some(b) => prompt_tokens >= b,
        None => false,
    };
    let under_threshold = match configured_threshold {
        Some(t) => prompt_tokens < t,
        None => true,
    };
    Some(CompactionPlan { force: rejection || (over_admission && under_threshold), reset_suppression: rejection })
}

/// Why a compaction attempt failed to make the prompt admissible.
#[derive(Clone, Copy, Debug, PartialEq, Eq, Structural)]
pub enum CompactionFailure {
    /// Compaction made no change while the prompt exceeds its budget.
    NoChange { prompt_tokens: usize },
    /// Compaction ran but the prompt still exceeds its budget.
    StillOverBudget { prompt_tokens: usize, compacted_prompt_tokens: usize },
}

/// The message of a compaction failure.
pub open spec fn failure_text(f: CompactionFailure) -> Seq<char> {
    match f {
        CompactionFailure::NoChange { prompt_tokens } => "ACP prompt uses an estimated "@ + decimal(
            prompt_tokens as nat,
        )
            + " tokens, exceeds its safe provider admission budget, and automatic compaction made no change"@,
        CompactionFailure::StillOverBudget { prompt_tokens, compacted_prompt_tokens } =>
            "ACP compaction reduced the prompt from an estimated "@ + decimal(prompt_tokens as nat) + " to "@
                + decimal(compacted_prompt_tokens as nat)
                + " tokens, which still exceeds its safe provider admission budget"@,
    }
}

impl CompactionFailure {
    /// The failure's message.
    pub fn message(&self) -> (s: String)
        ensures
            s@ == failure_text(*self),
    {
        match self {
            CompactionFailure::NoChange { prompt_tokens } => {
                let mut s = String::from_str("ACP prompt uses an estimated ");
                push_decimal(&mut s, *prompt_tokens as u64);
                s.append(
                    " tokens, exceeds its safe provider admission budget, and automatic compaction made no change",
                );
                s
            },
            CompactionFailure::StillOverBudget { prompt_tokens, compacted_prompt_tokens } => {
                let mut s = String::from_str("ACP compaction reduced the prompt from an estimated ");
                push_decimal(&mut s, *prompt_tokens as u64);
                s.append(" to ");
                push_decimal(&mut s, *compacted_prompt_tokens as u64);
                s.append(" tokens, which still exceeds its safe provider admission budget");
                s
            },
        }
    }
}

/// The result when compaction changed nothing: an error if the prompt was
/// rejected by the provider or exceeds the admission budget, otherwise
/// "not compacted".
pub fn unchanged_compaction_outcome(
    cause: AcpCompactionCause,
    prompt_tokens: usize,
    admission_budget: Option<usize>,
) -> (r: Result<bool, CompactionFailure>)
    ensures
        r == if cause == AcpCompactionCause::ProviderContextRejection || (admission_budget matches Some(b)
            && prompt_tokens >= b) {
            Err::<bool, CompactionFailure>(CompactionFailure::NoChange { prompt_tokens })
        } else {
            Ok::<bool, CompactionFailure>(false)
        },
{
    let over = match admission_budget {
        Some(b) => prompt_tokens >= b,
        None => false,
    };
    match cause {
        AcpCompactionCause::ProviderContextRejection => Err(CompactionFailure::NoChange { prompt_tokens }),
        AcpCompactionCause::PreflightEstimate => if over {
            Err(CompactionFailure::NoChange { prompt_tokens })
        } else {
            Ok(false)
        },
    }
}

/// The result after compaction: an error if the compacted prompt still
/// reaches the admission budget, otherwise "compacted".
pub fn compacted_outcome(prompt_tokens: usize, compacted_prompt_tokens: usize, admission_budget: Option<usize>) -> (r: Result<bool, CompactionFailure>)
    ensures
        r == if admission_budget matches Some(b) && compacted_prompt_tokens >= b {
            Err::<bool, CompactionFailure>(CompactionFailure::StillOverBudget { prompt_tokens, compacted_prompt_tokens })
        } else {
            Ok::<bool, CompactionFailure>(true)
        },
{
    match admission_budget {
        Some(b) => if compacted_prompt_tokens >= b {
            Err(CompactionFailure::StillOverBudget { prompt_tokens, compacted_prompt_tokens })
        } else {
            Ok(true)
        },
        None => Ok(true),
    }
}

/// Where a compaction strategy summarises the conversation.
#[derive(Clone, Copy, Debug, PartialEq, Eq, Structural)]
pub enum CompactionStrategy {
    Local,
    NativeStandalone,
    NativeInline,
}

/// The compaction mode reported to lifecycle hooks.
#[derive(Clone, Copy, Debug, PartialEq, Eq, Structural)]
pub enum CompactionMode {
    Local,
    Provider,
}

/// Local strategies report as local, provider-native ones as provider.
pub fn lifecycle_compaction_mode(strategy: CompactionStrategy) -> (m: CompactionMode)
    ensures
        m == (if strategy == CompactionStrategy::Local {
            CompactionMode::Local
        } else {
            CompactionMode::Provider
        }),
{
    match strategy {
        CompactionStrategy::Local => CompactionMode::Local,
        CompactionStrategy::NativeStandalone | CompactionStrategy::NativeInline => CompactionMode::Provider,
    }
}

/// The guarded estimate never understates the raw estimate and grows with it.
pub proof fn law_guarded_estimate_is_monotonic_and_never_smaller(lower: usize, upper: usize)
    requires
        lower <= upper,
    ensures
        guarded_tokens(lower as int) >= lower,
        guarded_tokens(upper as int) >= guarded_tokens(lower as int),
{
    assert(div_ceil(saturate(lower * 20), 100) <= div_ceil(saturate(upper * 20), 100)) by (nonlinear_arith)
        requires
            saturate(lower * 20) <= saturate(upper * 20),
            saturate(lower * 20) >= 0,
    {
    }
    assert(div_ceil(saturate(lower * 20), 100) >= 0);
}

/// A known context window admits at least one token and never more than
/// the window itself.
pub proof fn law_admission_budget_within_context(context_size: usize)
    requires
        context_size >= 1,
    ensures
        admission_budget(context_size as int) matches Some(b) && 1 <= b <= context_size,
{
}

} // verus!
