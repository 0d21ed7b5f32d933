//! The decisions of a prompt turn whose response streams: what each stream
//! event does to the draft, when a failed attempt is retried, when the turn
//! runs the requested tools, and how the turn ends.
//!
//! The caller talks to the provider and the client; it hands each event to
//! [`StreamTurn`] and carries out the step it gets back.

use vstd::prelude::*;

use crate::streaming::{stop_reason_for, stop_reason_from_finish, FinishReason, StopReason};
use crate::telemetry::RetryDisposition;

verus! {

/// The state of a streaming turn between events.
#[derive(Debug)]
pub struct StreamTurn {
    attempt_index: u32,
    emitted_output: bool,
    tool_loop_count: usize,
    message: String,
    reasoning: String,
    cancelled: bool,
}

/// The mathematical content of a [`StreamTurn`].
pub struct StreamTurnView {
    /// Which attempt of the current request is running, from zero.
    pub attempt_index: u32,
    /// Whether the current attempt already showed output to the client.
    pub emitted_output: bool,
    /// How many tool rounds the turn has run.
    pub tool_loop_count: usize,
    /// The assistant text drafted so far.
    pub message: Seq<char>,
    /// The reasoning drafted so far.
    pub reasoning: Seq<char>,
    /// Whether the client cancelled the turn.
    pub cancelled: bool,
}

impl View for StreamTurn {
    type V = StreamTurnView;

    closed spec fn view(&self) -> StreamTurnView {
        StreamTurnView {
            attempt_index: self.attempt_index,
            emitted_output: self.emitted_output,
            tool_loop_count: self.tool_loop_count,
            message: self.message@,
            reasoning: self.reasoning@,
            cancelled: self.cancelled,
        }
    }
}

/// Whether another provider request may start.
#[derive(Clone, Copy, Debug, PartialEq, Eq, Structural)]
pub enum NextRequest {
    /// The next request starts.
    Start,
    /// The turn was cancelled: no request starts and the turn ends as
    /// cancelled.
    Cancelled,
}

/// A request starts exactly when the turn is not cancelled.
pub open spec fn next_request(cancelled: bool) -> NextRequest {
    if cancelled {
        NextRequest::Cancelled
    } else {
        NextRequest::Start
    }
}

/// What follows a failed attempt.
#[derive(Clone, Copy, Debug, PartialEq, Eq, Structural)]
pub enum FailureStep {
    /// Wait for the retry delay, then start the next attempt.
    Retry,
    /// End the turn as incomplete, keeping the draft; the attempt's
    /// disposition is recorded with the failure.
    Finish(RetryDisposition),
}

/// What follows a failure: output the client already saw is never
/// replayed, so a failure after visible output ends the turn; before it, a
/// failure the retry policy retries is retried, any other ends the turn.
pub open spec fn failure_step(emitted_output: bool, retryable: bool, category_retryable: bool) -> FailureStep {
    if emitted_output {
        FailureStep::Finish(RetryDisposition::PartialOutputVisible)
    } else if retryable {
        FailureStep::Retry
    } else if category_retryable {
        FailureStep::Finish(RetryDisposition::RetryExhausted)
    } else {
        FailureStep::Finish(RetryDisposition::NonRetryable)
    }
}

/// What a completed response leads to.
#[derive(Clone, Copy, Debug, PartialEq, Eq, Structural)]
pub enum CompletionNext {
    /// Record the assistant's tool calls, run them, and start a new request.
    RunTools,
    /// The tool loop limit is reached: the draft becomes the limit message
    /// and the turn ends normally.
    LoopLimitReached,
    /// The turn ends for this reason.
    Stop(StopReason),
}

/// The step for a completed response.
#[derive(Debug)]
pub struct Completion {
    /// Text to show now, when the stream showed none and the response has some.
    pub message_chunk: Option<String>,
    /// Reasoning to show now, when the stream showed none and the response has some.
    pub thought_chunk: Option<String>,
    pub next: CompletionNext,
}

/// The next step after a completed response.
pub open spec fn completion_next(
    tools_allowed: bool,
    has_tool_calls: bool,
    loop_limit_reached: bool,
    finish: FinishReason,
) -> CompletionNext {
    if tools_allowed && has_tool_calls {
        if loop_limit_reached {
            CompletionNext::LoopLimitReached
        } else {
            CompletionNext::RunTools
        }
    } else {
        CompletionNext::Stop(stop_reason_for(finish))
    }
}

impl StreamTurn {
    /// A turn before its first attempt.
    pub fn new() -> (t: StreamTurn)
        ensures
            t@.attempt_index == 0,
            !t@.emitted_output,
            t@.tool_loop_count == 0,
            t@.message.len() == 0,
            t@.reasoning.len() == 0,
            !t@.cancelled,
    {
        StreamTurn {
            attempt_index: 0,
            emitted_output: false,
            tool_loop_count: 0,
            message: String::new(),
            reasoning: String::new(),
            cancelled: false,
        }
    }

    /// Whether the client cancelled the turn.
    pub fn is_cancelled(&self) -> (b: bool)
        ensures
            b == self@.cancelled,
    {
        self.cancelled
    }

    /// The client cancelled the turn, at any point: while a request runs or
    /// while a retry waits. The draft and counters stay.
    pub fn cancel(&mut self)
        ensures
            final(self)@ == (StreamTurnView { cancelled: true, ..old(self)@ }),
    {
        self.cancelled = true;
    }

    pub fn attempt_index(&self) -> (a: u32)
        ensures
            a == self@.attempt_index,
    {
        self.attempt_index
    }

    pub fn tool_loop_count(&self) -> (n: usize)
        ensures
            n == self@.tool_loop_count,
    {
        self.tool_loop_count
    }

    pub fn message(&self) -> (s: &str)
        ensures
            s@ == self@.message,
    {
        self.message.as_str()
    }

    pub fn reasoning(&self) -> (s: &str)
        ensures
            s@ == self@.reasoning,
    {
        self.reasoning.as_str()
    }

    /// Whether the current attempt already showed output.
    pub fn emitted_output(&self) -> (b: bool)
        ensures
            b == self@.emitted_output,
    {
        self.emitted_output
    }

    /// A text delta arrived: a non-empty one extends the draft, counts as
    /// visible output, and is shown (the result says whether to show it).
    pub fn on_token(&mut self, delta: &str) -> (show: bool)
        ensures
            show == (delta@.len() > 0),
            final(self)@.message == old(self)@.message + delta@,
            final(self)@.reasoning == old(self)@.reasoning,
            final(self)@.emitted_output == (old(self)@.emitted_output || delta@.len() > 0),
            final(self)@.attempt_index == old(self)@.attempt_index,
            final(self)@.tool_loop_count == old(self)@.tool_loop_count,
            final(self)@.cancelled == old(self)@.cancelled,
    {
        if delta.unicode_len() == 0 {
            assert(self.message@ + delta@ =~= self.message@);
            return false;
        }
        self.emitted_output = true;
        self.message.append(delta);
        true
    }

    /// A reasoning delta arrived, handled as a text delta is.
    pub fn on_reasoning(&mut self, delta: &str) -> (show: bool)
        ensures
            show == (delta@.len() > 0),
            final(self)@.reasoning == old(self)@.reasoning + delta@,
            final(self)@.message == old(self)@.message,
            final(self)@.emitted_output == (old(self)@.emitted_output || delta@.len() > 0),
            final(self)@.attempt_index == old(self)@.attempt_index,
            final(self)@.tool_loop_count == old(self)@.tool_loop_count,
            final(self)@.cancelled == old(self)@.cancelled,
    {
        if delta.unicode_len() == 0 {
            assert(self.reasoning@ + delta@ =~= self.reasoning@);
            return false;
        }
        self.emitted_output = true;
        self.reasoning.append(delta);
        true
    }

    /// The attempt failed before completing; `retryable` is the retry
    /// policy's decision for the failure and `category_retryable` whether its
    /// category is retryable at all. The state does not change.
    pub fn on_failure(&self, retryable: bool, category_retryable: bool) -> (step: FailureStep)
        ensures
            step == failure_step(self@.emitted_output, retryable, category_retryable),
    {
        if self.emitted_output {
            FailureStep::Finish(RetryDisposition::PartialOutputVisible)
        } else if retryable {
            FailureStep::Retry
        } else if category_retryable {
            FailureStep::Finish(RetryDisposition::RetryExhausted)
        } else {
            FailureStep::Finish(RetryDisposition::NonRetryable)
        }
    }

    /// The retry delay is over: the next attempt starts, unless the turn
    /// was cancelled meanwhile, which ends it with nothing changed.
    pub fn on_retry(&mut self) -> (next: NextRequest)
        ensures
            next == next_request(old(self)@.cancelled),
            old(self)@.cancelled ==> final(self)@ == old(self)@,
            !old(self)@.cancelled ==> final(self)@ == (StreamTurnView {
                attempt_index: if old(self)@.attempt_index < u32::MAX {
                    (old(self)@.attempt_index + 1) as u32
                } else {
                    u32::MAX
                },
                ..old(self)@
            }),
    {
        if self.cancelled {
            return NextRequest::Cancelled;
        }
        self.attempt_index = self.attempt_index.saturating_add(1);
        NextRequest::Start
    }

    /// The response completed with `content` and `reasoning`. Text and
    /// reasoning the stream did not show are shown now and join the draft;
    /// then the requested tools run, unless the loop limit is reached, or the
    /// turn stops for the finish reason. `limit_message` replaces the draft
    /// when the limit is reached.
    pub fn on_completed(
        &mut self,
        content: Option<String>,
        reasoning: Option<String>,
        tools_allowed: bool,
        has_tool_calls: bool,
        loop_limit_reached: bool,
        finish: FinishReason,
        limit_message: String,
    ) -> (c: Completion)
        ensures
            c.next == completion_next(tools_allowed, has_tool_calls, loop_limit_reached, finish),
            c.message_chunk is Some <==> (old(self)@.message.len() == 0 && content is Some
                && content->0@.len() > 0),
            c.message_chunk matches Some(t) ==> t@ == content->0@,
            c.thought_chunk is Some <==> (old(self)@.reasoning.len() == 0 && reasoning is Some
                && reasoning->0@.len() > 0),
            c.thought_chunk matches Some(r) ==> r@ == reasoning->0@,
            c.next == CompletionNext::LoopLimitReached ==> final(self)@.message == limit_message@,
            c.next != CompletionNext::LoopLimitReached ==> final(self)@.message == (if old(
                self,
            )@.message.len() == 0 && content is Some {
                content->0@
            } else {
                old(self)@.message
            }),
            final(self)@.reasoning == (if old(self)@.reasoning.len() == 0 && reasoning is Some
                && reasoning->0@.len() > 0 {
                reasoning->0@
            } else {
                old(self)@.reasoning
            }),
            final(self)@.tool_loop_count == if c.next == CompletionNext::RunTools {
                if old(self)@.tool_loop_count < usize::MAX {
                    (old(self)@.tool_loop_count + 1) as usize
                } else {
                    usize::MAX
                }
            } else {
                old(self)@.tool_loop_count
            },
            final(self)@.attempt_index == old(self)@.attempt_index,
            final(self)@.emitted_output == old(self)@.emitted_output,
            final(self)@.cancelled == old(self)@.cancelled,
    {
        let mut message_chunk: Option<String> = None;
        if self.message.unicode_len() == 0 {
            if let Some(text) = content {
                if text.unicode_len() > 0 {
                    message_chunk = Some(text.clone());
                }
                self.message = text;
            }
        }
        let mut thought_chunk: Option<String> = None;
        if self.reasoning.unicode_len() == 0 {
            if let Some(text) = reasoning {
                if text.unicode_len() > 0 {
                    thought_chunk = Some(text.clone());
                    self.reasoning = text;
                }
            }
        }
        let next = if tools_allowed && has_tool_calls {
            if loop_limit_reached {
                self.message = limit_message;
                CompletionNext::LoopLimitReached
            } else {
                self.tool_loop_count = self.tool_loop_count.saturating_add(1);
                CompletionNext::RunTools
            }
        } else {
            CompletionNext::Stop(stop_reason_from_finish(finish))
        };
        Completion { message_chunk, thought_chunk, next }
    }

    /// The tools ran and their results are recorded: the next request starts
    /// a fresh draft with a fresh attempt count, unless the turn was
    /// cancelled, which ends it with nothing changed.
    pub fn start_next_round(&mut self) -> (next: NextRequest)
        ensures
            next == next_request(old(self)@.cancelled),
            old(self)@.cancelled ==> final(self)@ == old(self)@,
            !old(self)@.cancelled ==> final(self)@ == (StreamTurnView {
                attempt_index: 0,
                emitted_output: false,
                message: Seq::empty(),
                reasoning: Seq::empty(),
                ..old(self)@
            }),
    {
        if self.cancelled {
            return NextRequest::Cancelled;
        }
        self.attempt_index = 0;
        self.emitted_output = false;
        self.message = String::new();
        self.reasoning = String::new();
        proof {
            assert(self.message@ =~= Seq::<char>::empty());
            assert(self.reasoning@ =~= Seq::<char>::empty());
        }
        NextRequest::Start
    }
}

/// What follows a complete buffered response: the same choice as for a
/// completed stream.
pub fn next_after_response(
    tools_allowed: bool,
    has_tool_calls: bool,
    loop_limit_reached: bool,
    finish: FinishReason,
) -> (n: CompletionNext)
    ensures
        n == completion_next(tools_allowed, has_tool_calls, loop_limit_reached, finish),
{
    if tools_allowed && has_tool_calls {
        if loop_limit_reached {
            CompletionNext::LoopLimitReached
        } else {
            CompletionNext::RunTools
        }
    } else {
        CompletionNext::Stop(stop_reason_from_finish(finish))
    }
}

/// The reasoning of a buffered response to show: its reasoning when there
/// is some, whether or not the response also requests tools.
pub fn response_reasoning_chunk(reasoning: Option<&str>) -> (r: Option<&str>)
    ensures
        r is Some <==> (reasoning is Some && reasoning->0@.len() > 0),
        r matches Some(t) ==> t@ == reasoning->0@,
{
    match reasoning {
        Some(text) => if text.unicode_len() > 0 {
            Some(text)
        } else {
            None
        },
        None => None,
    }
}

/// Output the client has seen is never replayed: once an attempt showed
/// output, every failure ends the turn as partial output; a failure is
/// retried exactly when nothing was shown and the retry policy retries it.
pub proof fn law_visible_output_is_never_retried(
    emitted_output: bool,
    retryable: bool,
    category_retryable: bool,
)
    ensures
        emitted_output ==> failure_step(emitted_output, retryable, category_retryable)
            == FailureStep::Finish(RetryDisposition::PartialOutputVisible),
        failure_step(emitted_output, retryable, category_retryable) == FailureStep::Retry <==> (
        !emitted_output && retryable),
{
}

/// The requested tools run only when tools are allowed, the response asks
/// for some, and the loop limit is not reached.
pub proof fn law_tools_run_only_below_the_loop_limit(
    tools_allowed: bool,
    has_tool_calls: bool,
    loop_limit_reached: bool,
    finish: FinishReason,
)
    ensures
        completion_next(tools_allowed, has_tool_calls, loop_limit_reached, finish)
            == CompletionNext::RunTools <==> (tools_allowed && has_tool_calls && !loop_limit_reached),
{
}

/// A cancelled turn starts no further provider request: neither a retry
/// nor a next tool round; a turn that is not cancelled may start one.
pub proof fn law_cancelled_turn_starts_no_request(cancelled: bool)
    ensures
        cancelled ==> next_request(cancelled) == NextRequest::Cancelled,
        !cancelled ==> next_request(cancelled) == NextRequest::Start,
{
}

/// Why a prompt request is refused with an error.
#[derive(Clone, Copy, Debug, PartialEq, Eq, Structural)]
pub enum PromptRefusal {
    /// The session is not known.
    UnknownSession,
    /// Another turn of the session's thread is still running.
    TurnInProgress,
}

/// How a prompt request goes on before its turn talks to the provider.
#[derive(Clone, Copy, Debug, PartialEq, Eq, Structural)]
pub enum PromptGate {
    /// The request fails with this error.
    Refuse(PromptRefusal),
    /// The client cancelled while the prompt was read: the turn ends as
    /// cancelled and nothing is recorded.
    Cancelled,
    /// The UserPromptSubmit hook blocked the prompt: the turn ends with a
    /// refusal and the prompt is not recorded.
    Blocked,
    /// The prompt is recorded and the turn runs.
    Proceed,
}

/// The checks of a prompt request, in the order they are made.
pub open spec fn prompt_gate_spec(session_known: bool, turn_begun: bool, cancelled: bool, hook_allows: bool) -> PromptGate {
    if !session_known {
        PromptGate::Refuse(PromptRefusal::UnknownSession)
    } else if !turn_begun {
        PromptGate::Refuse(PromptRefusal::TurnInProgress)
    } else if cancelled {
        PromptGate::Cancelled
    } else if !hook_allows {
        PromptGate::Blocked
    } else {
        PromptGate::Proceed
    }
}

/// Decides a prompt request before its turn runs: an unknown session is
/// refused, then a thread whose turn is still running, then a cancellation
/// while the prompt was read ends the turn, then a blocking
/// UserPromptSubmit hook refuses it. Each check is made only when the ones
/// before it passed; a check not made yet is passed as passing.
pub fn prompt_gate(session_known: bool, turn_begun: bool, cancelled: bool, hook_allows: bool) -> (g: PromptGate)
    ensures
        g == prompt_gate_spec(session_known, turn_begun, cancelled, hook_allows),
{
    if !session_known {
        PromptGate::Refuse(PromptRefusal::UnknownSession)
    } else if !turn_begun {
        PromptGate::Refuse(PromptRefusal::TurnInProgress)
    } else if cancelled {
        PromptGate::Cancelled
    } else if !hook_allows {
        PromptGate::Blocked
    } else {
        PromptGate::Proceed
    }
}

/// A prompt is recorded only when every check passes, and a check that
/// fails decides the request whatever the later ones would say.
pub proof fn law_prompt_runs_only_when_every_check_passes(
    session_known: bool,
    turn_begun: bool,
    cancelled: bool,
    hook_allows: bool,
)
    ensures
        prompt_gate_spec(session_known, turn_begun, cancelled, hook_allows) == PromptGate::Proceed <==> (
        session_known && turn_begun && !cancelled && hook_allows),
        !session_known ==> prompt_gate_spec(session_known, turn_begun, cancelled, hook_allows)
            == prompt_gate_spec(false, true, false, true),
{
}

/// What a buffered turn does with the Stop hook's answer about its final
/// draft.
#[derive(Debug)]
pub enum StopHookStep {
    /// The hook blocked with a reason: the draft joins the history as an
    /// assistant message and the reason as a system message, the draft and
    /// reasoning are cleared, and the provider is asked again.
    Reprompt { assistant: String, system: String },
    /// The hook let the draft stand: the turn finishes.
    Finish,
}

/// The Stop hook's state in a buffered turn: whether it has blocked once
/// (it is then run as active), and whether the current draft was checked.
#[derive(Clone, Copy, Debug, PartialEq, Eq, Structural)]
pub struct StopHookState {
    pub active: bool,
    pub checked: bool,
}

impl StopHookState {
    /// Before the first response: the hook has not run.
    pub fn new() -> (s: StopHookState)
        ensures
            !s.active,
            !s.checked,
    {
        StopHookState { active: false, checked: false }
    }

    /// The Stop hook, run on the final draft `draft` (as active when
    /// `self.active`), answered `reason`: a reason blocks and re-prompts with
    /// the hook now active and the next draft unchecked; no reason finishes
    /// the turn with the draft checked.
    pub fn on_final_draft(&mut self, draft: &str, reason: Option<String>) -> (step: StopHookStep)
        ensures
            match reason {
                Some(r) => step matches StopHookStep::Reprompt { assistant, system } && assistant@ == draft@
                    && system@ == r@ && final(self).active && !final(self).checked,
                None => step is Finish && final(self).checked && final(self).active == old(self).active,
            },
    {
        match reason {
            Some(r) => {
                self.active = true;
                self.checked = false;
                StopHookStep::Reprompt { assistant: String::from_str(draft), system: r }
            },
            None => {
                self.checked = true;
                StopHookStep::Finish
            },
        }
    }

    /// Whether the Stop hook must still run once the loop is over: only
    /// when the last draft was not checked in the loop. A block then refuses
    /// the turn (see [`finish_turn`]).
    pub fn needs_final_check(&self) -> (b: bool)
        ensures
            b == !self.checked,
    {
        !self.checked
    }
}

/// How a turn ends once its loop is over.
#[derive(Clone, Copy, Debug, PartialEq, Eq, Structural)]
pub enum TurnEnd {
    /// A Stop hook blocked the final draft: its reason joins the history and
    /// the turn is refused.
    StopHookBlocked,
    /// The turn ends with this reason; `record_message` says whether the
    /// draft joins the history, `emit_final_chunk` whether it is sent as one
    /// final chunk (a buffered draft that the client has not seen).
    Finished { reason: StopReason, record_message: bool, emit_final_chunk: bool },
    /// The turn was cancelled; nothing more is recorded.
    Cancelled,
}

/// The end of a turn: a cancelled turn records nothing; otherwise a Stop
/// hook that blocks refuses the turn, and a non-empty draft is recorded, and
/// shown in one chunk when it was buffered.
pub fn finish_turn(
    cancelled: bool,
    reason: StopReason,
    stop_hook_blocked: bool,
    draft_is_empty: bool,
    allow_streaming: bool,
) -> (end: TurnEnd)
    ensures
        end == if cancelled {
            TurnEnd::Cancelled
        } else if stop_hook_blocked {
            TurnEnd::StopHookBlocked
        } else {
            TurnEnd::Finished {
                reason,
                record_message: !draft_is_empty,
                emit_final_chunk: !draft_is_empty && !allow_streaming,
            }
        },
{
    if cancelled {
        TurnEnd::Cancelled
    } else if stop_hook_blocked {
        TurnEnd::StopHookBlocked
    } else {
        TurnEnd::Finished {
            reason,
            record_message: !draft_is_empty,
            emit_final_chunk: !draft_is_empty && !allow_streaming,
        }
    }
}

} // verus!
