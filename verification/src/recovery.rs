//! Durable tool-call recovery for conversation transcripts.
//!
//! Every assistant message that requests tool calls must be followed by one
//! tool message per call before the conversation continues. When a turn is
//! interrupted, the transcript may hold calls without results; recovery
//! inserts an explicit "incomplete" result for each such call so that the
//! provider never sees an unresolved call and the model is told that the
//! call's side effects are uncertain.

use vstd::prelude::*;

use crate::json::{json_string_literal, quote_json_string};

verus! {

/// Role of a transcript message.
#[derive(Clone, Copy, Debug, PartialEq, Eq, Structural)]
pub enum MessageRole {
    System,
    User,
    Assistant,
    Tool,
}

/// A tool call requested by an assistant message.
#[derive(Debug)]
pub struct ToolCallRef {
    pub id: String,
    /// Name of the requested function, when the call names one.
    pub function_name: Option<String>,
}

/// A transcript message, reduced to the fields that tool-call recovery reads.
#[derive(Debug)]
pub struct TranscriptMessage {
    pub role: MessageRole,
    pub content: String,
    /// Calls requested by this message (empty when it requests none).
    pub tool_calls: Vec<ToolCallRef>,
    /// For a tool message, the call it answers.
    pub tool_call_id: Option<String>,
}

/// A finished tool call whose result replaces the staged placeholder.
#[derive(Debug)]
pub struct ToolCallResult {
    pub tool_call_id: String,
    pub llm_response: String,
}

/// How many unresolved calls a repair closed.
#[derive(Debug, PartialEq, Eq)]
pub struct RecoveryReport {
    pub repaired_calls: usize,
}

/// Mathematical view of a tool call.
pub struct CallView {
    pub id: Seq<char>,
    pub function_name: Option<Seq<char>>,
}

/// Mathematical view of a transcript message.
pub struct MessageView {
    pub role: MessageRole,
    pub content: Seq<char>,
    pub tool_calls: Seq<CallView>,
    pub tool_call_id: Option<Seq<char>>,
}

pub open spec fn opt_string_view(o: Option<String>) -> Option<Seq<char>> {
    match o {
        Some(s) => Some(s@),
        None => None,
    }
}

impl View for ToolCallRef {
    type V = CallView;

    open spec fn view(&self) -> CallView {
        CallView { id: self.id@, function_name: opt_string_view(self.function_name) }
    }
}

impl View for TranscriptMessage {
    type V = MessageView;

    open spec fn view(&self) -> MessageView {
        MessageView {
            role: self.role,
            content: self.content@,
            tool_calls: self.tool_calls@.map_values(|c: ToolCallRef| c@),
            tool_call_id: opt_string_view(self.tool_call_id),
        }
    }
}

/// The view of a whole transcript.
pub open spec fn transcript_view(v: Seq<TranscriptMessage>) -> Seq<MessageView> {
    v.map_values(|m: TranscriptMessage| m@)
}

/// An assistant message that requests at least one tool call.
pub open spec fn opens_call_group(m: MessageView) -> bool {
    m.role == MessageRole::Assistant && m.tool_calls.len() > 0
}

/// The index just past the run of tool messages that starts at `start`.
pub open spec fn group_end(s: Seq<MessageView>, start: int) -> int
    decreases s.len() - start,
{
    if 0 <= start < s.len() && s[start].role == MessageRole::Tool {
        group_end(s, start + 1)
    } else {
        start
    }
}

/// Some message of `group` answers the call `id`.
pub open spec fn answers(group: Seq<MessageView>, id: Seq<char>) -> bool {
    exists|k: int| 0 <= k < group.len() && #[trigger] group[k].tool_call_id == Some(id)
}

/// The calls, in order, that no message of `group` answers.
pub open spec fn unanswered_calls(calls: Seq<CallView>, group: Seq<MessageView>) -> Seq<CallView>
    decreases calls.len(),
{
    if calls.len() == 0 {
        Seq::empty()
    } else {
        let earlier = unanswered_calls(calls.drop_last(), group);
        if answers(group, calls.last().id) {
            earlier
        } else {
            earlier.push(calls.last())
        }
    }
}

pub open spec fn incomplete_result_prefix() -> Seq<char> {
    "{\"status\":\"incomplete\",\"tool\":"@
}

pub open spec fn incomplete_result_suffix() -> Seq<char> {
    ",\"message\":\"Tool execution did not reach a durable terminal result. Its side effects are uncertain.\",\"replayed\":false,\"state\":\"uncertain\",\"next_action\":\"Verify the current workspace state, then resubmit the tool call only if the requested work is still needed.\"}"@
}

/// The JSON body of the placeholder result for a call to `function_name`.
pub open spec fn incomplete_result_content(function_name: Option<Seq<char>>) -> Seq<char> {
    let name = match function_name {
        Some(n) => n,
        None => "unknown"@,
    };
    incomplete_result_prefix() + json_string_literal(name) + incomplete_result_suffix()
}

/// The placeholder tool message that closes an unresolved call.
pub open spec fn incomplete_result_view(call: CallView) -> MessageView {
    MessageView {
        role: MessageRole::Tool,
        content: incomplete_result_content(call.function_name),
        tool_calls: Seq::empty(),
        tool_call_id: Some(call.id),
    }
}

/// Placeholders for every call of `calls` that `group` leaves unanswered.
pub open spec fn placeholders(calls: Seq<CallView>, group: Seq<MessageView>) -> Seq<MessageView> {
    unanswered_calls(calls, group).map_values(|c: CallView| incomplete_result_view(c))
}

pub proof fn lemma_group_end_bounds(s: Seq<MessageView>, start: int)
    requires
        0 <= start,
    ensures
        start <= group_end(s, start),
        start <= s.len() ==> group_end(s, start) <= s.len(),
        forall|k: int| start <= k < group_end(s, start) ==> s[k].role == MessageRole::Tool,
        group_end(s, start) < s.len() ==> s[group_end(s, start)].role != MessageRole::Tool,
    decreases s.len() - start,
{
    if 0 <= start < s.len() && s[start].role == MessageRole::Tool {
        lemma_group_end_bounds(s, start + 1);
    }
}

/// The transcript from index `i` on, after recovery.
pub open spec fn repair_from(s: Seq<MessageView>, i: int) -> Seq<MessageView>
    decreases s.len() - i,
{
    if i < 0 || i >= s.len() {
        Seq::empty()
    } else if opens_call_group(s[i]) {
        let e = group_end(s, i + 1);
        if e <= i || e > s.len() {
            Seq::empty()
        } else {
            s.subrange(i, e) + placeholders(s[i].tool_calls, s.subrange(i + 1, e)) + repair_from(s, e)
        }
    } else {
        seq![s[i]] + repair_from(s, i + 1)
    }
}

/// Number of placeholders recovery inserts from index `i` on.
pub open spec fn repaired_from(s: Seq<MessageView>, i: int) -> nat
    decreases s.len() - i,
{
    if i < 0 || i >= s.len() {
        0
    } else if opens_call_group(s[i]) {
        let e = group_end(s, i + 1);
        if e <= i || e > s.len() {
            0
        } else {
            unanswered_calls(s[i].tool_calls, s.subrange(i + 1, e)).len() + repaired_from(s, e)
        }
    } else {
        repaired_from(s, i + 1)
    }
}

/// The whole transcript after recovery.
pub open spec fn repair_spec(s: Seq<MessageView>) -> Seq<MessageView> {
    repair_from(s, 0)
}

/// Number of placeholders recovery inserts into the whole transcript.
pub open spec fn repaired_count(s: Seq<MessageView>) -> nat {
    repaired_from(s, 0)
}

impl ToolCallRef {
    /// A field-by-field copy.
    pub fn duplicate(&self) -> (r: ToolCallRef)
        ensures
            r@ == self@,
    {
        let function_name = match &self.function_name {
            Some(n) => Some(n.clone()),
            None => None,
        };
        ToolCallRef { id: self.id.clone(), function_name }
    }
}

impl TranscriptMessage {
    /// A field-by-field copy.
    pub fn duplicate(&self) -> (r: TranscriptMessage)
        ensures
            r@ == self@,
    {
        let mut calls: Vec<ToolCallRef> = Vec::new();
        let mut i: usize = 0;
        while i < self.tool_calls.len()
            invariant
                i <= self.tool_calls.len(),
                calls@.map_values(|c: ToolCallRef| c@) =~= self.tool_calls@.take(i as int).map_values(
                    |c: ToolCallRef| c@,
                ),
            decreases self.tool_calls.len() - i,
        {
            let ghost before = calls@.map_values(|c: ToolCallRef| c@);
            calls.push(self.tool_calls[i].duplicate());
            proof {
                assert(calls@.map_values(|c: ToolCallRef| c@) =~= before.push(self.tool_calls@[i as int]@));
                assert(self.tool_calls@.take(i + 1) =~= self.tool_calls@.take(i as int).push(
                    self.tool_calls@[i as int],
                ));
            }
            i += 1;
        }
        proof {
            assert(self.tool_calls@.take(i as int) =~= self.tool_calls@);
        }
        let tool_call_id = match &self.tool_call_id {
            Some(id) => Some(id.clone()),
            None => None,
        };
        TranscriptMessage {
            role: self.role,
            content: self.content.clone(),
            tool_calls: calls,
            tool_call_id,
        }
    }

    /// A tool message that answers the call `tool_call_id` with `content`.
    pub fn tool_response(tool_call_id: String, content: String) -> (r: TranscriptMessage)
        ensures
            r@ == (MessageView {
                role: MessageRole::Tool,
                content: content@,
                tool_calls: Seq::empty(),
                tool_call_id: Some(tool_call_id@),
            }),
    {
        let r = TranscriptMessage {
            role: MessageRole::Tool,
            content,
            tool_calls: Vec::new(),
            tool_call_id: Some(tool_call_id),
        };
        proof {
            assert(r@.tool_calls =~= Seq::<CallView>::empty());
        }
        r
    }
}

/// The placeholder result that closes an unresolved tool call.
pub fn incomplete_tool_result(call: &ToolCallRef) -> (m: TranscriptMessage)
    ensures
        m@ == incomplete_result_view(call@),
{
    let quoted = match &call.function_name {
        Some(name) => quote_json_string(name.as_str()),
        None => quote_json_string("unknown"),
    };
    let mut content = String::from_str(
        "{\"status\":\"incomplete\",\"tool\":",
    );
    content.append(quoted.as_str());
    content.append(
        ",\"message\":\"Tool execution did not reach a durable terminal result. Its side effects are uncertain.\",\"replayed\":false,\"state\":\"uncertain\",\"next_action\":\"Verify the current workspace state, then resubmit the tool call only if the requested work is still needed.\"}",
    );
    TranscriptMessage::tool_response(call.id.clone(), content)
}

/// Whether a message in `messages[start..end]` answers the call `id`.
fn group_answers(messages: &Vec<TranscriptMessage>, start: usize, end: usize, id: &String) -> (r: bool)
    requires
        start <= end <= messages.len(),
    ensures
        r == answers(transcript_view(messages@).subrange(start as int, end as int), id@),
{
    let ghost sv = transcript_view(messages@);
    let ghost group = sv.subrange(start as int, end as int);
    let mut k = start;
    while k < end
        invariant
            start <= k <= end <= messages.len(),
            sv == transcript_view(messages@),
            group == sv.subrange(start as int, end as int),
            forall|j: int| 0 <= j < k - start ==> group[j].tool_call_id != Some(id@),
        decreases end - k,
    {
        let hit = match &messages[k].tool_call_id {
            Some(answered) => *answered == *id,
            None => false,
        };
        if hit {
            proof {
                assert(group[k - start].tool_call_id == Some(id@));
            }
            return true;
        }
        proof {
            assert(group[k - start] == messages@[k as int]@);
        }
        k += 1;
    }
    false
}

/// Inserts an incomplete result right after the tool results of every
/// assistant message whose calls are not all answered, and reports how many
/// it inserted.
pub fn repair_unresolved_tool_calls(messages: &mut Vec<TranscriptMessage>) -> (report: RecoveryReport)
    ensures
        transcript_view(final(messages)@) == repair_spec(transcript_view(old(messages)@)),
        report.repaired_calls == repaired_count(transcript_view(old(messages)@)),
        final(messages)@.len() == old(messages)@.len() + report.repaired_calls,
{
    let ghost sv = transcript_view(messages@);
    let n = messages.len();
    let mut out: Vec<TranscriptMessage> = Vec::new();
    let mut repaired: usize = 0;
    let mut i: usize = 0;
    while i < n
        invariant
            n == messages.len(),
            i <= n,
            sv == transcript_view(messages@),
            transcript_view(out@) + repair_from(sv, i as int) == repair_from(sv, 0),
            repaired + repaired_from(sv, i as int) == repaired_from(sv, 0),
            repaired <= out.len(),
        decreases n - i,
    {
        let ghost out_before = transcript_view(out@);
        let ghost repaired_before = repaired;
        if messages[i].role == MessageRole::Assistant && messages[i].tool_calls.len() > 0 {
            proof {
                lemma_group_end_bounds(sv, i + 1);
            }
            let mut e = i + 1;
            while e < n && messages[e].role == MessageRole::Tool
                invariant
                    n == messages.len(),
                    i < e <= n,
                    sv == transcript_view(messages@),
                    group_end(sv, i + 1) == group_end(sv, e as int),
                decreases n - e,
            {
                e += 1;
            }
            proof {
                lemma_group_end_bounds(sv, e as int);
            }
            let mut k = i;
            while k < e
                invariant
                    n == messages.len(),
                    i <= k <= e <= n,
                    sv == transcript_view(messages@),
                    transcript_view(out@) == out_before + sv.subrange(i as int, k as int),
                    repaired == repaired_before,
                    repaired <= out.len(),
                decreases e - k,
            {
                let ghost before = transcript_view(out@);
                out.push(messages[k].duplicate());
                proof {
                    assert(transcript_view(out@) =~= before.push(sv[k as int]));
                    assert(sv.subrange(i as int, k + 1) =~= sv.subrange(i as int, k as int).push(sv[k as int]));
                }
                k += 1;
            }
            let ghost group = sv.subrange(i + 1, e as int);
            let ghost calls = sv[i as int].tool_calls;
            let ghost base = transcript_view(out@);
            let mut c: usize = 0;
            let ncalls = messages[i].tool_calls.len();
            while c < ncalls
                invariant
                    n == messages.len(),
                    i < e <= n,
                    sv == transcript_view(messages@),
                    ncalls == messages@[i as int].tool_calls.len(),
                    calls == sv[i as int].tool_calls,
                    group == sv.subrange(i + 1, e as int),
                    c <= ncalls,
                    transcript_view(out@) == base + unanswered_calls(calls.take(c as int), group).map_values(
                        |v: CallView| incomplete_result_view(v),
                    ),
                    repaired == repaired_before + unanswered_calls(calls.take(c as int), group).len(),
                    repaired <= out.len(),
                decreases ncalls - c,
            {
                let ghost before = transcript_view(out@);
                proof {
                    assert(calls.take(c + 1).drop_last() =~= calls.take(c as int));
                    assert(calls.take(c + 1).last() == calls[c as int]);
                    assert(calls[c as int] == messages@[i as int].tool_calls@[c as int]@);
                }
                let answered = group_answers(messages, i + 1, e, &messages[i].tool_calls[c].id);
                if !answered {
                    let placeholder = incomplete_tool_result(&messages[i].tool_calls[c]);
                    out.push(placeholder);
                    let out_len = out.len();
                    assert(repaired < out_len);
                    repaired = repaired + 1;
                    proof {
                        assert(transcript_view(out@) =~= before.push(incomplete_result_view(calls[c as int])));
                        assert(unanswered_calls(calls.take(c + 1), group) == unanswered_calls(
                            calls.take(c as int),
                            group,
                        ).push(calls[c as int]));
                        assert(unanswered_calls(calls.take(c + 1), group).map_values(
                            |v: CallView| incomplete_result_view(v),
                        ) =~= unanswered_calls(calls.take(c as int), group).map_values(
                            |v: CallView| incomplete_result_view(v),
                        ).push(incomplete_result_view(calls[c as int])));
                    }
                } else {
                    proof {
                        assert(unanswered_calls(calls.take(c + 1), group) == unanswered_calls(
                            calls.take(c as int),
                            group,
                        ));
                    }
                }
                c += 1;
            }
            proof {
                assert(calls.take(ncalls as int) =~= calls);
                assert(sv.subrange(i as int, e as int) + placeholders(calls, group) + repair_from(sv, e as int)
                    == repair_from(sv, i as int));
                assert(transcript_view(out@) + repair_from(sv, e as int) =~= out_before + repair_from(
                    sv,
                    i as int,
                ));
            }
            i = e;
        } else {
            out.push(messages[i].duplicate());
            proof {
                assert(transcript_view(out@) =~= out_before.push(sv[i as int]));
                assert(repair_from(sv, i as int) == seq![sv[i as int]] + repair_from(sv, i + 1));
                assert(transcript_view(out@) + repair_from(sv, i + 1) =~= out_before + repair_from(
                    sv,
                    i as int,
                ));
            }
            i += 1;
        }
    }
    proof {
        assert(transcript_view(out@) =~= repair_from(sv, 0));
    }
    *messages = out;
    proof {
        lemma_repair_length(sv, 0);
        assert(transcript_view(messages@).len() == messages@.len());
    }
    RecoveryReport { repaired_calls: repaired }
}

/// Every call requested at index `k` of `t` (an assistant message) is answered
/// by the run of tool messages that follows it.
pub open spec fn calls_resolved_at(t: Seq<MessageView>, k: int) -> bool {
    opens_call_group(t[k]) ==> forall|j: int|
        0 <= j < t[k].tool_calls.len() ==> answers(
            t.subrange(k + 1, group_end(t, k + 1)),
            #[trigger] t[k].tool_calls[j].id,
        )
}

/// No assistant message of `t` has an unanswered tool call.
pub open spec fn all_calls_resolved(t: Seq<MessageView>) -> bool {
    forall|k: int| 0 <= k < t.len() ==> #[trigger] calls_resolved_at(t, k)
}

/// `f` maps each message of `a`, in order, to an equal message of `b`.
pub open spec fn embeds(a: Seq<MessageView>, b: Seq<MessageView>, f: Seq<int>) -> bool {
    &&& f.len() == a.len()
    &&& forall|i: int| 0 <= i < f.len() ==> 0 <= #[trigger] f[i] < b.len() && b[f[i]] == a[i]
    &&& forall|i: int, j: int| 0 <= i < j < f.len() ==> #[trigger] f[i] < #[trigger] f[j]
}

/// `a` is a subsequence of `b`.
pub open spec fn is_subsequence(a: Seq<MessageView>, b: Seq<MessageView>) -> bool {
    exists|f: Seq<int>| embeds(a, b, f)
}

proof fn lemma_unanswered_empty(calls: Seq<CallView>, group: Seq<MessageView>)
    ensures
        unanswered_calls(calls, group).len() == 0 <==> forall|j: int|
            0 <= j < calls.len() ==> answers(group, #[trigger] calls[j].id),
    decreases calls.len(),
{
    if calls.len() > 0 {
        lemma_unanswered_empty(calls.drop_last(), group);
        if unanswered_calls(calls, group).len() == 0 {
            assert forall|j: int| 0 <= j < calls.len() implies answers(group, #[trigger] calls[j].id) by {
                if j < calls.len() - 1 {
                    assert(calls.drop_last()[j] == calls[j]);
                }
            }
        }
        if forall|j: int| 0 <= j < calls.len() ==> answers(group, #[trigger] calls[j].id) {
            assert forall|j: int| 0 <= j < calls.drop_last().len() implies answers(
                group,
                #[trigger] calls.drop_last()[j].id,
            ) by {
                assert(calls.drop_last()[j] == calls[j]);
            }
            assert(answers(group, calls[calls.len() - 1].id));
        }
    }
}

proof fn lemma_unanswered_len_le(calls: Seq<CallView>, group: Seq<MessageView>)
    ensures
        unanswered_calls(calls, group).len() <= calls.len(),
        forall|j: int|
            0 <= j < unanswered_calls(calls, group).len() ==> !answers(
                group,
                #[trigger] unanswered_calls(calls, group)[j].id,
            ),
    decreases calls.len(),
{
    if calls.len() > 0 {
        lemma_unanswered_len_le(calls.drop_last(), group);
    }
}

/// Every call is answered either by `group` or by one of its placeholders.
proof fn lemma_placeholders_cover(calls: Seq<CallView>, group: Seq<MessageView>)
    ensures
        forall|j: int|
            0 <= j < calls.len() ==> answers(group, #[trigger] calls[j].id) || answers(
                placeholders(calls, group),
                calls[j].id,
            ),
    decreases calls.len(),
{
    if calls.len() > 0 {
        let prev = calls.drop_last();
        lemma_placeholders_cover(prev, group);
        let p_prev = placeholders(prev, group);
        let p = placeholders(calls, group);
        let last = calls.last();
        if !answers(group, last.id) {
            assert(p =~= p_prev.push(incomplete_result_view(last)));
        } else {
            assert(p =~= p_prev);
        }
        assert forall|j: int| 0 <= j < calls.len() implies answers(group, #[trigger] calls[j].id) || answers(
            p,
            calls[j].id,
        ) by {
            if j < calls.len() - 1 {
                assert(prev[j] == calls[j]);
                if !answers(group, calls[j].id) {
                    assert(answers(p_prev, prev[j].id));
                    let k = choose|k: int| 0 <= k < p_prev.len() && #[trigger] p_prev[k].tool_call_id == Some(prev[j].id);
                    assert(p[k] == p_prev[k]);
                }
            } else {
                if !answers(group, last.id) {
                    assert(p[p.len() - 1].tool_call_id == Some(last.id));
                }
            }
        }
    }
}

proof fn lemma_placeholders_are_tool(calls: Seq<CallView>, group: Seq<MessageView>)
    ensures
        forall|j: int|
            0 <= j < placeholders(calls, group).len() ==> (#[trigger] placeholders(calls, group)[j]).role
                == MessageRole::Tool,
{
}

proof fn lemma_repair_head(s: Seq<MessageView>, i: int)
    requires
        0 <= i < s.len(),
    ensures
        repair_from(s, i).len() > 0,
        repair_from(s, i)[0] == s[i],
{
    lemma_group_end_bounds(s, i + 1);
}

/// Group boundaries inside `q` are unchanged when `q` follows a prefix `p`.
proof fn lemma_group_end_shift(p: Seq<MessageView>, q: Seq<MessageView>, k: int)
    requires
        0 <= k,
    ensures
        group_end(p + q, p.len() + k) == p.len() + group_end(q, k),
    decreases q.len() - k,
{
    let t = p + q;
    if 0 <= k < q.len() && q[k].role == MessageRole::Tool {
        assert(t[p.len() + k] == q[k]);
        lemma_group_end_shift(p, q, k + 1);
    } else if k < q.len() {
        assert(t[p.len() + k] == q[k]);
    }
}

/// A group that starts inside a run of tool messages `p[start..]` continues
/// into `q` exactly as far as `q`'s own leading run.
proof fn lemma_group_end_through_prefix(p: Seq<MessageView>, q: Seq<MessageView>, start: int)
    requires
        0 <= start <= p.len(),
        forall|k: int| start <= k < p.len() ==> (#[trigger] p[k]).role == MessageRole::Tool,
    ensures
        group_end(p + q, start) == p.len() + group_end(q, 0),
    decreases p.len() - start,
{
    if start < p.len() {
        assert((p + q)[start] == p[start]);
        lemma_group_end_through_prefix(p, q, start + 1);
    } else {
        lemma_group_end_shift(p, q, 0);
    }
}

proof fn lemma_resolved_shift(p: Seq<MessageView>, q: Seq<MessageView>, k: int)
    requires
        0 <= k < q.len(),
        calls_resolved_at(q, k),
    ensures
        calls_resolved_at(p + q, p.len() + k),
{
    let t = p + q;
    lemma_group_end_shift(p, q, k + 1);
    lemma_group_end_bounds(q, k + 1);
    assert(t[p.len() + k] == q[k]);
    let ge = group_end(q, k + 1);
    assert(t.subrange(p.len() + k + 1, p.len() + ge) =~= q.subrange(k + 1, ge));
}

proof fn lemma_resolved_after_prefix(p: Seq<MessageView>, q: Seq<MessageView>)
    requires
        all_calls_resolved(q),
    ensures
        forall|k: int| p.len() <= k < (p + q).len() ==> #[trigger] calls_resolved_at(p + q, k),
{
    assert forall|k: int| p.len() <= k < (p + q).len() implies #[trigger] calls_resolved_at(p + q, k) by {
        assert(calls_resolved_at(q, k - p.len()));
        lemma_resolved_shift(p, q, k - p.len());
    }
}

/// Recovery leaves no assistant message with an unanswered call.
proof fn lemma_repair_from_resolved(s: Seq<MessageView>, i: int)
    requires
        0 <= i,
    ensures
        all_calls_resolved(repair_from(s, i)),
    decreases s.len() - i,
{
    if i >= s.len() {
        return;
    }
    lemma_group_end_bounds(s, i + 1);
    if opens_call_group(s[i]) {
        let e = group_end(s, i + 1);
        let calls = s[i].tool_calls;
        let g = s.subrange(i + 1, e);
        let ph = placeholders(calls, g);
        let p = s.subrange(i, e) + ph;
        let q = repair_from(s, e);
        lemma_repair_from_resolved(s, e);
        lemma_resolved_after_prefix(p, q);
        assert(repair_from(s, i) == p + q);
        let t = p + q;
        lemma_placeholders_are_tool(calls, g);
        assert forall|k: int| 1 <= k < p.len() implies (#[trigger] p[k]).role == MessageRole::Tool by {
            if k < e - i {
                assert(p[k] == s[i + k]);
            } else {
                assert(p[k] == ph[k - (e - i)]);
            }
        }
        lemma_group_end_through_prefix(p, q, 1);
        if e < s.len() {
            lemma_repair_head(s, e);
            assert(q[0] == s[e]);
        }
        assert(group_end(q, 0) == 0);
        assert(group_end(t, 1) == p.len());
        assert(t.subrange(1, p.len() as int) =~= g + ph);
        lemma_placeholders_cover(calls, g);
        assert(t[0] == s[i]);
        assert forall|j: int| 0 <= j < t[0].tool_calls.len() implies answers(
            t.subrange(1, group_end(t, 1)),
            #[trigger] t[0].tool_calls[j].id,
        ) by {
            let id = calls[j].id;
            if answers(g, id) {
                let k = choose|k: int| 0 <= k < g.len() && #[trigger] g[k].tool_call_id == Some(id);
                assert((g + ph)[k] == g[k]);
            } else {
                let k = choose|k: int| 0 <= k < ph.len() && #[trigger] ph[k].tool_call_id == Some(id);
                assert((g + ph)[g.len() + k] == ph[k]);
            }
        }
        assert forall|k: int| 0 <= k < t.len() implies #[trigger] calls_resolved_at(t, k) by {
            if 0 < k < p.len() {
                assert(t[k] == p[k]);
            }
        }
    } else {
        let q = repair_from(s, i + 1);
        let p = seq![s[i]];
        lemma_repair_from_resolved(s, i + 1);
        lemma_resolved_after_prefix(p, q);
        assert(repair_from(s, i) == p + q);
        assert forall|k: int| 0 <= k < (p + q).len() implies #[trigger] calls_resolved_at(p + q, k) by {
            if k == 0 {
                assert((p + q)[0] == s[i]);
            }
        }
    }
}

/// A transcript whose calls are all answered is left as it is.
proof fn lemma_resolved_fixed_point(t: Seq<MessageView>, i: int)
    requires
        0 <= i <= t.len(),
        all_calls_resolved(t),
    ensures
        repair_from(t, i) == t.subrange(i, t.len() as int),
        repaired_from(t, i) == 0,
    decreases t.len() - i,
{
    if i == t.len() {
        assert(t.subrange(i, t.len() as int) =~= Seq::<MessageView>::empty());
        return;
    }
    lemma_group_end_bounds(t, i + 1);
    if opens_call_group(t[i]) {
        let e = group_end(t, i + 1);
        let g = t.subrange(i + 1, e);
        assert(calls_resolved_at(t, i));
        lemma_unanswered_empty(t[i].tool_calls, g);
        assert(placeholders(t[i].tool_calls, g) =~= Seq::<MessageView>::empty());
        lemma_resolved_fixed_point(t, e);
        assert(t.subrange(i, e) + Seq::<MessageView>::empty() + t.subrange(e, t.len() as int) =~= t.subrange(
            i,
            t.len() as int,
        ));
    } else {
        lemma_resolved_fixed_point(t, i + 1);
        assert(seq![t[i]] + t.subrange(i + 1, t.len() as int) =~= t.subrange(i, t.len() as int));
    }
}

proof fn embedding_from(s: Seq<MessageView>, i: int) -> (f: Seq<int>)
    requires
        0 <= i <= s.len(),
    ensures
        embeds(s.subrange(i, s.len() as int), repair_from(s, i), f),
    decreases s.len() - i,
{
    if i == s.len() {
        return Seq::empty();
    }
    lemma_group_end_bounds(s, i + 1);
    if opens_call_group(s[i]) {
        let e = group_end(s, i + 1);
        let g = s.subrange(i + 1, e);
        let ph = placeholders(s[i].tool_calls, g);
        let rest = embedding_from(s, e);
        let offset = (e - i) + ph.len();
        let head = Seq::new((e - i) as nat, |k: int| k);
        let f = head + rest.map_values(|x: int| x + offset);
        let b = repair_from(s, i);
        let a = s.subrange(i, s.len() as int);
        assert(b == s.subrange(i, e) + ph + repair_from(s, e));
        assert forall|k: int| 0 <= k < f.len() implies 0 <= #[trigger] f[k] < b.len() && b[f[k]] == a[k] by {
            if k < e - i {
                assert(f[k] == k);
                assert(b[k] == s[i + k]);
            } else {
                let r = k - (e - i);
                assert(f[k] == rest[r] + offset);
                assert(s.subrange(e, s.len() as int)[r] == s[e + r]);
                assert(b[rest[r] + offset] == repair_from(s, e)[rest[r]]);
            }
        }
        assert forall|x: int, y: int| 0 <= x < y < f.len() implies #[trigger] f[x] < #[trigger] f[y] by {
            if y < e - i {
            } else if x < e - i {
                assert(f[y] == rest[y - (e - i)] + offset);
            } else {
                assert(f[x] == rest[x - (e - i)] + offset);
                assert(f[y] == rest[y - (e - i)] + offset);
            }
        }
        f
    } else {
        let rest = embedding_from(s, i + 1);
        let f = seq![0int] + rest.map_values(|x: int| x + 1);
        let b = repair_from(s, i);
        let a = s.subrange(i, s.len() as int);
        assert(b == seq![s[i]] + repair_from(s, i + 1));
        assert forall|k: int| 0 <= k < f.len() implies 0 <= #[trigger] f[k] < b.len() && b[f[k]] == a[k] by {
            if k > 0 {
                assert(f[k] == rest[k - 1] + 1);
                assert(s.subrange(i + 1, s.len() as int)[k - 1] == s[i + k]);
            }
        }
        assert forall|x: int, y: int| 0 <= x < y < f.len() implies #[trigger] f[x] < #[trigger] f[y] by {
            if x > 0 {
                assert(f[x] == rest[x - 1] + 1);
            }
            assert(f[y] == rest[y - 1] + 1);
        }
        f
    }
}

/// Recovery is complete: afterwards every tool call of every assistant
/// message is answered by the tool messages that directly follow it.
pub proof fn law_repair_resolves_every_call(s: Seq<MessageView>)
    ensures
        all_calls_resolved(repair_spec(s)),
{
    lemma_repair_from_resolved(s, 0);
}

/// Recovery is idempotent: a second repair changes nothing and inserts
/// nothing.
pub proof fn law_repair_is_idempotent(s: Seq<MessageView>)
    ensures
        repair_spec(repair_spec(s)) == repair_spec(s),
        repaired_count(repair_spec(s)) == 0,
{
    let t = repair_spec(s);
    lemma_repair_from_resolved(s, 0);
    lemma_resolved_fixed_point(t, 0);
    assert(t.subrange(0, t.len() as int) =~= t);
}

/// Recovery only inserts: the transcript as it was, real tool results
/// included, survives in order.
pub proof fn law_repair_preserves_messages(s: Seq<MessageView>)
    ensures
        is_subsequence(s, repair_spec(s)),
{
    let f = embedding_from(s, 0);
    assert(s.subrange(0, s.len() as int) =~= s);
}

proof fn lemma_repair_length(s: Seq<MessageView>, i: int)
    requires
        0 <= i <= s.len(),
    ensures
        repair_from(s, i).len() == (s.len() - i) + repaired_from(s, i),
    decreases s.len() - i,
{
    if i < s.len() {
        if opens_call_group(s[i]) {
            let e = group_end(s, i + 1);
            lemma_group_end_bounds(s, i + 1);
            lemma_repair_length(s, e);
            let calls = s[i].tool_calls;
            let group = s.subrange(i + 1, e);
            assert(placeholders(calls, group).len() == unanswered_calls(calls, group).len());
        } else {
            lemma_repair_length(s, i + 1);
        }
    }
}

/// The report counts every placeholder recovery inserts: the repaired
/// transcript is longer than the original by exactly the reported count,
/// across every assistant message of the transcript.
pub proof fn law_report_counts_every_insertion(s: Seq<MessageView>)
    ensures
        repair_spec(s).len() == s.len() + repaired_count(s),
{
    lemma_repair_length(s, 0);
}

/// A transcript with no unanswered call is left unchanged.
pub proof fn law_resolved_transcript_unchanged(s: Seq<MessageView>)
    requires
        all_calls_resolved(s),
    ensures
        repair_spec(s) == s,
        repaired_count(s) == 0,
{
    lemma_resolved_fixed_point(s, 0);
    assert(s.subrange(0, s.len() as int) =~= s);
}

/// Mathematical view of a finished tool call: (call id, response text).
pub open spec fn result_view(r: ToolCallResult) -> (Seq<char>, Seq<char>) {
    (r.tool_call_id@, r.llm_response@)
}

/// The tool message that carries `response` for the call `id`.
pub open spec fn tool_response_view(id: Seq<char>, response: Seq<char>) -> MessageView {
    MessageView { role: MessageRole::Tool, content: response, tool_calls: Seq::empty(), tool_call_id: Some(id) }
}

/// Index of the first tool message at or after `i` that answers `id`, or -1.
pub open spec fn first_result_index(s: Seq<MessageView>, id: Seq<char>, i: int) -> int
    decreases s.len() - i,
{
    if i < 0 || i >= s.len() {
        -1
    } else if s[i].role == MessageRole::Tool && s[i].tool_call_id == Some(id) {
        i
    } else {
        first_result_index(s, id, i + 1)
    }
}

/// The transcript after recording one finished result: the first tool
/// message answering the call is replaced, or the result is appended.
pub open spec fn apply_result(s: Seq<MessageView>, r: (Seq<char>, Seq<char>)) -> Seq<MessageView> {
    let k = first_result_index(s, r.0, 0);
    if k >= 0 {
        s.update(k, tool_response_view(r.0, r.1))
    } else {
        s.push(tool_response_view(r.0, r.1))
    }
}

/// The transcript after recording the finished results in order.
pub open spec fn apply_results(s: Seq<MessageView>, rs: Seq<(Seq<char>, Seq<char>)>) -> Seq<MessageView>
    decreases rs.len(),
{
    if rs.len() == 0 {
        s
    } else {
        apply_result(apply_results(s, rs.drop_last()), rs.last())
    }
}

/// Appends the assistant message and one incomplete placeholder per call it
/// requests, so that an interruption leaves no unresolved call behind;
/// returns the staged call ids.
pub fn stage_tool_calls(messages: &mut Vec<TranscriptMessage>, assistant: TranscriptMessage) -> (call_ids: Vec<String>)
    ensures
        transcript_view(final(messages)@) == transcript_view(old(messages)@).push(assistant@) + assistant@.tool_calls.map_values(
            |c: CallView| incomplete_result_view(c),
        ),
        call_ids@.map_values(|id: String| id@) == assistant@.tool_calls.map_values(|c: CallView| c.id),
{
    let ghost calls = assistant@.tool_calls;
    let mut staged: Vec<TranscriptMessage> = Vec::new();
    let mut call_ids: Vec<String> = Vec::new();
    let mut i: usize = 0;
    while i < assistant.tool_calls.len()
        invariant
            i <= assistant.tool_calls.len(),
            calls == assistant@.tool_calls,
            transcript_view(staged@) =~= calls.take(i as int).map_values(|c: CallView| incomplete_result_view(c)),
            call_ids@.map_values(|id: String| id@) =~= calls.take(i as int).map_values(|c: CallView| c.id),
        decreases assistant.tool_calls.len() - i,
    {
        let ghost before = transcript_view(staged@);
        let ghost ids_before = call_ids@.map_values(|id: String| id@);
        staged.push(incomplete_tool_result(&assistant.tool_calls[i]));
        call_ids.push(assistant.tool_calls[i].id.clone());
        proof {
            assert(calls[i as int] == assistant.tool_calls@[i as int]@);
            assert(calls.take(i + 1) =~= calls.take(i as int).push(calls[i as int]));
            assert(transcript_view(staged@) =~= before.push(incomplete_result_view(calls[i as int])));
            assert(call_ids@.map_values(|id: String| id@) =~= ids_before.push(calls[i as int].id));
        }
        i += 1;
    }
    proof {
        assert(calls.take(i as int) =~= calls);
    }
    let ghost start = transcript_view(messages@);
    messages.push(assistant);
    let mut j: usize = 0;
    let ghost pushed = transcript_view(messages@);
    proof {
        assert(pushed =~= start.push(assistant@));
    }
    let staged_len = staged.len();
    while j < staged_len
        invariant
            j <= staged_len == staged.len(),
            transcript_view(messages@) =~= pushed + transcript_view(staged@).take(j as int),
        decreases staged_len - j,
    {
        let ghost before = transcript_view(messages@);
        messages.push(staged[j].duplicate());
        proof {
            assert(transcript_view(staged@).take(j + 1) =~= transcript_view(staged@).take(j as int).push(
                staged@[j as int]@,
            ));
            assert(transcript_view(messages@) =~= before.push(staged@[j as int]@));
        }
        j += 1;
    }
    proof {
        assert(transcript_view(staged@).take(j as int) =~= transcript_view(staged@));
    }
    call_ids
}

/// Index of the first tool message that answers `id`, if any.
fn find_result_index(messages: &Vec<TranscriptMessage>, id: &String) -> (k: Option<usize>)
    ensures
        match k {
            Some(k) => k as int == first_result_index(transcript_view(messages@), id@, 0),
            None => first_result_index(transcript_view(messages@), id@, 0) == -1,
        },
{
    let ghost sv = transcript_view(messages@);
    let mut i: usize = 0;
    while i < messages.len()
        invariant
            i <= messages.len(),
            sv == transcript_view(messages@),
            first_result_index(sv, id@, 0) == first_result_index(sv, id@, i as int),
        decreases messages.len() - i,
    {
        let hit = messages[i].role == MessageRole::Tool && match &messages[i].tool_call_id {
            Some(answered) => *answered == *id,
            None => false,
        };
        proof {
            assert(sv[i as int] == messages@[i as int]@);
        }
        if hit {
            return Some(i);
        }
        i += 1;
    }
    None
}

/// Records finished tool results: each replaces the first tool message that
/// answers its call (the staged placeholder), or is appended when there is
/// none. Returns how many results were recorded.
pub fn replace_tool_results(messages: &mut Vec<TranscriptMessage>, results: &Vec<ToolCallResult>) -> (finalized: usize)
    ensures
        transcript_view(final(messages)@) == apply_results(
            transcript_view(old(messages)@),
            results@.map_values(|r: ToolCallResult| result_view(r)),
        ),
        finalized == results.len(),
{
    let ghost start = transcript_view(messages@);
    let ghost rs = results@.map_values(|r: ToolCallResult| result_view(r));
    let mut i: usize = 0;
    while i < results.len()
        invariant
            i <= results.len(),
            rs == results@.map_values(|r: ToolCallResult| result_view(r)),
            transcript_view(messages@) == apply_results(start, rs.take(i as int)),
        decreases results.len() - i,
    {
        let ghost before = transcript_view(messages@);
        let response = TranscriptMessage::tool_response(
            results[i].tool_call_id.clone(),
            results[i].llm_response.clone(),
        );
        proof {
            assert(rs.take(i + 1).drop_last() =~= rs.take(i as int));
            assert(rs.take(i + 1).last() == rs[i as int]);
            assert(rs[i as int] == result_view(results@[i as int]));
            lemma_first_result_index(before, results@[i as int].tool_call_id@, 0);
            assert(before.len() == messages@.len());
        }
        match find_result_index(messages, &results[i].tool_call_id) {
            Some(k) => {
                messages.set(k, response);
                proof {
                    assert(transcript_view(messages@) =~= before.update(k as int, response@));
                }
            },
            None => {
                messages.push(response);
                proof {
                    assert(transcript_view(messages@) =~= before.push(response@));
                }
            },
        }
        i += 1;
    }
    proof {
        assert(rs.take(i as int) =~= rs);
    }
    results.len()
}

proof fn lemma_first_result_index(s: Seq<MessageView>, id: Seq<char>, i: int)
    requires
        0 <= i,
    ensures
        first_result_index(s, id, i) == -1 || (i <= first_result_index(s, id, i) < s.len()
            && s[first_result_index(s, id, i)].role == MessageRole::Tool
            && s[first_result_index(s, id, i)].tool_call_id == Some(id)),
        forall|j: int|
            i <= j < s.len() && (j < first_result_index(s, id, i) || first_result_index(s, id, i) == -1)
                ==> !(s[j].role == MessageRole::Tool && s[j].tool_call_id == Some(id)),
    decreases s.len() - i,
{
    if i < s.len() {
        lemma_first_result_index(s, id, i + 1);
    }
}

proof fn lemma_first_result_index_of(s: Seq<MessageView>, id: Seq<char>, i: int, k: int)
    requires
        0 <= i <= k < s.len(),
        s[k].role == MessageRole::Tool,
        s[k].tool_call_id == Some(id),
        forall|j: int| i <= j < k ==> !(s[j].role == MessageRole::Tool && s[j].tool_call_id == Some(id)),
    ensures
        first_result_index(s, id, i) == k,
    decreases k - i,
{
    if i < k {
        lemma_first_result_index_of(s, id, i + 1, k);
    }
}

/// A recorded result is what the transcript then holds for its call: the
/// first tool message answering the call carries exactly that response.
pub proof fn law_recorded_result_is_read_back(s: Seq<MessageView>, id: Seq<char>, response: Seq<char>)
    ensures
        ({
            let t = apply_result(s, (id, response));
            let k = first_result_index(t, id, 0);
            0 <= k < t.len() && t[k] == tool_response_view(id, response)
        }),
{
    let t = apply_result(s, (id, response));
    let k0 = first_result_index(s, id, 0);
    lemma_first_result_index(s, id, 0);
    if k0 >= 0 {
        assert forall|j: int| 0 <= j < k0 implies !(t[j].role == MessageRole::Tool && t[j].tool_call_id == Some(
            id,
        )) by {
            assert(t[j] == s[j]);
        }
        lemma_first_result_index_of(t, id, 0, k0);
    } else {
        assert forall|j: int| 0 <= j < s.len() implies !(t[j].role == MessageRole::Tool && t[j].tool_call_id
            == Some(id)) by {
            assert(t[j] == s[j]);
        }
        lemma_first_result_index_of(t, id, 0, s.len() as int);
    }
}

} // verus!
