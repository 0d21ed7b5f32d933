//! Permission decisions for tool calls.
//!
//! Before a tool runs, the agent either lets it through (confirmations are
//! skipped, or the user chose "allow always" for this tool in this session),
//! blocks it (the user chose "reject always"), or asks the client. The
//! client's answer is then turned into the call's outcome, and "always"
//! answers are remembered per session and tool.
//!
//! Asking the client is I/O; the decisions on either side of it are here.

use vstd::prelude::*;

use crate::reports::{
    failure_view, ReportView, ToolAuditStatus, ToolExecutionReport, TOOL_PERMISSION_ALLOW_ALWAYS_OPTION_ID,
    TOOL_PERMISSION_ALLOW_OPTION_ID, TOOL_PERMISSION_ALLOW_PREFIX, TOOL_PERMISSION_CANCELLED_MESSAGE,
    TOOL_PERMISSION_DENIED_MESSAGE, TOOL_PERMISSION_DENY_ALWAYS_OPTION_ID, TOOL_PERMISSION_DENY_OPTION_ID,
    TOOL_PERMISSION_DENY_PREFIX, TOOL_PERMISSION_REQUEST_FAILURE_MESSAGE,
};

verus! {

/// The kind of a tool, as the client protocol classifies it.
#[derive(Clone, Copy, Debug, PartialEq, Eq, Structural)]
pub enum ToolKind {
    Read,
    Edit,
    Delete,
    Move,
    Search,
    Execute,
    Think,
    Fetch,
    SwitchMode,
    Other,
}

/// The tool a permission prompt is about.
#[derive(Debug)]
pub struct PermissionToolContext {
    name: String,
    kind: ToolKind,
    action_label: String,
}

impl PermissionToolContext {
    /// A tool named `name` of kind `kind`, described to the user as `action_label`.
    pub fn new(name: &str, kind: ToolKind, action_label: &str) -> (r: Self)
        ensures
            r.name_view() == name@,
            r.kind_view() == kind,
            r.action_label_view() == action_label@,
    {
        PermissionToolContext { name: name.to_string(), kind, action_label: action_label.to_string() }
    }

    pub closed spec fn name_view(&self) -> Seq<char> {
        self.name@
    }

    pub closed spec fn kind_view(&self) -> ToolKind {
        self.kind
    }

    pub closed spec fn action_label_view(&self) -> Seq<char> {
        self.action_label@
    }

    pub fn name(&self) -> (r: &str)
        ensures
            r@ == self.name_view(),
    {
        self.name.as_str()
    }

    pub fn kind(&self) -> (r: ToolKind)
        ensures
            r == self.kind_view(),
    {
        self.kind
    }

    pub fn action_label(&self) -> (r: &str)
        ensures
            r@ == self.action_label_view(),
    {
        self.action_label.as_str()
    }
}

/// A decision the user asked to be remembered for the rest of the session.
#[derive(Clone, Copy, Debug, PartialEq, Eq, Structural)]
pub enum PersistentPermissionDecision {
    Allow,
    Reject,
}

/// Kind of a permission option offered to the user.
#[derive(Clone, Copy, Debug, PartialEq, Eq, Structural)]
pub enum PermissionOptionKind {
    AllowOnce,
    AllowAlways,
    RejectOnce,
    RejectAlways,
}

/// One option of a permission prompt.
#[derive(Debug)]
pub struct PermissionOption {
    pub option_id: String,
    pub name: String,
    pub kind: PermissionOptionKind,
}

pub struct OptionView {
    pub option_id: Seq<char>,
    pub name: Seq<char>,
    pub kind: PermissionOptionKind,
}

impl View for PermissionOption {
    type V = OptionView;

    open spec fn view(&self) -> OptionView {
        OptionView { option_id: self.option_id@, name: self.name@, kind: self.kind }
    }
}

/// The four options offered for an action: allow or deny, once or always.
pub open spec fn options_for_action(label: Seq<char>) -> Seq<OptionView> {
    seq![
        OptionView {
            option_id: TOOL_PERMISSION_ALLOW_OPTION_ID@,
            name: TOOL_PERMISSION_ALLOW_PREFIX@ + " "@ + label + " once"@,
            kind: PermissionOptionKind::AllowOnce,
        },
        OptionView {
            option_id: TOOL_PERMISSION_ALLOW_ALWAYS_OPTION_ID@,
            name: TOOL_PERMISSION_ALLOW_PREFIX@ + " "@ + label + " always"@,
            kind: PermissionOptionKind::AllowAlways,
        },
        OptionView {
            option_id: TOOL_PERMISSION_DENY_OPTION_ID@,
            name: TOOL_PERMISSION_DENY_PREFIX@ + " "@ + label + " once"@,
            kind: PermissionOptionKind::RejectOnce,
        },
        OptionView {
            option_id: TOOL_PERMISSION_DENY_ALWAYS_OPTION_ID@,
            name: TOOL_PERMISSION_DENY_PREFIX@ + " "@ + label + " always"@,
            kind: PermissionOptionKind::RejectAlways,
        },
    ]
}

/// The client's answer to a permission prompt.
#[derive(Debug)]
pub enum PermissionOutcome {
    /// The prompt was cancelled.
    Cancelled,
    /// The user picked the option with this id.
    Selected(String),
    /// An outcome this agent does not recognise.
    Unrecognized,
    /// The prompt could not be delivered or answered.
    RequestFailed,
}

pub enum OutcomeView {
    Cancelled,
    Selected(Seq<char>),
    Unrecognized,
    RequestFailed,
}

impl View for PermissionOutcome {
    type V = OutcomeView;

    open spec fn view(&self) -> OutcomeView {
        match self {
            PermissionOutcome::Cancelled => OutcomeView::Cancelled,
            PermissionOutcome::Selected(id) => OutcomeView::Selected(id@),
            PermissionOutcome::Unrecognized => OutcomeView::Unrecognized,
            PermissionOutcome::RequestFailed => OutcomeView::RequestFailed,
        }
    }
}

/// A prompt the client must be asked before the tool may run.
#[derive(Debug)]
pub struct PermissionPrompt {
    pub tool_kind: ToolKind,
    pub options: Vec<PermissionOption>,
}

/// What to do with a tool call before any prompt.
#[derive(Debug)]
pub enum PermissionStep {
    /// Decided without asking: `None` lets the tool run, a report stops it.
    Resolved(Option<ToolExecutionReport>),
    /// The client must be asked with this prompt.
    Prompt(PermissionPrompt),
}

/// How a call is decided before any prompt.
pub enum PreflightDecision {
    Allow,
    Deny,
    Ask,
}

#[derive(Debug)]
struct DecisionEntry {
    session_id: String,
    tool_name: String,
    decision: PersistentPermissionDecision,
}

/// Mathematical view of a remembered decision.
pub struct DecisionView {
    pub session_id: Seq<char>,
    pub tool_name: Seq<char>,
    pub decision: PersistentPermissionDecision,
}

/// Mathematical view of the prompter: whether confirmations are skipped and
/// the remembered decisions.
pub struct PrompterView {
    pub skip_confirmations: bool,
    pub decisions: Seq<DecisionView>,
}

/// The decision remembered for (`session_id`, `tool_name`), searching from index `i`.
pub open spec fn lookup_from(entries: Seq<DecisionView>, session_id: Seq<char>, tool_name: Seq<char>, i: int) -> Option<
    PersistentPermissionDecision,
>
    decreases entries.len() - i,
{
    if i < 0 || i >= entries.len() {
        None
    } else if entries[i].session_id == session_id && entries[i].tool_name == tool_name {
        Some(entries[i].decision)
    } else {
        lookup_from(entries, session_id, tool_name, i + 1)
    }
}

pub open spec fn lookup(entries: Seq<DecisionView>, session_id: Seq<char>, tool_name: Seq<char>) -> Option<
    PersistentPermissionDecision,
> {
    lookup_from(entries, session_id, tool_name, 0)
}

/// No (session, tool) pair is remembered twice.
pub open spec fn keys_unique(entries: Seq<DecisionView>) -> bool {
    forall|i: int, j: int|
        0 <= i < j < entries.len() ==> !(#[trigger] entries[i].session_id == #[trigger] entries[j].session_id
            && entries[i].tool_name == entries[j].tool_name)
}

/// The pre-prompt decision for a call.
pub open spec fn preflight(st: PrompterView, session_id: Seq<char>, tool_name: Seq<char>, force_prompt: bool) -> PreflightDecision {
    if st.skip_confirmations && !force_prompt {
        PreflightDecision::Allow
    } else if !force_prompt && lookup(st.decisions, session_id, tool_name) == Some(
        PersistentPermissionDecision::Allow,
    ) {
        PreflightDecision::Allow
    } else if !force_prompt && lookup(st.decisions, session_id, tool_name) == Some(
        PersistentPermissionDecision::Reject,
    ) {
        PreflightDecision::Deny
    } else {
        PreflightDecision::Ask
    }
}

/// The decision an answer asks to remember, if any.
pub open spec fn remembered_by(outcome: OutcomeView) -> Option<PersistentPermissionDecision> {
    match outcome {
        OutcomeView::Selected(id) => if id == TOOL_PERMISSION_ALLOW_ALWAYS_OPTION_ID@ {
            Some(PersistentPermissionDecision::Allow)
        } else if id == TOOL_PERMISSION_DENY_ALWAYS_OPTION_ID@ {
            Some(PersistentPermissionDecision::Reject)
        } else {
            None
        },
        _ => None,
    }
}

/// Index of the entry for (`session_id`, `tool_name`) from index `i` on, or -1.
pub open spec fn key_index_from(entries: Seq<DecisionView>, session_id: Seq<char>, tool_name: Seq<char>, i: int) -> int
    decreases entries.len() - i,
{
    if i < 0 || i >= entries.len() {
        -1
    } else if entries[i].session_id == session_id && entries[i].tool_name == tool_name {
        i
    } else {
        key_index_from(entries, session_id, tool_name, i + 1)
    }
}

/// The remembered decisions after recording `decision` for the pair: an
/// existing entry for the pair is overwritten, otherwise one is added.
pub open spec fn remember(
    entries: Seq<DecisionView>,
    session_id: Seq<char>,
    tool_name: Seq<char>,
    decision: PersistentPermissionDecision,
) -> Seq<DecisionView> {
    let k = key_index_from(entries, session_id, tool_name, 0);
    let entry = DecisionView { session_id, tool_name, decision };
    if k >= 0 {
        entries.update(k, entry)
    } else {
        entries.push(entry)
    }
}

/// The remembered decisions after an answer.
pub open spec fn decisions_after(
    entries: Seq<DecisionView>,
    session_id: Seq<char>,
    tool_name: Seq<char>,
    outcome: OutcomeView,
) -> Seq<DecisionView> {
    match remembered_by(outcome) {
        Some(d) => remember(entries, session_id, tool_name, d),
        None => entries,
    }
}

/// The call's report for an answer: `None` lets the tool run.
pub open spec fn outcome_report(tool_name: Seq<char>, outcome: OutcomeView) -> Option<ReportView> {
    match outcome {
        OutcomeView::Cancelled => Some(
            failure_view(tool_name, TOOL_PERMISSION_CANCELLED_MESSAGE@, ToolAuditStatus::Cancelled),
        ),
        OutcomeView::Selected(id) => if id == TOOL_PERMISSION_ALLOW_OPTION_ID@ || id
            == TOOL_PERMISSION_ALLOW_ALWAYS_OPTION_ID@ {
            None
        } else {
            Some(failure_view(tool_name, TOOL_PERMISSION_DENIED_MESSAGE@, ToolAuditStatus::Blocked))
        },
        OutcomeView::Unrecognized => Some(
            failure_view(tool_name, TOOL_PERMISSION_DENIED_MESSAGE@, ToolAuditStatus::Blocked),
        ),
        OutcomeView::RequestFailed => Some(
            failure_view(tool_name, TOOL_PERMISSION_REQUEST_FAILURE_MESSAGE@, ToolAuditStatus::Failure),
        ),
    }
}


impl DecisionEntry {
    spec fn view_entry(&self) -> DecisionView {
        DecisionView { session_id: self.session_id@, tool_name: self.tool_name@, decision: self.decision }
    }
}

/// Prompts the client for permission before a tool call runs, remembering
/// "always" answers per session and tool.
pub struct DefaultPermissionPrompter<P> {
    registry: P,
    skip_confirmations: bool,
    persistent_decisions: Vec<DecisionEntry>,
}

spec fn entries_view(v: Seq<DecisionEntry>) -> Seq<DecisionView> {
    v.map_values(|e: DecisionEntry| e.view_entry())
}

impl<P> View for DefaultPermissionPrompter<P> {
    type V = PrompterView;

    closed spec fn view(&self) -> PrompterView {
        PrompterView {
            skip_confirmations: self.skip_confirmations,
            decisions: entries_view(self.persistent_decisions@),
        }
    }
}

proof fn lemma_key_index(entries: Seq<DecisionView>, session_id: Seq<char>, tool_name: Seq<char>, i: int)
    requires
        0 <= i,
    ensures
        key_index_from(entries, session_id, tool_name, i) == -1 || (i <= key_index_from(
            entries,
            session_id,
            tool_name,
            i,
        ) < entries.len() && entries[key_index_from(entries, session_id, tool_name, i)].session_id
            == session_id && entries[key_index_from(entries, session_id, tool_name, i)].tool_name
            == tool_name),
        key_index_from(entries, session_id, tool_name, i) == -1 ==> lookup_from(entries, session_id, tool_name, i)
            is None,
        key_index_from(entries, session_id, tool_name, i) >= 0 ==> lookup_from(entries, session_id, tool_name, i)
            == Some(entries[key_index_from(entries, session_id, tool_name, i)].decision),
        key_index_from(entries, session_id, tool_name, i) == -1 ==> forall|j: int|
            i <= j < entries.len() ==> !(#[trigger] entries[j].session_id == session_id && entries[j].tool_name
                == tool_name),
    decreases entries.len() - i,
{
    if 0 <= i < entries.len() {
        lemma_key_index(entries, session_id, tool_name, i + 1);
    }
}

/// With unique keys, the lookup of a pair is the decision at any index
/// holding that pair.
proof fn lemma_lookup_at(entries: Seq<DecisionView>, session_id: Seq<char>, tool_name: Seq<char>, k: int, i: int)
    requires
        keys_unique(entries),
        0 <= i <= k < entries.len(),
        entries[k].session_id == session_id,
        entries[k].tool_name == tool_name,
    ensures
        lookup_from(entries, session_id, tool_name, i) == Some(entries[k].decision),
    decreases k - i,
{
    if i < k {
        assert(!(entries[i].session_id == entries[k].session_id && entries[i].tool_name == entries[k].tool_name));
        lemma_lookup_at(entries, session_id, tool_name, k, i + 1);
    }
}

proof fn lemma_lookup_absent(entries: Seq<DecisionView>, session_id: Seq<char>, tool_name: Seq<char>, i: int)
    requires
        0 <= i,
        forall|j: int| i <= j < entries.len() ==> !(#[trigger] entries[j].session_id == session_id
            && entries[j].tool_name == tool_name),
    ensures
        lookup_from(entries, session_id, tool_name, i) is None,
    decreases entries.len() - i,
{
    if i < entries.len() {
        lemma_lookup_absent(entries, session_id, tool_name, i + 1);
    }
}

/// Remembering a decision keeps keys unique, makes the pair answer with the
/// new decision and leaves every other pair as it was.
proof fn lemma_remember(
    entries: Seq<DecisionView>,
    session_id: Seq<char>,
    tool_name: Seq<char>,
    decision: PersistentPermissionDecision,
    other_session: Seq<char>,
    other_tool: Seq<char>,
)
    requires
        keys_unique(entries),
    ensures
        keys_unique(remember(entries, session_id, tool_name, decision)),
        lookup(remember(entries, session_id, tool_name, decision), session_id, tool_name) == Some(decision),
        !(other_session == session_id && other_tool == tool_name) ==> lookup(
            remember(entries, session_id, tool_name, decision),
            other_session,
            other_tool,
        ) == lookup(entries, other_session, other_tool),
{
    let r = remember(entries, session_id, tool_name, decision);
    let k = key_index_from(entries, session_id, tool_name, 0);
    lemma_key_index(entries, session_id, tool_name, 0);
    lemma_key_index(entries, other_session, other_tool, 0);
    assert forall|i: int, j: int| 0 <= i < j < r.len() implies !(#[trigger] r[i].session_id
        == #[trigger] r[j].session_id && r[i].tool_name == r[j].tool_name) by {
        if k >= 0 {
            if i != k && j != k {
                assert(r[i] == entries[i] && r[j] == entries[j]);
            } else if i == k {
                assert(r[j] == entries[j]);
            } else {
                assert(r[i] == entries[i]);
            }
        } else {
            if j < entries.len() {
                assert(r[i] == entries[i] && r[j] == entries[j]);
            } else {
                assert(r[i] == entries[i]);
            }
        }
    }
    let new_k = if k >= 0 { k } else { entries.len() as int };
    lemma_lookup_at(r, session_id, tool_name, new_k, 0);
    if !(other_session == session_id && other_tool == tool_name) {
        let ok = key_index_from(entries, other_session, other_tool, 0);
        if ok >= 0 {
            assert(r[ok] == entries[ok]);
            lemma_lookup_at(r, other_session, other_tool, ok, 0);
        } else {
            assert forall|j: int| 0 <= j < r.len() implies !(#[trigger] r[j].session_id == other_session
                && r[j].tool_name == other_tool) by {
                if j != new_k {
                    assert(r[j] == entries[j]);
                }
            }
            lemma_lookup_absent(r, other_session, other_tool, 0);
        }
    }
}

fn same_key(entry: &DecisionEntry, session_id: &String, tool_name: &String) -> (r: bool)
    ensures
        r == (entry.session_id@ == session_id@ && entry.tool_name@ == tool_name@),
{
    entry.session_id == *session_id && entry.tool_name == *tool_name
}

impl<P> DefaultPermissionPrompter<P> {
    /// Remembered decisions never hold the same (session, tool) pair twice.
    pub closed spec fn well_formed(&self) -> bool {
        keys_unique(self@.decisions)
    }

    /// A prompter that asks before each call.
    pub fn new(registry: P) -> (r: Self)
        ensures
            r.well_formed(),
            r@.skip_confirmations == false,
            r@.decisions == Seq::<DecisionView>::empty(),
            r.registry_view() == registry,
    {
        Self::with_skip_confirmations(registry, false)
    }

    /// A prompter that, when `skip_confirmations` is set, lets calls through
    /// without asking unless a prompt is forced.
    pub fn with_skip_confirmations(registry: P, skip_confirmations: bool) -> (r: Self)
        ensures
            r.well_formed(),
            r@.skip_confirmations == skip_confirmations,
            r@.decisions == Seq::<DecisionView>::empty(),
            r.registry_view() == registry,
    {
        let r = DefaultPermissionPrompter { registry, skip_confirmations, persistent_decisions: Vec::new() };
        proof {
            assert(r@.decisions =~= Seq::<DecisionView>::empty());
        }
        r
    }

    /// The tool registry that renders action labels.
    pub fn registry(&self) -> (r: &P)
        ensures
            *r == self.registry_view(),
    {
        &self.registry
    }

    /// The registry the prompter was built with.
    pub closed spec fn registry_view(&self) -> P {
        self.registry
    }

    /// Whether confirmations are skipped.
    pub fn skip_confirmations(&self) -> (r: bool)
        ensures
            r == self@.skip_confirmations,
    {
        self.skip_confirmations
    }

    fn permission_key(session_id: &str, tool_name: &str) -> (key: (String, String))
        ensures
            key.0@ == session_id@,
            key.1@ == tool_name@,
    {
        (session_id.to_string(), tool_name.to_string())
    }

    fn key_index(&self, session_id: &String, tool_name: &String) -> (k: Option<usize>)
        ensures
            match k {
                Some(k) => k as int == key_index_from(self@.decisions, session_id@, tool_name@, 0),
                None => key_index_from(self@.decisions, session_id@, tool_name@, 0) == -1,
            },
    {
        let ghost entries = self@.decisions;
        let mut i: usize = 0;
        while i < self.persistent_decisions.len()
            invariant
                i <= self.persistent_decisions.len(),
                entries == entries_view(self.persistent_decisions@),
                key_index_from(entries, session_id@, tool_name@, 0) == key_index_from(
                    entries,
                    session_id@,
                    tool_name@,
                    i as int,
                ),
            decreases self.persistent_decisions.len() - i,
        {
            proof {
                assert(entries[i as int] == self.persistent_decisions@[i as int].view_entry());
            }
            if same_key(&self.persistent_decisions[i], session_id, tool_name) {
                return Some(i);
            }
            i += 1;
        }
        None
    }

    /// The decision remembered for this session and tool, if any.
    pub fn persistent_decision(&self, session_id: &str, tool_name: &str) -> (d: Option<PersistentPermissionDecision>)
        ensures
            d == lookup(self@.decisions, session_id@, tool_name@),
    {
        let key = Self::permission_key(session_id, tool_name);
        proof {
            lemma_key_index(self@.decisions, session_id@, tool_name@, 0);
        }
        match self.key_index(&key.0, &key.1) {
            Some(k) => Some(self.persistent_decisions[k].decision),
            None => None,
        }
    }

    /// Remembers `decision` for this session and tool, replacing any earlier one.
    pub fn remember_persistent_decision(
        &mut self,
        session_id: &str,
        tool_name: &str,
        decision: PersistentPermissionDecision,
    )
        requires
            old(self).well_formed(),
        ensures
            final(self).well_formed(),
            final(self)@.skip_confirmations == old(self)@.skip_confirmations,
            final(self).registry_view() == old(self).registry_view(),
            final(self)@.decisions == remember(old(self)@.decisions, session_id@, tool_name@, decision),
    {
        let key = Self::permission_key(session_id, tool_name);
        let ghost before = self@.decisions;
        proof {
            lemma_key_index(before, session_id@, tool_name@, 0);
            lemma_remember(before, session_id@, tool_name@, decision, session_id@, tool_name@);
        }
        let index = self.key_index(&key.0, &key.1);
        let entry = DecisionEntry { session_id: key.0, tool_name: key.1, decision };
        match index {
            Some(k) => {
                self.persistent_decisions.set(k, entry);
                proof {
                    assert(self@.decisions =~= before.update(k as int, entry.view_entry()));
                }
            },
            None => {
                self.persistent_decisions.push(entry);
                proof {
                    assert(self@.decisions =~= before.push(entry.view_entry()));
                }
            },
        }
    }

    /// The four options for the action: allow or deny, once or always.
    pub fn permission_options_for_action(&self, action_label: &str) -> (options: Vec<PermissionOption>)
        ensures
            options@.map_values(|o: PermissionOption| o@) == options_for_action(action_label@),
    {
        let mut allow_once = String::from_str(TOOL_PERMISSION_ALLOW_PREFIX);
        allow_once.append(" ");
        allow_once.append(action_label);
        allow_once.append(" once");
        let mut allow_always = String::from_str(TOOL_PERMISSION_ALLOW_PREFIX);
        allow_always.append(" ");
        allow_always.append(action_label);
        allow_always.append(" always");
        let mut deny_once = String::from_str(TOOL_PERMISSION_DENY_PREFIX);
        deny_once.append(" ");
        deny_once.append(action_label);
        deny_once.append(" once");
        let mut deny_always = String::from_str(TOOL_PERMISSION_DENY_PREFIX);
        deny_always.append(" ");
        deny_always.append(action_label);
        deny_always.append(" always");
        let mut options: Vec<PermissionOption> = Vec::new();
        options.push(
            PermissionOption {
                option_id: String::from_str(TOOL_PERMISSION_ALLOW_OPTION_ID),
                name: allow_once,
                kind: PermissionOptionKind::AllowOnce,
            },
        );
        options.push(
            PermissionOption {
                option_id: String::from_str(TOOL_PERMISSION_ALLOW_ALWAYS_OPTION_ID),
                name: allow_always,
                kind: PermissionOptionKind::AllowAlways,
            },
        );
        options.push(
            PermissionOption {
                option_id: String::from_str(TOOL_PERMISSION_DENY_OPTION_ID),
                name: deny_once,
                kind: PermissionOptionKind::RejectOnce,
            },
        );
        options.push(
            PermissionOption {
                option_id: String::from_str(TOOL_PERMISSION_DENY_ALWAYS_OPTION_ID),
                name: deny_always,
                kind: PermissionOptionKind::RejectAlways,
            },
        );
        proof {
            assert(options@.map_values(|o: PermissionOption| o@) =~= options_for_action(action_label@));
        }
        options
    }

    /// Decides a call before any prompt: let it through, stop it with a
    /// report, or ask the client with the four options for its action.
    pub fn begin_permission_request(
        &self,
        session_id: &str,
        tool: &PermissionToolContext,
        force_prompt: bool,
    ) -> (step: PermissionStep)
        ensures
            match preflight(self@, session_id@, tool.name_view(), force_prompt) {
                PreflightDecision::Allow => step matches PermissionStep::Resolved(None),
                PreflightDecision::Deny => step matches PermissionStep::Resolved(Some(report)) && report@
                    == failure_view(tool.name_view(), TOOL_PERMISSION_DENIED_MESSAGE@, ToolAuditStatus::Blocked),
                PreflightDecision::Ask => step matches PermissionStep::Prompt(prompt) && prompt.tool_kind
                    == tool.kind_view() && prompt.options@.map_values(|o: PermissionOption| o@)
                    == options_for_action(tool.action_label_view()),
            },
    {
        if self.skip_confirmations && !force_prompt {
            return PermissionStep::Resolved(None);
        }
        if !force_prompt {
            match self.persistent_decision(session_id, tool.name()) {
                Some(PersistentPermissionDecision::Allow) => {
                    return PermissionStep::Resolved(None);
                },
                Some(PersistentPermissionDecision::Reject) => {
                    return PermissionStep::Resolved(
                        Some(ToolExecutionReport::blocked(tool.name(), TOOL_PERMISSION_DENIED_MESSAGE)),
                    );
                },
                None => {},
            }
        }
        PermissionStep::Prompt(
            PermissionPrompt {
                tool_kind: tool.kind(),
                options: self.permission_options_for_action(tool.action_label()),
            },
        )
    }

    /// Turns the client's answer into the call's outcome (`None` lets the
    /// tool run) and remembers "always" answers for this session and tool.
    pub fn finish_permission_request(
        &mut self,
        session_id: &str,
        tool: &PermissionToolContext,
        outcome: &PermissionOutcome,
    ) -> (report: Option<ToolExecutionReport>)
        requires
            old(self).well_formed(),
        ensures
            final(self).well_formed(),
            final(self)@.skip_confirmations == old(self)@.skip_confirmations,
            final(self).registry_view() == old(self).registry_view(),
            final(self)@.decisions == decisions_after(old(self)@.decisions, session_id@, tool.name_view(), outcome@),
            match outcome_report(tool.name_view(), outcome@) {
                None => report is None,
                Some(v) => report matches Some(r) && r@ == v,
            },
    {
        proof {
            lemma_option_ids_distinct();
        }
        match outcome {
            PermissionOutcome::Cancelled => Some(
                ToolExecutionReport::cancelled_with_message(tool.name(), TOOL_PERMISSION_CANCELLED_MESSAGE),
            ),
            PermissionOutcome::Selected(option_id) => {
                if *option_id == String::from_str(TOOL_PERMISSION_ALLOW_OPTION_ID) {
                    None
                } else if *option_id == String::from_str(TOOL_PERMISSION_ALLOW_ALWAYS_OPTION_ID) {
                    self.remember_persistent_decision(session_id, tool.name(), PersistentPermissionDecision::Allow);
                    None
                } else if *option_id == String::from_str(TOOL_PERMISSION_DENY_OPTION_ID) {
                    Some(ToolExecutionReport::blocked(tool.name(), TOOL_PERMISSION_DENIED_MESSAGE))
                } else if *option_id == String::from_str(TOOL_PERMISSION_DENY_ALWAYS_OPTION_ID) {
                    self.remember_persistent_decision(session_id, tool.name(), PersistentPermissionDecision::Reject);
                    Some(ToolExecutionReport::blocked(tool.name(), TOOL_PERMISSION_DENIED_MESSAGE))
                } else {
                    Some(ToolExecutionReport::blocked(tool.name(), TOOL_PERMISSION_DENIED_MESSAGE))
                }
            },
            PermissionOutcome::Unrecognized => Some(
                ToolExecutionReport::blocked(tool.name(), TOOL_PERMISSION_DENIED_MESSAGE),
            ),
            PermissionOutcome::RequestFailed => Some(
                ToolExecutionReport::failure(tool.name(), TOOL_PERMISSION_REQUEST_FAILURE_MESSAGE),
            ),
        }
    }
}

/// Only an "always" answer is remembered: any other answer (allow once,
/// reject once, an unknown option, a cancelled, unrecognised or failed
/// prompt) leaves the remembered decisions as they were, so every later
/// call is decided exactly as it would have been before the answer.
pub proof fn law_one_time_answers_are_not_remembered(
    st: PrompterView,
    session_id: Seq<char>,
    tool_name: Seq<char>,
    outcome: OutcomeView,
    later_session: Seq<char>,
    later_tool: Seq<char>,
    force_prompt: bool,
)
    requires
        outcome != OutcomeView::Selected(TOOL_PERMISSION_ALLOW_ALWAYS_OPTION_ID@),
        outcome != OutcomeView::Selected(TOOL_PERMISSION_DENY_ALWAYS_OPTION_ID@),
    ensures
        decisions_after(st.decisions, session_id, tool_name, outcome) == st.decisions,
        preflight(
            PrompterView {
                skip_confirmations: st.skip_confirmations,
                decisions: decisions_after(st.decisions, session_id, tool_name, outcome),
            },
            later_session,
            later_tool,
            force_prompt,
        ) == preflight(st, later_session, later_tool, force_prompt),
{
}

/// After "allow once", the next unforced call of the same tool in the same
/// session is asked again when nothing was remembered for it and
/// confirmations are not skipped.
pub proof fn law_allow_once_asks_again(st: PrompterView, session_id: Seq<char>, tool_name: Seq<char>)
    requires
        !st.skip_confirmations,
        lookup(st.decisions, session_id, tool_name) is None,
    ensures
        preflight(
            PrompterView {
                skip_confirmations: st.skip_confirmations,
                decisions: decisions_after(
                    st.decisions,
                    session_id,
                    tool_name,
                    OutcomeView::Selected(TOOL_PERMISSION_ALLOW_OPTION_ID@),
                ),
            },
            session_id,
            tool_name,
            false,
        ) is Ask,
{
    lemma_option_ids_distinct();
    law_one_time_answers_are_not_remembered(
        st,
        session_id,
        tool_name,
        OutcomeView::Selected(TOOL_PERMISSION_ALLOW_OPTION_ID@),
        session_id,
        tool_name,
        false,
    );
}

/// The four option ids are pairwise different.
proof fn lemma_option_ids_distinct()
    ensures
        TOOL_PERMISSION_ALLOW_OPTION_ID@ != TOOL_PERMISSION_ALLOW_ALWAYS_OPTION_ID@,
        TOOL_PERMISSION_ALLOW_OPTION_ID@ != TOOL_PERMISSION_DENY_OPTION_ID@,
        TOOL_PERMISSION_ALLOW_OPTION_ID@ != TOOL_PERMISSION_DENY_ALWAYS_OPTION_ID@,
        TOOL_PERMISSION_ALLOW_ALWAYS_OPTION_ID@ != TOOL_PERMISSION_DENY_OPTION_ID@,
        TOOL_PERMISSION_ALLOW_ALWAYS_OPTION_ID@ != TOOL_PERMISSION_DENY_ALWAYS_OPTION_ID@,
        TOOL_PERMISSION_DENY_OPTION_ID@ != TOOL_PERMISSION_DENY_ALWAYS_OPTION_ID@,
{
    reveal_strlit("allow-once");
    reveal_strlit("allow-always");
    reveal_strlit("reject-once");
    reveal_strlit("reject-always");
    assert(TOOL_PERMISSION_ALLOW_OPTION_ID@.len() == 10);
    assert(TOOL_PERMISSION_ALLOW_ALWAYS_OPTION_ID@.len() == 12);
    assert(TOOL_PERMISSION_DENY_OPTION_ID@.len() == 11);
    assert(TOOL_PERMISSION_DENY_ALWAYS_OPTION_ID@.len() == 13);
}

/// With confirmations skipped, an unforced call is let through without a prompt.
pub proof fn law_skip_confirmations_bypass_prompt(st: PrompterView, session_id: Seq<char>, tool_name: Seq<char>)
    requires
        st.skip_confirmations,
    ensures
        preflight(st, session_id, tool_name, false) is Allow,
{
}

/// A forced prompt always asks the client, whatever was skipped or remembered.
pub proof fn law_forced_prompt_always_asks(st: PrompterView, session_id: Seq<char>, tool_name: Seq<char>)
    ensures
        preflight(st, session_id, tool_name, true) is Ask,
{
}

/// After "allow always", later unforced calls of that tool in that session
/// run without a prompt.
pub proof fn law_allow_always_is_reused(st: PrompterView, session_id: Seq<char>, tool_name: Seq<char>)
    requires
        keys_unique(st.decisions),
    ensures
        ({
            let after = PrompterView {
                skip_confirmations: st.skip_confirmations,
                decisions: decisions_after(
                    st.decisions,
                    session_id,
                    tool_name,
                    OutcomeView::Selected(TOOL_PERMISSION_ALLOW_ALWAYS_OPTION_ID@),
                ),
            };
            preflight(after, session_id, tool_name, false) is Allow
        }),
{
    lemma_remember(st.decisions, session_id, tool_name, PersistentPermissionDecision::Allow, session_id, tool_name);
}

/// After "reject always", later unforced calls of that tool in that session
/// are blocked without a prompt (unless confirmations are skipped).
pub proof fn law_reject_always_is_reused(st: PrompterView, session_id: Seq<char>, tool_name: Seq<char>)
    requires
        keys_unique(st.decisions),
        !st.skip_confirmations,
    ensures
        ({
            let after = PrompterView {
                skip_confirmations: st.skip_confirmations,
                decisions: decisions_after(
                    st.decisions,
                    session_id,
                    tool_name,
                    OutcomeView::Selected(TOOL_PERMISSION_DENY_ALWAYS_OPTION_ID@),
                ),
            };
            preflight(after, session_id, tool_name, false) is Deny
        }),
{
    lemma_option_ids_distinct();
    assert(remembered_by(OutcomeView::Selected(TOOL_PERMISSION_DENY_ALWAYS_OPTION_ID@)) == Some(
        PersistentPermissionDecision::Reject,
    ));
    lemma_remember(st.decisions, session_id, tool_name, PersistentPermissionDecision::Reject, session_id, tool_name);
}

/// A remembered decision applies only to its own session and tool.
pub proof fn law_decisions_are_scoped(
    entries: Seq<DecisionView>,
    session_id: Seq<char>,
    tool_name: Seq<char>,
    decision: PersistentPermissionDecision,
    other_session: Seq<char>,
    other_tool: Seq<char>,
)
    requires
        keys_unique(entries),
        !(other_session == session_id && other_tool == tool_name),
    ensures
        lookup(remember(entries, session_id, tool_name, decision), other_session, other_tool) == lookup(
            entries,
            other_session,
            other_tool,
        ),
{
    lemma_remember(entries, session_id, tool_name, decision, other_session, other_tool);
}

} // verus!
