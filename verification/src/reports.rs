//! Tool execution reports: what the model sees, what the client renders and
//! what the audit log records for one tool call.

use vstd::prelude::*;

use crate::json::{json_string_literal, quote_json_string};

verus! {

pub const TOOL_FAILURE_PREFIX: &'static str = "Tool execution failed";
pub const TOOL_EXECUTION_CANCELLED_MESSAGE: &'static str = "Tool execution cancelled at the client's request";
pub const TOOL_PERMISSION_ALLOW_OPTION_ID: &'static str = "allow-once";
pub const TOOL_PERMISSION_ALLOW_ALWAYS_OPTION_ID: &'static str = "allow-always";
pub const TOOL_PERMISSION_DENY_OPTION_ID: &'static str = "reject-once";
pub const TOOL_PERMISSION_DENY_ALWAYS_OPTION_ID: &'static str = "reject-always";
pub const TOOL_PERMISSION_ALLOW_PREFIX: &'static str = "Allow";
pub const TOOL_PERMISSION_DENY_PREFIX: &'static str = "Deny";
pub const TOOL_PERMISSION_DENIED_MESSAGE: &'static str = "Tool execution cancelled: permission denied by the user";
pub const TOOL_PERMISSION_CANCELLED_MESSAGE: &'static str =
    "Tool execution cancelled: permission request interrupted";
pub const TOOL_PERMISSION_REQUEST_FAILURE_MESSAGE: &'static str =
    "Tool execution cancelled: permission request failed";

/// Lifecycle status of a tool call as shown to the client.
#[derive(Clone, Copy, Debug, PartialEq, Eq, Structural)]
pub enum ToolCallStatus {
    Pending,
    InProgress,
    Completed,
    Failed,
}

/// Outcome recorded in the tool audit log.
#[derive(Clone, Copy, Debug, PartialEq, Eq, Structural)]
pub enum ToolAuditStatus {
    Success,
    Failure,
    Blocked,
    Cancelled,
}

/// A block of tool call content shown to the client.
#[derive(Debug)]
pub enum ToolContent {
    Text(String),
    Diff { path: String, old_text: Option<String>, new_text: String },
}

/// A file location a tool call touched.
#[derive(Debug)]
pub struct ToolCallLocation {
    pub path: String,
    pub line: Option<u32>,
}

/// The report for one tool call.
#[derive(Debug)]
pub struct ToolExecutionReport {
    pub status: ToolCallStatus,
    /// The text handed back to the model.
    pub llm_response: String,
    pub content: Vec<ToolContent>,
    pub locations: Vec<ToolCallLocation>,
    /// The structured payload, as JSON text.
    pub raw_output: Option<String>,
    pub audit_status: ToolAuditStatus,
}

pub enum ContentView {
    Text(Seq<char>),
    Diff { path: Seq<char>, old_text: Option<Seq<char>>, new_text: Seq<char> },
}

pub struct LocationView {
    pub path: Seq<char>,
    pub line: Option<u32>,
}

pub struct ReportView {
    pub status: ToolCallStatus,
    pub llm_response: Seq<char>,
    pub content: Seq<ContentView>,
    pub locations: Seq<LocationView>,
    pub raw_output: Option<Seq<char>>,
    pub audit_status: ToolAuditStatus,
}

pub open spec fn opt_text(o: Option<String>) -> Option<Seq<char>> {
    match o {
        Some(s) => Some(s@),
        None => None,
    }
}

impl View for ToolContent {
    type V = ContentView;

    open spec fn view(&self) -> ContentView {
        match self {
            ToolContent::Text(t) => ContentView::Text(t@),
            ToolContent::Diff { path, old_text, new_text } => ContentView::Diff {
                path: path@,
                old_text: opt_text(*old_text),
                new_text: new_text@,
            },
        }
    }
}

impl View for ToolCallLocation {
    type V = LocationView;

    open spec fn view(&self) -> LocationView {
        LocationView { path: self.path@, line: self.line }
    }
}

impl View for ToolExecutionReport {
    type V = ReportView;

    open spec fn view(&self) -> ReportView {
        ReportView {
            status: self.status,
            llm_response: self.llm_response@,
            content: self.content@.map_values(|c: ToolContent| c@),
            locations: self.locations@.map_values(|l: ToolCallLocation| l@),
            raw_output: opt_text(self.raw_output),
            audit_status: self.audit_status,
        }
    }
}

/// The JSON error payload `{"status":"error","tool":…,"message":…}`.
pub open spec fn failure_payload(tool_name: Seq<char>, message: Seq<char>) -> Seq<char> {
    "{\"status\":\"error\",\"tool\":"@ + json_string_literal(tool_name) + ",\"message\":"@
        + json_string_literal(message) + "}"@
}

/// The failure report for `tool_name` with `message`, audited as `audit`.
pub open spec fn failure_view(tool_name: Seq<char>, message: Seq<char>, audit: ToolAuditStatus) -> ReportView {
    ReportView {
        status: ToolCallStatus::Failed,
        llm_response: failure_payload(tool_name, message),
        content: seq![ContentView::Text(TOOL_FAILURE_PREFIX@ + ": "@ + message)],
        locations: Seq::empty(),
        raw_output: Some(failure_payload(tool_name, message)),
        audit_status: audit,
    }
}

fn failure_payload_text(tool_name: &str, message: &str) -> (r: String)
    ensures
        r@ == failure_payload(tool_name@, message@),
{
    let mut payload = String::from_str("{\"status\":\"error\",\"tool\":");
    let tool = quote_json_string(tool_name);
    payload.append(tool.as_str());
    payload.append(",\"message\":");
    let quoted = quote_json_string(message);
    payload.append(quoted.as_str());
    payload.append("}");
    payload
}

impl ToolExecutionReport {
    /// A completed call: the payload text goes to the model and into the raw
    /// output, the content and locations to the client.
    pub fn success(content: Vec<ToolContent>, locations: Vec<ToolCallLocation>, payload: String) -> (r: Self)
        ensures
            r@ == (ReportView {
                status: ToolCallStatus::Completed,
                llm_response: payload@,
                content: content@.map_values(|c: ToolContent| c@),
                locations: locations@.map_values(|l: ToolCallLocation| l@),
                raw_output: Some(payload@),
                audit_status: ToolAuditStatus::Success,
            }),
    {
        let raw = payload.clone();
        ToolExecutionReport {
            status: ToolCallStatus::Completed,
            llm_response: payload,
            content,
            locations,
            raw_output: Some(raw),
            audit_status: ToolAuditStatus::Success,
        }
    }

    /// A failed call, audited as a failure.
    pub fn failure(tool_name: &str, message: &str) -> (r: Self)
        ensures
            r@ == failure_view(tool_name@, message@, ToolAuditStatus::Failure),
    {
        let payload = failure_payload_text(tool_name, message);
        let mut text = String::from_str(TOOL_FAILURE_PREFIX);
        text.append(": ");
        text.append(message);
        let mut content: Vec<ToolContent> = Vec::new();
        content.push(ToolContent::Text(text));
        let r = ToolExecutionReport {
            status: ToolCallStatus::Failed,
            llm_response: payload.clone(),
            content,
            locations: Vec::new(),
            raw_output: Some(payload),
            audit_status: ToolAuditStatus::Failure,
        };
        proof {
            assert(r@.content =~= seq![ContentView::Text(TOOL_FAILURE_PREFIX@ + ": "@ + message@)]);
            assert(r@.locations =~= Seq::<LocationView>::empty());
        }
        r
    }

    /// A call stopped by policy or by the user, audited as blocked.
    pub fn blocked(tool_name: &str, message: &str) -> (r: Self)
        ensures
            r@ == failure_view(tool_name@, message@, ToolAuditStatus::Blocked),
    {
        let mut report = Self::failure(tool_name, message);
        report.audit_status = ToolAuditStatus::Blocked;
        report
    }

    /// A call cancelled at the client's request.
    pub fn cancelled(tool_name: &str) -> (r: Self)
        ensures
            r@ == failure_view(tool_name@, TOOL_EXECUTION_CANCELLED_MESSAGE@, ToolAuditStatus::Cancelled),
    {
        Self::cancelled_with_message(tool_name, TOOL_EXECUTION_CANCELLED_MESSAGE)
    }

    /// A cancelled call with a specific explanation.
    pub fn cancelled_with_message(tool_name: &str, message: &str) -> (r: Self)
        ensures
            r@ == failure_view(tool_name@, message@, ToolAuditStatus::Cancelled),
    {
        let mut report = Self::failure(tool_name, message);
        report.audit_status = ToolAuditStatus::Cancelled;
        report
    }
}

/// Diff content for a file edit: the path, the previous text when the file
/// existed, and the new text.
pub fn create_diff_content(path: &str, old_text: Option<&str>, new_text: &str) -> (c: ToolContent)
    ensures
        c@ == (ContentView::Diff {
            path: path@,
            old_text: match old_text {
                Some(t) => Some(t@),
                None => None,
            },
            new_text: new_text@,
        }),
{
    let old = match old_text {
        Some(t) => Some(t.to_string()),
        None => None,
    };
    ToolContent::Diff { path: path.to_string(), old_text: old, new_text: new_text.to_string() }
}

/// The post-tool lifecycle hook runs only after a successful completion.
pub fn should_run_post_tool_hook(status: &ToolCallStatus) -> (r: bool)
    ensures
        r == (*status == ToolCallStatus::Completed),
{
    match status {
        ToolCallStatus::Completed => true,
        _ => false,
    }
}

/// The fields of a tool call update built from a report: the status
/// always, the content, locations and raw output only when there are any.
#[derive(Debug)]
pub struct ToolCallUpdateFields {
    pub status: ToolCallStatus,
    pub content: Option<Vec<ToolContent>>,
    pub locations: Option<Vec<ToolCallLocation>>,
    pub raw_output: Option<String>,
}

/// The update of a tool call that a report finishes.
pub fn update_fields_from_report(report: ToolExecutionReport) -> (f: ToolCallUpdateFields)
    ensures
        f.status == report@.status,
        f.content is Some <==> report@.content.len() > 0,
        f.content matches Some(c) ==> c@.map_values(|x: ToolContent| x@) == report@.content,
        f.locations is Some <==> report@.locations.len() > 0,
        f.locations matches Some(l) ==> l@.map_values(|x: ToolCallLocation| x@)
            == report@.locations,
        opt_text(f.raw_output) == report@.raw_output,
{
    let ToolExecutionReport { status, llm_response: _, content, locations, raw_output, audit_status: _ } =
        report;
    let content = if content.len() > 0 {
        Some(content)
    } else {
        None
    };
    let locations = if locations.len() > 0 {
        Some(locations)
    } else {
        None
    };
    ToolCallUpdateFields { status, content, locations, raw_output }
}

/// The name of a requested tool, or `unknown` when the call names none.
pub fn tool_name_or_unknown(function_name: Option<&str>) -> (s: &str)
    ensures
        s@ == match function_name {
            Some(n) => n@,
            None => "unknown"@,
        },
{
    match function_name {
        Some(n) => n,
        None => "unknown",
    }
}

} // verus!
