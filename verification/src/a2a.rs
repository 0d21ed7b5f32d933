//! The HTTP statuses of A2A error responses, the response to a request
//! that failed authentication, and the streaming endpoint's checks on a
//! request and on the events it forwards.

use vstd::prelude::*;

use crate::text::str_eq;

verus! {

/// The JSON-RPC error code of an A2A RPC error.
#[derive(Clone, Copy, Debug, PartialEq, Eq, Structural)]
pub enum A2aErrorCode {
    JsonParseError,
    InvalidRequest,
    MethodNotFound,
    InvalidParams,
    /// Any other code.
    Other,
}

/// What went wrong while serving an A2A request.
#[derive(Clone, Copy, Debug, PartialEq, Eq, Structural)]
pub enum A2aErrorKind {
    /// A JSON-RPC level error with its code.
    Rpc(A2aErrorCode),
    TaskNotFound,
    TaskNotCancelable,
    InvalidStateTransition,
    /// Any other failure.
    Other,
}

pub const BAD_REQUEST: u16 = 400;
pub const UNAUTHORIZED: u16 = 401;
pub const NOT_FOUND: u16 = 404;
pub const UNPROCESSABLE_ENTITY: u16 = 422;
pub const INTERNAL_SERVER_ERROR: u16 = 500;

/// The HTTP status of an error response.
pub open spec fn status_for(kind: A2aErrorKind) -> u16 {
    match kind {
        A2aErrorKind::Rpc(code) => match code {
            A2aErrorCode::InvalidRequest | A2aErrorCode::InvalidParams | A2aErrorCode::JsonParseError =>
                BAD_REQUEST,
            A2aErrorCode::MethodNotFound => NOT_FOUND,
            A2aErrorCode::Other => INTERNAL_SERVER_ERROR,
        },
        A2aErrorKind::TaskNotFound => NOT_FOUND,
        A2aErrorKind::TaskNotCancelable | A2aErrorKind::InvalidStateTransition => UNPROCESSABLE_ENTITY,
        A2aErrorKind::Other => INTERNAL_SERVER_ERROR,
    }
}

/// The HTTP status of the response for an error: client mistakes are bad
/// requests, unknown methods and tasks are not found, impossible task
/// transitions are unprocessable, anything else is an internal error.
pub fn error_status_code(kind: A2aErrorKind) -> (s: u16)
    ensures
        s == status_for(kind),
{
    match kind {
        A2aErrorKind::Rpc(code) => match code {
            A2aErrorCode::InvalidRequest | A2aErrorCode::InvalidParams | A2aErrorCode::JsonParseError =>
                BAD_REQUEST,
            A2aErrorCode::MethodNotFound => NOT_FOUND,
            A2aErrorCode::Other => INTERNAL_SERVER_ERROR,
        },
        A2aErrorKind::TaskNotFound => NOT_FOUND,
        A2aErrorKind::TaskNotCancelable | A2aErrorKind::InvalidStateTransition => UNPROCESSABLE_ENTITY,
        A2aErrorKind::Other => INTERNAL_SERVER_ERROR,
    }
}

/// The JSON-RPC code of the error sent to an unauthenticated request.
pub const AUTHENTICATION_REQUIRED_CODE: i32 = -32600;

/// The message of the error sent to an unauthenticated request.
pub const AUTHENTICATION_REQUIRED_MESSAGE: &'static str = "Authentication required";

/// The challenge sent in `WWW-Authenticate` to an unauthenticated request.
pub const AUTHENTICATION_CHALLENGE: &'static str = "Bearer";

/// What the server does with a request to a protected endpoint.
#[derive(Clone, Copy, Debug, PartialEq, Eq, Structural)]
pub enum ProtectedRequest {
    /// The request goes on to its handler.
    Proceed,
    /// The request is answered with `401 Unauthorized`, the JSON-RPC error
    /// `-32600 Authentication required` and a `Bearer` challenge.
    Reject,
}

/// A protected endpoint serves a request only when it authenticated.
pub fn protected_request(authenticated: bool) -> (r: ProtectedRequest)
    ensures
        r == if authenticated {
            ProtectedRequest::Proceed
        } else {
            ProtectedRequest::Reject
        },
{
    if authenticated {
        ProtectedRequest::Proceed
    } else {
        ProtectedRequest::Reject
    }
}

/// The JSON-RPC version a request must name.
pub const JSONRPC_VERSION: &'static str = "2.0";

/// The method the streaming endpoint serves.
pub const METHOD_MESSAGE_STREAM: &'static str = "message/stream";

/// How the streaming endpoint answers a request with version `jsonrpc` and
/// method `method` whose parameters parse when `params_ok`.
pub open spec fn stream_request_spec(jsonrpc: Seq<char>, method: Seq<char>, params_ok: bool) -> Result<
    (),
    A2aErrorKind,
> {
    if jsonrpc != JSONRPC_VERSION@ {
        Err(A2aErrorKind::Rpc(A2aErrorCode::InvalidRequest))
    } else if method != METHOD_MESSAGE_STREAM@ {
        Err(A2aErrorKind::Rpc(A2aErrorCode::MethodNotFound))
    } else if !params_ok {
        Err(A2aErrorKind::Rpc(A2aErrorCode::InvalidRequest))
    } else {
        Ok(())
    }
}

/// Checks a request to the streaming endpoint: a wrong JSON-RPC version is
/// an invalid request, another method is not found, parameters that do not
/// parse are an invalid request (the status of each follows from
/// [`error_status_code`]).
pub fn stream_request_check(jsonrpc: &str, method: &str, params_ok: bool) -> (r: Result<(), A2aErrorKind>)
    ensures
        r == stream_request_spec(jsonrpc@, method@, params_ok),
{
    if !str_eq(jsonrpc, JSONRPC_VERSION) {
        Err(A2aErrorKind::Rpc(A2aErrorCode::InvalidRequest))
    } else if !str_eq(method, METHOD_MESSAGE_STREAM) {
        Err(A2aErrorKind::Rpc(A2aErrorCode::MethodNotFound))
    } else if !params_ok {
        Err(A2aErrorKind::Rpc(A2aErrorCode::InvalidRequest))
    } else {
        Ok(())
    }
}

/// The kind of an event on the server's broadcast channel.
#[derive(Clone, Copy, Debug, PartialEq, Eq, Structural)]
pub enum StreamEventKind {
    Message,
    TaskStatus,
    TaskArtefact,
    /// Any other event.
    Other,
}

/// What a stream does with an event.
#[derive(Clone, Copy, Debug, PartialEq, Eq, Structural)]
pub enum StreamStep {
    /// The event is for another task or context.
    Skip,
    /// The event is sent on the stream.
    Emit,
    /// The event is sent, and the stream ends after it.
    EmitAndEnd,
}

pub open spec fn opt_str_view(o: Option<&str>) -> Option<Seq<char>> {
    match o {
        Some(s) => Some(s@),
        None => None,
    }
}

/// Whether an event belongs to a stream for task `task` in context `ctx`:
/// a message when its context is the stream's (both absent included), a
/// status or artefact update when its task is the stream's.
pub open spec fn event_matches(
    kind: StreamEventKind,
    event_task: Option<Seq<char>>,
    event_ctx: Option<Seq<char>>,
    task: Seq<char>,
    ctx: Option<Seq<char>>,
) -> bool {
    match kind {
        StreamEventKind::Message => event_ctx == ctx,
        StreamEventKind::TaskStatus | StreamEventKind::TaskArtefact => event_task == Some(task),
        StreamEventKind::Other => false,
    }
}

fn opt_str_eq(a: Option<&str>, b: Option<&str>) -> (r: bool)
    ensures
        r == (opt_str_view(a) == opt_str_view(b)),
{
    match (a, b) {
        (Some(x), Some(y)) => str_eq(x, y),
        (None, None) => true,
        _ => false,
    }
}

/// What a stream for task `task` in context `ctx` does with an event of
/// kind `kind` for task `event_task` in context `event_ctx`: events of
/// other tasks and contexts are skipped; a matching event is sent, and a
/// final one ends the stream.
pub fn stream_event_step(
    kind: StreamEventKind,
    event_task: Option<&str>,
    event_ctx: Option<&str>,
    task: &str,
    ctx: Option<&str>,
    is_final: bool,
) -> (s: StreamStep)
    ensures
        s == if !event_matches(kind, opt_str_view(event_task), opt_str_view(event_ctx), task@, opt_str_view(ctx)) {
            StreamStep::Skip
        } else if is_final {
            StreamStep::EmitAndEnd
        } else {
            StreamStep::Emit
        },
{
    let matches = match kind {
        StreamEventKind::Message => opt_str_eq(event_ctx, ctx),
        StreamEventKind::TaskStatus | StreamEventKind::TaskArtefact => opt_str_eq(event_task, Some(task)),
        StreamEventKind::Other => false,
    };
    if !matches {
        StreamStep::Skip
    } else if is_final {
        StreamStep::EmitAndEnd
    } else {
        StreamStep::Emit
    }
}

} // verus!
