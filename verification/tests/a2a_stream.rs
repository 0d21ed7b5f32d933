use vtcode_acp::a2a::{
    error_status_code, stream_event_step, stream_request_check, A2aErrorCode, A2aErrorKind, StreamEventKind,
    StreamStep,
};

#[test]
fn stream_requests_are_checked_in_order() {
    assert_eq!(stream_request_check("2.0", "message/stream", true), Ok(()));
    let wrong_version = stream_request_check("1.0", "unknown", false).unwrap_err();
    assert_eq!(wrong_version, A2aErrorKind::Rpc(A2aErrorCode::InvalidRequest));
    assert_eq!(error_status_code(wrong_version), 400);
    let wrong_method = stream_request_check("2.0", "message/send", false).unwrap_err();
    assert_eq!(wrong_method, A2aErrorKind::Rpc(A2aErrorCode::MethodNotFound));
    assert_eq!(error_status_code(wrong_method), 404);
    let bad_params = stream_request_check("2.0", "message/stream", false).unwrap_err();
    assert_eq!(bad_params, A2aErrorKind::Rpc(A2aErrorCode::InvalidRequest));
    assert_eq!(error_status_code(bad_params), 400);
}

#[test]
fn only_the_streams_own_events_are_forwarded() {
    let step = |kind, task, ctx, is_final| stream_event_step(kind, task, ctx, "task-1", Some("ctx-1"), is_final);
    assert_eq!(step(StreamEventKind::TaskStatus, Some("task-1"), None, false), StreamStep::Emit);
    assert_eq!(step(StreamEventKind::TaskStatus, Some("task-2"), Some("ctx-1"), true), StreamStep::Skip);
    assert_eq!(step(StreamEventKind::TaskArtefact, Some("task-1"), None, true), StreamStep::EmitAndEnd);
    assert_eq!(step(StreamEventKind::Message, None, Some("ctx-1"), false), StreamStep::Emit);
    assert_eq!(step(StreamEventKind::Message, Some("task-1"), Some("ctx-2"), false), StreamStep::Skip);
    assert_eq!(step(StreamEventKind::Other, Some("task-1"), Some("ctx-1"), true), StreamStep::Skip);
    assert_eq!(stream_event_step(StreamEventKind::Message, None, None, "t", None, true), StreamStep::EmitAndEnd);
    assert_eq!(stream_event_step(StreamEventKind::Message, None, Some("c"), "t", None, false), StreamStep::Skip);
}
