use vtcode_acp::json_value::JsonValue;
use vtcode_acp::transport::{
    check_frame_len, is_blank_frame, pending_key, read_frame, remote_error, BoundedLine, BoundedLineReader,
    FrameAction, SendError, SkipReason, StdioTransportOptions, MAX_JSON_RPC_MESSAGE_BYTES,
};

fn frame(text: &str) -> FrameAction {
    read_frame(&BoundedLine { bytes: text.as_bytes().to_vec(), truncated: false })
}

fn response_key(action: &FrameAction) -> Option<&str> {
    match action {
        FrameAction::Response { key, .. } => Some(key.as_str()),
        _ => None,
    }
}

fn member<'a>(value: &'a JsonValue, key: &str) -> Option<&'a JsonValue> {
    match value {
        JsonValue::Object(members) => members.iter().find(|(k, _)| k == key).map(|(_, v)| v),
        _ => None,
    }
}

/// Reads one bounded line from `data` in chunks of `chunk` bytes, returning
/// the line and how many bytes it consumed.
fn read_line(data: &[u8], max_bytes: usize, chunk: usize) -> (Option<vtcode_acp::transport::BoundedLine>, usize) {
    let mut reader = BoundedLineReader::new(max_bytes);
    let mut offset = 0;
    loop {
        if offset >= data.len() {
            return (reader.finish_at_eof(), offset);
        }
        let end = (offset + chunk).min(data.len());
        let step = reader.step(&data[offset..end]);
        offset += step.consumed;
        if step.complete {
            return (Some(reader.into_line()), offset);
        }
    }
}

#[test]
fn response_id_requires_result_or_error() {
    // Pure notification: no result/error.
    assert!(matches!(
        frame(r#"{"jsonrpc":"2.0","method":"some/notification","params":{}}"#),
        FrameAction::Handler(_)
    ));
    // Server-initiated request with id but no result.
    assert!(matches!(
        frame(r#"{"jsonrpc":"2.0","id":7,"method":"permission.request","params":{}}"#),
        FrameAction::Handler(_)
    ));
    // Response has result.
    assert_eq!(response_key(&frame(r#"{"jsonrpc":"2.0","id":3,"result":{"ok":true}}"#)), Some("3"));
    // Error response.
    assert_eq!(
        response_key(&frame(r#"{"jsonrpc":"2.0","id":5,"error":{"code":-32600,"message":"bad"}}"#)),
        Some("5")
    );
}

#[test]
fn extract_rpc_result_propagates_error() {
    let action = frame(r#"{"jsonrpc":"2.0","id":1,"error":{"code":-32600,"message":"invalid request"}}"#);
    match action {
        FrameAction::Response { key, outcome: Err(error) } => {
            assert_eq!(key, "1");
            assert!(error.message.contains("invalid request"));
            assert_eq!(error.message, "rpc error -32600: invalid request");
            assert_eq!(error.code, -32600);
            assert_eq!(error.agent_id, "stdio");
        }
        other => panic!("expected an error response, got {other:?}"),
    }
    let error = remote_error(Some(-32600), Some("invalid request"));
    assert_eq!(error.message, "rpc error -32600: invalid request");
}

#[test]
fn extract_rpc_result_returns_result_value() {
    match frame(r#"{"jsonrpc":"2.0","id":1,"result":{"sessionId":"abc"}}"#) {
        FrameAction::Response { key, outcome: Ok(result) } => {
            assert_eq!(key, "1");
            assert!(matches!(member(&result, "sessionId"), Some(JsonValue::Text(t)) if t == "abc"));
        }
        other => panic!("expected a result response, got {other:?}"),
    }
}

#[test]
fn skipped_frames_and_their_reasons() {
    let cut = read_frame(&BoundedLine { bytes: b"{\"id\":1,\"result\":1}".to_vec(), truncated: true });
    assert!(matches!(cut, FrameAction::Skip(SkipReason::Truncated)));
    assert!(matches!(frame(" \t\r\n"), FrameAction::Skip(SkipReason::Blank)));
    assert!(matches!(frame("not-json"), FrameAction::Skip(SkipReason::Undecodable)));
    assert!(matches!(frame(r#"{"id":1,"result":1} trailing"#), FrameAction::Skip(SkipReason::Undecodable)));
}

#[test]
fn error_members_of_the_wrong_type_fall_back_to_defaults() {
    match frame(r#"{"id":9,"error":{"code":"x","message":4}}"#) {
        FrameAction::Response { outcome: Err(error), .. } => {
            assert_eq!(error.message, "rpc error 0: unknown error");
            assert_eq!(error.code, 0);
        }
        other => panic!("expected an error response, got {other:?}"),
    }
    match frame(r#"{"id":2,"result":null,"error":{"code":99999999999,"message":"big"}}"#) {
        FrameAction::Response { outcome: Err(error), .. } => assert_eq!(error.code, i32::MAX),
        other => panic!("expected an error response, got {other:?}"),
    }
    match frame(r#"{"id":4,"error":null}"#) {
        FrameAction::Response { outcome, .. } => assert!(outcome.is_err()),
        other => panic!("expected a response, got {other:?}"),
    }
}

#[test]
fn pending_keys_match_response_ids() {
    assert_eq!(pending_key(42), "42");
    assert_eq!(pending_key(-3), "-3");
    assert_eq!(response_key(&frame(r#"{"id":42,"result":[]}"#)), Some(pending_key(42).as_str()));
}

#[test]
fn remote_error_defaults_and_clamps_the_code() {
    let error = remote_error(None, None);
    assert_eq!(error.message, "rpc error 0: unknown error");
    assert_eq!(error.code, 0);
    assert_eq!(remote_error(Some(i64::MAX), Some("x")).code, i32::MAX);
    assert_eq!(remote_error(Some(i64::MIN), Some("x")).code, i32::MIN);
    assert_eq!(remote_error(Some(i64::MIN), Some("x")).message, "rpc error -9223372036854775808: x");
}

#[test]
fn bounded_line_reader_drains_oversized_frames() {
    let max = 4096;
    let mut data = vec![b'x'; max + 32];
    data.extend_from_slice(b"\nnext\n");

    let (first, consumed) = read_line(&data, max, 1000);
    let first = first.expect("first line");
    assert!(first.truncated);
    assert_eq!(first.bytes.len(), max);

    let (second, _) = read_line(&data[consumed..], max, 1000);
    let second = second.expect("second line");
    assert!(!second.truncated);
    assert_eq!(second.bytes, b"next");
}

#[test]
fn line_reader_handles_eof_and_chunk_boundaries() {
    let (line, _) = read_line(b"", 10, 4);
    assert!(line.is_none());
    let (line, consumed) = read_line(b"abc", 10, 2);
    let line = line.expect("unterminated line");
    assert_eq!(line.bytes, b"abc");
    assert!(!line.truncated);
    assert_eq!(consumed, 3);
    let (line, consumed) = read_line(b"hello world\nrest", 5, 3);
    let line = line.expect("line");
    assert_eq!(line.bytes, b"hello");
    assert!(line.truncated);
    assert_eq!(consumed, 12);
}

#[test]
fn blank_frames_are_ascii_whitespace_only() {
    assert!(is_blank_frame(b""));
    assert!(is_blank_frame(b" \t\r\n\x0c"));
    assert!(!is_blank_frame(b" {} "));
    assert!(!is_blank_frame(b"\x0b"));
}

#[test]
fn frames_above_the_limit_are_refused() {
    assert_eq!(MAX_JSON_RPC_MESSAGE_BYTES, 64 * 1024 * 1024);
    assert!(check_frame_len(MAX_JSON_RPC_MESSAGE_BYTES).is_ok());
    assert_eq!(check_frame_len(MAX_JSON_RPC_MESSAGE_BYTES + 1), Err(SendError::FrameTooLarge));
    assert_eq!(
        SendError::FrameTooLarge.message(),
        "stdio transport JSON-RPC frame exceeds 67108864 byte limit"
    );
}

#[test]
fn can_omit_jsonrpc_field_for_codex_mode() {
    assert!(StdioTransportOptions::default().include_jsonrpc_version);
    assert!(!StdioTransportOptions::default().strips_jsonrpc_field());
    assert!(StdioTransportOptions { include_jsonrpc_version: false }.strips_jsonrpc_field());
}

#[test]
fn replies_with_a_string_id_go_to_the_handler() {
    assert!(matches!(frame(r#"{"id":"abc","result":1}"#), FrameAction::Handler(_)));
    assert!(matches!(frame(r#"{"id":"7","error":{"code":1}}"#), FrameAction::Handler(_)));
    assert!(matches!(frame(r#"{"result":1}"#), FrameAction::Handler(_)));
    assert!(matches!(frame(r#"[1,2]"#), FrameAction::Handler(_)));
}
