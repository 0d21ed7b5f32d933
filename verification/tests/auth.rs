use vtcode_acp::a2a::{error_status_code, protected_request, A2aErrorCode, A2aErrorKind, ProtectedRequest};
use vtcode_acp::auth::{has_valid_bearer_auth, header_value_authenticates, AuthToken, AuthTokenError};

fn token(text: &str) -> AuthToken {
    AuthToken::from_value(text.to_string()).expect("valid auth token")
}

#[test]
fn test_server_state_rejects_invalid_auth_token() {
    let result = AuthToken::from_value(" ".to_string());

    assert!(result.is_err());
}

#[test]
fn test_server_state_debug_redacts_auth_token() {
    let token = token("test-token");

    let debug = token.redacted_text();
    assert!(!debug.contains("test-token"));
    assert!(debug.contains("REDACTED"));
}

#[test]
fn test_error_response_task_not_found() {
    assert_eq!(error_status_code(A2aErrorKind::TaskNotFound), 404);
}

#[test]
fn test_error_response_task_not_cancelable() {
    assert_eq!(error_status_code(A2aErrorKind::TaskNotCancelable), 422);
}

#[test]
fn test_error_response_invalid_request() {
    assert_eq!(error_status_code(A2aErrorKind::Rpc(A2aErrorCode::InvalidRequest)), 400);
}

#[test]
fn other_error_statuses() {
    assert_eq!(error_status_code(A2aErrorKind::Rpc(A2aErrorCode::MethodNotFound)), 404);
    assert_eq!(error_status_code(A2aErrorKind::Rpc(A2aErrorCode::InvalidParams)), 400);
    assert_eq!(error_status_code(A2aErrorKind::Rpc(A2aErrorCode::JsonParseError)), 400);
    assert_eq!(error_status_code(A2aErrorKind::Rpc(A2aErrorCode::Other)), 500);
    assert_eq!(error_status_code(A2aErrorKind::InvalidStateTransition), 422);
    assert_eq!(error_status_code(A2aErrorKind::Other), 500);
}

#[test]
fn tokens_must_be_non_empty_ascii_without_whitespace() {
    assert_eq!(AuthToken::from_value(String::new()).err(), Some(AuthTokenError::InvalidToken));
    assert!(AuthToken::from_value("with space".to_string()).is_err());
    assert!(AuthToken::from_value("tab\there".to_string()).is_err());
    assert!(AuthToken::from_value("caf\u{e9}".to_string()).is_err());
    assert_eq!(token("abc-123_XYZ").as_str(), "abc-123_XYZ");
    assert_eq!(
        AuthTokenError::InvalidToken.message(),
        "A2A authentication token must be non-empty ASCII text without whitespace"
    );
}

#[test]
fn generated_token_is_a_hyphenated_uuid() {
    let token = AuthToken::generated();
    let text = token.as_str();
    assert_eq!(text.len(), 36);
    for (index, c) in text.chars().enumerate() {
        if [8, 13, 18, 23].contains(&index) {
            assert_eq!(c, '-');
        } else {
            assert!(c.is_ascii_hexdigit() && !c.is_ascii_uppercase());
        }
    }
    assert!(AuthToken::from_value(text.to_string()).is_ok());
    assert_ne!(AuthToken::generated().as_str(), text);
}

#[test]
fn token_matches_exactly_its_own_text() {
    let token = token("test-token");
    assert!(token.matches("test-token"));
    assert!(!token.matches("test-token2"));
    assert!(!token.matches("test-toke"));
    assert!(!token.matches("TEST-TOKEN"));
    assert!(!token.matches(""));
}

#[test]
fn bearer_header_is_checked_like_the_protected_endpoints_do() {
    let token = token("test-token");
    assert!(header_value_authenticates(&token, "Bearer test-token"));
    assert!(header_value_authenticates(&token, "bearer test-token"));
    assert!(!header_value_authenticates(&token, "Bearer wrong-token"));
    assert!(!header_value_authenticates(&token, "Bearer  test-token"));
    assert!(!header_value_authenticates(&token, "Bearer test-token "));
    assert!(!header_value_authenticates(&token, "Basic test-token"));
    assert!(!header_value_authenticates(&token, "Bearer"));
    assert!(!header_value_authenticates(&token, "Bearer "));
}

#[test]
fn exactly_one_authorization_header_is_accepted() {
    let token = token("test-token");
    let one = vec![Some("Bearer test-token".to_string())];
    let duplicate = vec![Some("Bearer test-token".to_string()), Some("Bearer test-token".to_string())];
    let opaque = vec![None];
    assert!(has_valid_bearer_auth(&token, &one));
    assert!(!has_valid_bearer_auth(&token, &duplicate));
    assert!(!has_valid_bearer_auth(&token, &Vec::new()));
    assert!(!has_valid_bearer_auth(&token, &opaque));
}

#[test]
fn unauthenticated_requests_are_rejected() {
    assert_eq!(protected_request(true), ProtectedRequest::Proceed);
    assert_eq!(protected_request(false), ProtectedRequest::Reject);
}
