use vtcode_acp::sessions::{list_sessions_page, listable_sessions, ListingCandidate};
use vtcode_acp::sessions::{
    session_cursor, session_list_offset, session_list_page, session_list_response, SessionListError,
    SESSION_LIST_PAGE_SIZE,
};

#[test]
fn session_list_rejects_unknown_cursor() {
    let result = session_list_response(Some("not-a-vtcode-cursor"), Vec::<String>::new());
    assert!(result.is_err());
}

#[test]
fn session_list_cursor_advances_to_the_next_page() {
    let listings = (0..=SESSION_LIST_PAGE_SIZE).map(|index| format!("session-{index}")).collect::<Vec<_>>();

    let first = session_list_response(None, listings.clone()).unwrap();
    assert_eq!(first.sessions.len(), SESSION_LIST_PAGE_SIZE);
    let cursor = first.next_cursor.expect("first page should provide a cursor");

    let second = session_list_response(Some(&cursor), listings).unwrap();
    assert_eq!(second.sessions.len(), 1);
    assert!(second.next_cursor.is_none());
}

#[test]
fn cursor_text_round_trips() {
    assert_eq!(session_cursor(100), "offset:100");
    for offset in [0usize, 7, 100, 12_345, usize::MAX] {
        assert_eq!(session_list_offset(Some(&session_cursor(offset))), Ok(offset));
    }
}

#[test]
fn cursor_parsing_follows_integer_parsing() {
    assert_eq!(session_list_offset(None), Ok(0));
    assert_eq!(session_list_offset(Some("offset:+5")), Ok(5));
    assert_eq!(session_list_offset(Some("offset:007")), Ok(7));
    assert_eq!(session_list_offset(Some("offset:")), Err(SessionListError::InvalidCursor));
    assert_eq!(session_list_offset(Some("offset:-1")), Err(SessionListError::InvalidCursor));
    assert_eq!(session_list_offset(Some("offset: 1")), Err(SessionListError::InvalidCursor));
    assert_eq!(session_list_offset(Some("Offset:1")), Err(SessionListError::InvalidCursor));
    assert_eq!(
        session_list_offset(Some("offset:99999999999999999999999")),
        Err(SessionListError::InvalidCursor)
    );
    assert_eq!(SessionListError::InvalidCursor.message(), "invalid session list cursor");
}

#[test]
fn pages_past_the_end_are_empty() {
    let page = session_list_page(vec![1, 2, 3], 3);
    assert!(page.sessions.is_empty());
    assert!(page.next_cursor.is_none());
    let page = session_list_page(vec![1, 2, 3], 1);
    assert_eq!(page.sessions, vec![2, 3]);
}

#[test]
fn consecutive_pages_cover_every_session_once() {
    let sessions: Vec<usize> = (0..250).collect();
    let mut seen = Vec::new();
    let mut cursor: Option<String> = None;
    loop {
        let page = session_list_response(cursor.as_deref(), sessions.clone()).unwrap();
        seen.extend(page.sessions);
        match page.next_cursor {
            Some(next) => cursor = Some(next),
            None => break,
        }
    }
    assert_eq!(seen, sessions);
}

#[test]
fn listings_keep_the_requested_workspace_and_absolute_paths() {
    let candidate = |session: u32, matches_workspace: bool, has_absolute_cwd: bool| ListingCandidate {
        session,
        matches_workspace,
        has_absolute_cwd,
    };
    let all = || vec![candidate(1, true, true), candidate(2, false, true), candidate(3, true, false), candidate(4, true, true)];
    assert_eq!(listable_sessions(all(), true), vec![1, 4]);
    assert_eq!(listable_sessions(all(), false), vec![1, 2, 4]);
    let page = list_sessions_page(Some("offset:1"), all(), false).unwrap();
    assert_eq!(page.sessions, vec![2, 4]);
    assert!(page.next_cursor.is_none());
    assert!(list_sessions_page(Some("bad"), all(), false).is_err());
}
