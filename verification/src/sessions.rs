//! Paging of the durable session list: a cursor names the offset of the next
//! page, and each page holds at most a fixed number of sessions.

use vstd::prelude::*;

use crate::decimal::{decimal, law_decimal_round_trip, parse_usize, parse_usize_spec, push_decimal};
use crate::text::{has_prefix, strip_prefix};

verus! {

/// The largest number of sessions in one page.
pub const SESSION_LIST_PAGE_SIZE: usize = 100;

/// Every cursor starts with this text, followed by the decimal offset.
pub const CURSOR_PREFIX: &'static str = "offset:";

/// Why a session list request was refused.
#[derive(Debug, Clone, Copy, PartialEq, Eq, Structural)]
pub enum SessionListError {
    /// The cursor is not one this agent hands out.
    InvalidCursor,
}

impl SessionListError {
    pub fn message(&self) -> (s: &'static str)
        ensures
            s@ == "invalid session list cursor"@,
    {
        "invalid session list cursor"
    }
}

/// The offset a cursor names: the decimal number after `offset:`.
pub open spec fn cursor_offset(cursor: Seq<char>) -> Option<usize> {
    if has_prefix(cursor, CURSOR_PREFIX@) {
        parse_usize_spec(cursor.subrange(CURSOR_PREFIX@.len() as int, cursor.len() as int))
    } else {
        None
    }
}

/// The cursor that names `offset`.
pub open spec fn cursor_text(offset: nat) -> Seq<char> {
    CURSOR_PREFIX@ + decimal(offset)
}

/// The offset where a listing starts: zero without a cursor, the cursor's
/// offset otherwise.
pub fn session_list_offset(cursor: Option<&str>) -> (r: Result<usize, SessionListError>)
    ensures
        cursor is None ==> r == Ok::<usize, SessionListError>(0),
        cursor matches Some(c) ==> match cursor_offset(c@) {
            Some(n) => r == Ok::<usize, SessionListError>(n),
            None => r == Err::<usize, SessionListError>(SessionListError::InvalidCursor),
        },
{
    let cursor = match cursor {
        Some(c) => c,
        None => return Ok(0),
    };
    match strip_prefix(cursor, CURSOR_PREFIX) {
        Some(rest) => match parse_usize(rest) {
            Some(n) => Ok(n),
            None => Err(SessionListError::InvalidCursor),
        },
        None => Err(SessionListError::InvalidCursor),
    }
}

/// The cursor that names `offset`.
pub fn session_cursor(offset: usize) -> (s: String)
    ensures
        s@ == cursor_text(offset as nat),
{
    let mut s = String::from_str(CURSOR_PREFIX);
    push_decimal(&mut s, offset as u64);
    s
}

/// A cursor handed out names the offset it was made from.
pub proof fn law_cursor_round_trip(offset: usize)
    ensures
        cursor_offset(cursor_text(offset as nat)) == Some(offset),
{
    let text = cursor_text(offset as nat);
    reveal_strlit("offset:");
    assert(text.subrange(0, 7) =~= CURSOR_PREFIX@);
    assert(text.subrange(7, text.len() as int) =~= decimal(offset as nat));
    law_decimal_round_trip(offset);
}

/// One page of sessions.
#[derive(Debug)]
pub struct SessionPage<T> {
    pub sessions: Vec<T>,
    /// The cursor of the next page, when there is one.
    pub next_cursor: Option<String>,
}

/// The sessions of the page that starts at `offset`.
pub open spec fn page_of<T>(sessions: Seq<T>, offset: int) -> Seq<T> {
    if offset >= sessions.len() {
        Seq::empty()
    } else if sessions.len() - offset <= SESSION_LIST_PAGE_SIZE {
        sessions.subrange(offset, sessions.len() as int)
    } else {
        sessions.subrange(offset, offset + SESSION_LIST_PAGE_SIZE)
    }
}

/// Whether sessions remain after the page that starts at `offset`.
pub open spec fn has_more_after(len: int, offset: int) -> bool {
    len > offset + SESSION_LIST_PAGE_SIZE
}

/// The page of `sessions` that starts at `offset`, with the cursor of the
/// next page when sessions remain after it.
pub fn session_list_page<T>(sessions: Vec<T>, offset: usize) -> (p: SessionPage<T>)
    ensures
        p.sessions@ == page_of(sessions@, offset as int),
        p.next_cursor is Some <==> has_more_after(sessions@.len() as int, offset as int),
        p.next_cursor matches Some(c) ==> c@ == cursor_text(
            (offset + SESSION_LIST_PAGE_SIZE) as nat,
        ),
{
    let mut sessions = sessions;
    let ghost all = sessions@;
    let len = sessions.len();
    if offset >= len {
        return SessionPage { sessions: Vec::new(), next_cursor: None };
    }
    let mut page = sessions.split_off(offset);
    let has_more = page.len() > SESSION_LIST_PAGE_SIZE;
    page.truncate(SESSION_LIST_PAGE_SIZE);
    let next_cursor = if has_more {
        Some(session_cursor(offset + SESSION_LIST_PAGE_SIZE))
    } else {
        None
    };
    proof {
        if has_more {
            assert(page@ =~= all.subrange(offset as int, offset + SESSION_LIST_PAGE_SIZE));
        } else {
            assert(page@ =~= all.subrange(offset as int, all.len() as int));
        }
    }
    SessionPage { sessions: page, next_cursor }
}

/// The page a listing request answers: the page at the request's cursor.
pub fn session_list_response<T>(cursor: Option<&str>, sessions: Vec<T>) -> (r: Result<
    SessionPage<T>,
    SessionListError,
>)
    ensures
        r is Err <==> (cursor matches Some(c) && cursor_offset(c@) is None),
        r matches Ok(p) ==> {
            let offset: int = match cursor {
                Some(c) => cursor_offset(c@)->0 as int,
                None => 0,
            };
            &&& p.sessions@ == page_of(sessions@, offset)
            &&& (p.next_cursor is Some <==> has_more_after(sessions@.len() as int, offset))
            &&& (p.next_cursor matches Some(c) ==> c@ == cursor_text(
                (offset + SESSION_LIST_PAGE_SIZE) as nat,
            ))
        },
{
    let offset = session_list_offset(cursor)?;
    Ok(session_list_page(sessions, offset))
}

/// A stored session offered for listing, with what the listing needs to
/// know of it.
#[derive(Debug)]
pub struct ListingCandidate<T> {
    pub session: T,
    /// Whether the session belongs to the workspace the request names.
    pub matches_workspace: bool,
    /// Whether the session records a working directory that is absolute.
    pub has_absolute_cwd: bool,
}

/// Whether a candidate is listed: it must belong to the requested
/// workspace when one is named, and record an absolute working directory.
pub open spec fn listed<T>(c: ListingCandidate<T>, cwd_requested: bool) -> bool {
    (!cwd_requested || c.matches_workspace) && c.has_absolute_cwd
}

/// The sessions of the candidates that are listed, in order.
pub open spec fn listable<T>(candidates: Seq<ListingCandidate<T>>, cwd_requested: bool) -> Seq<T>
    decreases candidates.len(),
{
    if candidates.len() == 0 {
        Seq::empty()
    } else {
        let rest = listable(candidates.drop_first(), cwd_requested);
        if listed(candidates[0], cwd_requested) {
            seq![candidates[0].session] + rest
        } else {
            rest
        }
    }
}

/// The sessions a listing may show, before paging: those of the requested
/// workspace when one is named, and only those with an absolute working
/// directory.
pub fn listable_sessions<T>(candidates: Vec<ListingCandidate<T>>, cwd_requested: bool) -> (r: Vec<T>)
    ensures
        r@ == listable(candidates@, cwd_requested),
{
    let ghost all = candidates@;
    let mut rest = candidates;
    let mut out: Vec<T> = Vec::new();
    while rest.len() > 0
        invariant
            out@ + listable(rest@, cwd_requested) == listable(all, cwd_requested),
        decreases rest.len(),
    {
        let ghost before = rest@;
        let c = rest.remove(0);
        proof {
            assert(rest@ =~= before.drop_first());
        }
        if (!cwd_requested || c.matches_workspace) && c.has_absolute_cwd {
            let ghost out_before = out@;
            out.push(c.session);
            proof {
                assert(out@ + listable(rest@, cwd_requested) =~= out_before + listable(before, cwd_requested));
            }
        }
    }
    proof {
        assert(out@ + Seq::<T>::empty() =~= out@);
    }
    out
}

/// The page a listing request answers over the stored sessions: the listed
/// ones, then the page at the request's cursor.
pub fn list_sessions_page<T>(cursor: Option<&str>, candidates: Vec<ListingCandidate<T>>, cwd_requested: bool) -> (r:
    Result<SessionPage<T>, SessionListError>)
    ensures
        r is Err <==> (cursor matches Some(c) && cursor_offset(c@) is None),
        r matches Ok(p) ==> {
            let offset: int = match cursor {
                Some(c) => cursor_offset(c@)->0 as int,
                None => 0,
            };
            let shown = listable(candidates@, cwd_requested);
            &&& p.sessions@ == page_of(shown, offset)
            &&& (p.next_cursor is Some <==> has_more_after(shown.len() as int, offset))
            &&& (p.next_cursor matches Some(c) ==> c@ == cursor_text(
                (offset + SESSION_LIST_PAGE_SIZE) as nat,
            ))
        },
{
    let offset = session_list_offset(cursor)?;
    let shown = listable_sessions(candidates, cwd_requested);
    Ok(session_list_page(shown, offset))
}

/// Following the cursors of a listing visits every session once, in order:
/// the next page starts right after the current one.
pub proof fn law_pages_are_consecutive<T>(sessions: Seq<T>, offset: int)
    requires
        0 <= offset,
        has_more_after(sessions.len() as int, offset),
    ensures
        page_of(sessions, offset).len() == SESSION_LIST_PAGE_SIZE,
        page_of(sessions, offset) + page_of(sessions, offset + SESSION_LIST_PAGE_SIZE)
            == page_of_span(sessions, offset),
{
    let next = offset + SESSION_LIST_PAGE_SIZE;
    if sessions.len() - next <= SESSION_LIST_PAGE_SIZE {
        assert(page_of(sessions, offset) + page_of(sessions, next) =~= sessions.subrange(
            offset,
            sessions.len() as int,
        ));
    } else {
        assert(page_of(sessions, offset) + page_of(sessions, next) =~= sessions.subrange(
            offset,
            next + SESSION_LIST_PAGE_SIZE,
        ));
    }
}

/// The sessions that two consecutive pages from `offset` cover.
pub open spec fn page_of_span<T>(sessions: Seq<T>, offset: int) -> Seq<T> {
    let end = offset + 2 * SESSION_LIST_PAGE_SIZE;
    if end >= sessions.len() {
        sessions.subrange(offset, sessions.len() as int)
    } else {
        sessions.subrange(offset, end)
    }
}

} // verus!
