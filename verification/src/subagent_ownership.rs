//! The caller-session-owned boundary of subagent management: a session may
//! list, cancel and read only the child threads it owns and the background
//! tasks whose owner it is.

use vstd::prelude::*;

use crate::text::str_eq;

verus! {

/// A background task and the session that owns it, if any.
#[derive(Debug)]
pub struct BackgroundTask {
    pub id: String,
    pub owner_session_id: Option<String>,
    /// Whether the task is still running.
    pub active: bool,
}

/// A child thread of the session's subagent controller.
#[derive(Debug)]
pub struct ChildTask {
    pub id: String,
    /// Whether the child reached a terminal status.
    pub terminal: bool,
}

/// Which task a management request for `task_id` acts on.
#[derive(Clone, Copy, Debug, PartialEq, Eq, Structural)]
pub enum ManagedTarget {
    /// A child thread the session owns.
    Child,
    /// A background task the session owns.
    Background,
    /// Neither: the request is refused as an unknown task.
    Unknown,
}

pub open spec fn str_views(ids: Seq<String>) -> Seq<Seq<char>> {
    ids.map_values(|s: String| s@)
}

/// Whether `owner` names the session `session`.
pub open spec fn owned_by(owner: Option<String>, session: Seq<char>) -> bool {
    owner matches Some(o) && o@ == session
}

/// Whether the session `session` owns the background task `task`.
pub open spec fn owns_background(tasks: Seq<BackgroundTask>, session: Seq<char>, task: Seq<char>) -> bool {
    exists|i: int|
        0 <= i < tasks.len() && #[trigger] tasks[i].id@ == task && owned_by(tasks[i].owner_session_id, session)
}

/// The target of a request: an owned child first, then an owned background
/// task, else none.
pub open spec fn target_spec(
    owned_children: Seq<Seq<char>>,
    background: Seq<BackgroundTask>,
    session: Seq<char>,
    task: Seq<char>,
) -> ManagedTarget {
    if owned_children.contains(task) {
        ManagedTarget::Child
    } else if owns_background(background, session, task) {
        ManagedTarget::Background
    } else {
        ManagedTarget::Unknown
    }
}

fn is_owner(owner: &Option<String>, session_id: &str) -> (r: bool)
    ensures
        r == owned_by(*owner, session_id@),
{
    match owner {
        Some(o) => str_eq(o.as_str(), session_id),
        None => false,
    }
}

fn contains_id(ids: &Vec<String>, id: &str) -> (r: bool)
    ensures
        r == str_views(ids@).contains(id@),
{
    let mut i: usize = 0;
    while i < ids.len()
        invariant
            i <= ids@.len(),
            forall|j: int| 0 <= j < i ==> #[trigger] ids@[j]@ != id@,
        decreases ids@.len() - i,
    {
        if str_eq(ids[i].as_str(), id) {
            assert(str_views(ids@)[i as int] == id@);
            return true;
        }
        i += 1;
    }
    proof {
        if str_views(ids@).contains(id@) {
            let k = choose|k: int| 0 <= k < str_views(ids@).len() && str_views(ids@)[k] == id@;
            assert(ids@[k]@ == id@);
        }
    }
    false
}

/// Which task a management request of session `session_id` for `task_id`
/// acts on, given the ids of the children the session owns and the
/// controller's background tasks.
pub fn managed_target(
    session_id: &str,
    task_id: &str,
    owned_children: &Vec<String>,
    background: &Vec<BackgroundTask>,
) -> (r: ManagedTarget)
    ensures
        r == target_spec(str_views(owned_children@), background@, session_id@, task_id@),
{
    if contains_id(owned_children, task_id) {
        return ManagedTarget::Child;
    }
    let mut i: usize = 0;
    while i < background.len()
        invariant
            i <= background@.len(),
            !str_views(owned_children@).contains(task_id@),
            forall|j: int|
                0 <= j < i ==> !(#[trigger] background@[j].id@ == task_id@ && owned_by(
                    background@[j].owner_session_id,
                    session_id@,
                )),
        decreases background@.len() - i,
    {
        if str_eq(background[i].id.as_str(), task_id) && is_owner(&background[i].owner_session_id, session_id) {
            assert(background@[i as int].id@ == task_id@);
            assert(owns_background(background@, session_id@, task_id@));
            return ManagedTarget::Background;
        }
        i += 1;
    }
    ManagedTarget::Unknown
}

/// The ids of the children a listing shows: those the session owns,
/// running ones only when `active_only`.
pub open spec fn listed_children(children: Seq<ChildTask>, owned: Seq<Seq<char>>, active_only: bool) -> Seq<
    Seq<char>,
>
    decreases children.len(),
{
    if children.len() == 0 {
        Seq::empty()
    } else {
        let rest = listed_children(children.drop_last(), owned, active_only);
        let c = children.last();
        if owned.contains(c.id@) && (!active_only || !c.terminal) {
            rest.push(c.id@)
        } else {
            rest
        }
    }
}

/// The ids of the background tasks a listing shows: those the session
/// owns, running ones only when `active_only`.
pub open spec fn listed_background(tasks: Seq<BackgroundTask>, session: Seq<char>, active_only: bool) -> Seq<
    Seq<char>,
>
    decreases tasks.len(),
{
    if tasks.len() == 0 {
        Seq::empty()
    } else {
        let rest = listed_background(tasks.drop_last(), session, active_only);
        let t = tasks.last();
        if owned_by(t.owner_session_id, session) && (!active_only || t.active) {
            rest.push(t.id@)
        } else {
            rest
        }
    }
}

/// The ids of the tasks a listing for session `session_id` shows, before
/// sorting: the owned children, then the owned background tasks, each
/// limited to running ones when `active_only`.
pub fn listed_task_ids(
    session_id: &str,
    owned_children: &Vec<String>,
    children: &Vec<ChildTask>,
    background: &Vec<BackgroundTask>,
    active_only: bool,
) -> (r: Vec<String>)
    ensures
        str_views(r@) == listed_children(children@, str_views(owned_children@), active_only) + listed_background(
            background@,
            session_id@,
            active_only,
        ),
{
    let ghost owned = str_views(owned_children@);
    let mut out: Vec<String> = Vec::new();
    let mut i: usize = 0;
    while i < children.len()
        invariant
            i <= children@.len(),
            owned == str_views(owned_children@),
            str_views(out@) == listed_children(children@.take(i as int), owned, active_only),
        decreases children@.len() - i,
    {
        proof {
            assert(children@.take(i + 1).drop_last() =~= children@.take(i as int));
            assert(children@.take(i + 1).last() == children@[i as int]);
        }
        let c = &children[i];
        if contains_id(owned_children, c.id.as_str()) && (!active_only || !c.terminal) {
            let ghost before = out@;
            out.push(c.id.clone());
            proof {
                assert(str_views(out@) =~= str_views(before).push(c.id@));
            }
        }
        i += 1;
    }
    proof {
        assert(children@.take(children@.len() as int) =~= children@);
    }
    let ghost first = str_views(out@);
    let mut k: usize = 0;
    while k < background.len()
        invariant
            k <= background@.len(),
            str_views(out@) == first + listed_background(background@.take(k as int), session_id@, active_only),
        decreases background@.len() - k,
    {
        proof {
            assert(background@.take(k + 1).drop_last() =~= background@.take(k as int));
            assert(background@.take(k + 1).last() == background@[k as int]);
        }
        let t = &background[k];
        if is_owner(&t.owner_session_id, session_id) && (!active_only || t.active) {
            let ghost before = out@;
            out.push(t.id.clone());
            proof {
                assert(str_views(out@) =~= str_views(before).push(t.id@));
            }
        }
        k += 1;
    }
    proof {
        assert(background@.take(background@.len() as int) =~= background@);
    }
    out
}

/// A session reaches only what it owns: a request acts on a child only
/// when the session owns it, and on a background task only when the
/// session is its owner.
pub proof fn law_requests_stay_within_the_session(
    owned_children: Seq<Seq<char>>,
    background: Seq<BackgroundTask>,
    session: Seq<char>,
    task: Seq<char>,
)
    ensures
        target_spec(owned_children, background, session, task) == ManagedTarget::Child ==> owned_children.contains(
            task,
        ),
        target_spec(owned_children, background, session, task) == ManagedTarget::Background ==> owns_background(
            background,
            session,
            task,
        ),
        target_spec(owned_children, background, session, task) == ManagedTarget::Unknown ==> !owned_children.contains(
            task,
        ) && !owns_background(background, session, task),
{
}

} // verus!
