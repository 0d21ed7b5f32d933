//! Turning the task tracker's checklist into plan entries: each item keeps
//! its description, and blocked items are marked as such.

use vstd::prelude::*;

use crate::text::{has_suffix, str_eq, strip_suffix};

verus! {

/// The mark appended to the description of a blocked item.
pub const BLOCKED_TAG: &'static str = " [blocked]";

/// The status of a plan entry.
#[derive(Clone, Copy, Debug, PartialEq, Eq, Structural)]
pub enum PlanEntryStatus {
    Pending,
    InProgress,
    Completed,
}

/// `description` with the blocked mark at its end, exactly once.
pub open spec fn blocked_content(description: Seq<char>) -> Seq<char> {
    if has_suffix(description, BLOCKED_TAG@) {
        description
    } else {
        description + BLOCKED_TAG@
    }
}

/// The content and status of the plan entry for a tracker item.
pub open spec fn mapped_status(description: Seq<char>, status: Seq<char>) -> (Seq<char>, PlanEntryStatus) {
    if status == "in_progress"@ {
        (description, PlanEntryStatus::InProgress)
    } else if status == "completed"@ {
        (description, PlanEntryStatus::Completed)
    } else if status == "blocked"@ {
        (blocked_content(description), PlanEntryStatus::Pending)
    } else {
        (description, PlanEntryStatus::Pending)
    }
}

/// The content and status of the plan entry for an item with `description`
/// and tracker status `tracker_status`.
pub fn map_status(description: &str, tracker_status: &str) -> (r: (String, PlanEntryStatus))
    ensures
        (r.0@, r.1) == mapped_status(description@, tracker_status@),
{
    if str_eq(tracker_status, "in_progress") {
        (String::from_str(description), PlanEntryStatus::InProgress)
    } else if str_eq(tracker_status, "completed") {
        (String::from_str(description), PlanEntryStatus::Completed)
    } else if str_eq(tracker_status, "blocked") {
        let base = match strip_suffix(description, BLOCKED_TAG) {
            Some(stripped) => stripped,
            None => description,
        };
        let mut content = String::from_str(base);
        content.append(BLOCKED_TAG);
        proof {
            if has_suffix(description@, BLOCKED_TAG@) {
                assert(content@ =~= description@);
            }
        }
        (content, PlanEntryStatus::Pending)
    } else {
        (String::from_str(description), PlanEntryStatus::Pending)
    }
}

/// A blocked item always shows the mark, once: mapping its content again
/// as blocked changes nothing, and every other status keeps the
/// description as it is.
pub proof fn law_blocked_mark_is_idempotent(description: Seq<char>, status: Seq<char>)
    ensures
        has_suffix(blocked_content(description), BLOCKED_TAG@),
        blocked_content(blocked_content(description)) == blocked_content(description),
        status != "blocked"@ ==> mapped_status(description, status).0 == description,
{
    let tagged = description + BLOCKED_TAG@;
    if !has_suffix(description, BLOCKED_TAG@) {
        assert(tagged.subrange(tagged.len() - BLOCKED_TAG@.len(), tagged.len() as int)
            =~= BLOCKED_TAG@);
    }
}

/// One checklist item of the tracker: its description and status, when
/// present as text.
#[derive(Debug)]
pub struct TrackerItem {
    pub description: Option<String>,
    pub status: Option<String>,
}

/// One entry of a plan.
#[derive(Debug)]
pub struct PlanEntry {
    pub content: String,
    pub status: PlanEntryStatus,
}

/// Whether every item has a description and a status.
pub open spec fn items_complete(items: Seq<TrackerItem>) -> bool {
    forall|i: int| 0 <= i < items.len() ==> (#[trigger] items[i]).description is Some
        && items[i].status is Some
}

/// The plan entries for a checklist, when every item has a description and
/// a status; otherwise none, as a malformed checklist yields no plan.
pub fn plan_entries(items: &Vec<TrackerItem>) -> (r: Option<Vec<PlanEntry>>)
    ensures
        r is Some <==> items_complete(items@),
        r matches Some(entries) ==> entries@.len() == items@.len() && forall|i: int|
            0 <= i < entries@.len() ==> ((#[trigger] entries@[i]).content@, entries@[i].status)
                == mapped_status(items@[i].description->0@, items@[i].status->0@),
{
    let mut entries: Vec<PlanEntry> = Vec::new();
    let mut i: usize = 0;
    while i < items.len()
        invariant
            i <= items.len(),
            entries@.len() == i,
            forall|j: int| 0 <= j < i ==> (#[trigger] items@[j]).description is Some
                && items@[j].status is Some,
            forall|j: int|
                0 <= j < i ==> ((#[trigger] entries@[j]).content@, entries@[j].status)
                    == mapped_status(items@[j].description->0@, items@[j].status->0@),
        decreases items.len() - i,
    {
        let item = &items[i];
        match (&item.description, &item.status) {
            (Some(description), Some(status)) => {
                let (content, status) = map_status(description.as_str(), status.as_str());
                entries.push(PlanEntry { content, status });
            },
            _ => {
                assert(!((items@[i as int]).description is Some && items@[i as int].status is Some));
                return None;
            },
        }
        i += 1;
    }
    Some(entries)
}

} // verus!
