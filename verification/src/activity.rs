//! The activity that makes context compaction visible to a client: a tool
//! call that starts in progress and ends completed, or failed with a reason,
//! carrying the token counts before and after.

use vstd::prelude::*;

use crate::ids::{is_hyphenated_uuid, new_v4_text};
use crate::streaming::duration_millis;

verus! {

/// The version of the activity extension.
pub const LODY_EXTENSION_VERSION: u8 = 1;

/// The title of the compaction tool call.
pub const COMPACTION_TITLE: &'static str = "Compact conversation context";

/// The kind of activity reported.
pub const ACTIVITY_KIND: &'static str = "context_compaction";

/// Every compaction tool call id starts with this text.
pub const ACTIVITY_ID_PREFIX: &'static str = "activity:compaction:";

/// The status of the activity's tool call.
#[derive(Clone, Copy, Debug, PartialEq, Eq, Structural)]
pub enum ActivityStatus {
    InProgress,
    Completed,
    Failed,
}

/// The activity metadata attached to an update.
#[derive(Debug)]
pub struct ActivityMeta {
    pub version: u8,
    pub automatic: bool,
    pub used_tokens_before: usize,
    pub used_tokens_after: Option<usize>,
    pub duration_ms: Option<u64>,
    pub failure_reason: Option<String>,
}

/// One update of the activity: the initial tool call, or an update of it.
#[derive(Debug)]
pub struct ActivityUpdate {
    /// Whether this is the tool call that starts the activity.
    pub is_initial: bool,
    pub tool_call_id: String,
    pub status: ActivityStatus,
    pub meta: ActivityMeta,
}

/// One context compaction, from start to end.
#[derive(Debug)]
pub struct CompactionActivity {
    tool_call_id: String,
    used_tokens_before: usize,
}

impl CompactionActivity {
    pub closed spec fn id(&self) -> Seq<char> {
        self.tool_call_id@
    }

    pub closed spec fn tokens_before(&self) -> usize {
        self.used_tokens_before
    }

    /// A compaction of session `session_id` that starts with
    /// `used_tokens_before` tokens in use; its id ends in a fresh UUID.
    pub fn begin(session_id: &str, used_tokens_before: usize) -> (a: CompactionActivity)
        ensures
            a.tokens_before() == used_tokens_before,
            a.id().len() == ACTIVITY_ID_PREFIX@.len() + session_id@.len() + 37,
            a.id().subrange(0, (ACTIVITY_ID_PREFIX@.len() + session_id@.len() + 1) as int)
                == ACTIVITY_ID_PREFIX@ + session_id@ + seq![':'],
            is_hyphenated_uuid(
                a.id().subrange((ACTIVITY_ID_PREFIX@.len() + session_id@.len() + 1) as int, a.id().len() as int),
            ),
    {
        let mut id = String::from_str(ACTIVITY_ID_PREFIX);
        id.append(session_id);
        id.append(":");
        let uuid = new_v4_text();
        let ghost head = id@;
        id.append(uuid.as_str());
        proof {
            reveal_strlit(":");
            assert(id@.subrange(0, head.len() as int) =~= head);
            assert(id@.subrange(head.len() as int, id@.len() as int) =~= uuid@);
        }
        CompactionActivity { tool_call_id: id, used_tokens_before }
    }

    /// A compaction with a given tool call id.
    pub fn with_id(tool_call_id: String, used_tokens_before: usize) -> (a: CompactionActivity)
        ensures
            a.id() == tool_call_id@,
            a.tokens_before() == used_tokens_before,
    {
        CompactionActivity { tool_call_id, used_tokens_before }
    }

    pub fn tool_call_id(&self) -> (s: &str)
        ensures
            s@ == self.id(),
    {
        self.tool_call_id.as_str()
    }

    /// The tool call that shows the compaction running.
    pub fn started_update(&self) -> (u: ActivityUpdate)
        ensures
            u.is_initial,
            u.tool_call_id@ == self.id(),
            u.status == ActivityStatus::InProgress,
            u.meta.version == LODY_EXTENSION_VERSION,
            u.meta.automatic,
            u.meta.used_tokens_before == self.tokens_before(),
            u.meta.used_tokens_after is None,
            u.meta.duration_ms is None,
            u.meta.failure_reason is None,
    {
        ActivityUpdate {
            is_initial: true,
            tool_call_id: self.tool_call_id.clone(),
            status: ActivityStatus::InProgress,
            meta: ActivityMeta {
                version: LODY_EXTENSION_VERSION,
                automatic: true,
                used_tokens_before: self.used_tokens_before,
                used_tokens_after: None,
                duration_ms: None,
                failure_reason: None,
            },
        }
    }

    /// The update that ends the compaction after `elapsed_millis`: failed
    /// exactly when there is a failure reason, completed otherwise.
    pub fn finished_update(
        &self,
        elapsed_millis: u128,
        used_tokens_after: Option<usize>,
        failure_reason: Option<&str>,
    ) -> (u: ActivityUpdate)
        ensures
            !u.is_initial,
            u.tool_call_id@ == self.id(),
            u.status == if failure_reason is Some {
                ActivityStatus::Failed
            } else {
                ActivityStatus::Completed
            },
            u.meta.version == LODY_EXTENSION_VERSION,
            u.meta.automatic,
            u.meta.used_tokens_before == self.tokens_before(),
            u.meta.used_tokens_after == used_tokens_after,
            u.meta.duration_ms == Some(
                if elapsed_millis <= u64::MAX {
                    elapsed_millis as u64
                } else {
                    u64::MAX
                },
            ),
            u.meta.failure_reason is Some == failure_reason is Some,
            u.meta.failure_reason matches Some(r) ==> r@ == failure_reason->0@,
    {
        let status = if failure_reason.is_some() {
            ActivityStatus::Failed
        } else {
            ActivityStatus::Completed
        };
        let reason = match failure_reason {
            Some(r) => Some(String::from_str(r)),
            None => None,
        };
        ActivityUpdate {
            is_initial: false,
            tool_call_id: self.tool_call_id.clone(),
            status,
            meta: ActivityMeta {
                version: LODY_EXTENSION_VERSION,
                automatic: true,
                used_tokens_before: self.used_tokens_before,
                used_tokens_after,
                duration_ms: Some(duration_millis(elapsed_millis)),
                failure_reason: reason,
            },
        }
    }
}

} // verus!
