//! The queue's view of one durable job, as the store hands it over.

use vstd::prelude::*;

verus! {

/// Lifecycle state of a durable queue job.
#[derive(Clone, Copy, Debug, PartialEq, Eq, Structural)]
pub enum QueueJobState {
    Pending,
    Starting,
    Running,
    Quarantined,
}

/// The fields of a stored queue job that the queue decisions read.
#[derive(Clone, Debug, PartialEq, Eq)]
pub struct QueueJobRecord {
    pub job_id: String,
    pub target_thread_id: String,
    pub channel_id: i64,
    pub owner_user_id: Option<i64>,
    pub discord_message_id: Option<i64>,
    pub state: QueueJobState,
    pub last_error: String,
    pub turn_id: Option<String>,
    pub app_server_generation: i64,
    pub attempt_count: i64,
    pub goal_waiting: bool,
}

/// The characters of an optional string.
pub open spec fn opt_text(o: Option<String>) -> Option<Seq<char>> {
    match o {
        Some(s) => Some(s@),
        None => None,
    }
}

/// A job that owns its target: it is starting or running.
pub open spec fn owns_target(s: QueueJobState) -> bool {
    s == QueueJobState::Starting || s == QueueJobState::Running
}

/// A copy of an optional string.
pub fn copy_opt(o: &Option<String>) -> (r: Option<String>)
    ensures
        opt_text(r) == opt_text(*o),
{
    match o {
        Some(s) => Some(s.clone()),
        None => None,
    }
}

} // verus!
