//! The task entity and its mathematical model.

use vstd::prelude::*;

verus! {

/// Lifecycle state of a task.  A task starts `Pending`, moves to
/// `InProgress` when claimed, to `Done` when completed, and back to
/// `Pending` when its lease expires.
#[derive(Clone, Copy, Debug, PartialEq, Eq, Structural)]
pub enum TaskStatus {
    /// Waiting to be claimed.
    Pending,
    /// Claimed by the consumer; covered by a lease.
    InProgress,
    /// Completed; terminal.
    Done,
}

/// A queued notification task.
///
/// `id` is assigned at creation and never reused; `created_at` is fixed at
/// insertion and defines the claim order; `updated_at` is refreshed on every
/// status transition and drives lease-expiry detection.  Timestamps are
/// seconds of an arbitrary monotone clock.
#[derive(Debug)]
pub struct Task {
    pub id: i64,
    pub submitter_id: String,
    pub target: String,
    pub content: String,
    pub status: TaskStatus,
    pub created_at: u64,
    pub updated_at: u64,
}

/// The mathematical model of a task: string fields as character sequences,
/// numbers as unbounded integers.
pub struct TaskModel {
    pub id: int,
    pub submitter_id: Seq<char>,
    pub target: Seq<char>,
    pub content: Seq<char>,
    pub status: TaskStatus,
    pub created_at: int,
    pub updated_at: int,
}

impl View for Task {
    type V = TaskModel;

    open spec fn view(&self) -> TaskModel {
        TaskModel {
            id: self.id as int,
            submitter_id: self.submitter_id@,
            target: self.target@,
            content: self.content@,
            status: self.status,
            created_at: self.created_at as int,
            updated_at: self.updated_at as int,
        }
    }
}

impl Task {
    /// An exact copy of the task.
    pub fn duplicate(&self) -> (r: Task)
        ensures
            r == *self,
    {
        Task {
            id: self.id,
            submitter_id: self.submitter_id.clone(),
            target: self.target.clone(),
            content: self.content.clone(),
            status: self.status,
            created_at: self.created_at,
            updated_at: self.updated_at,
        }
    }
}

} // verus!
