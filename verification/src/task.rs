//! A deployment task and the detail record that joins it with its logs.

use crate::status::TaskStatus;
use vstd::prelude::*;

verus! {

/// One request to deploy a branch.
#[derive(Debug, PartialEq, Eq)]
pub struct Task {
    /// Assigned by the store when the task is created; never changes.
    pub id: u64,
    /// The branch to deploy; never changes.
    pub branch: String,
    pub status: TaskStatus,
    /// A result attached after the deployment; independent of the status.
    pub score: Option<i64>,
    /// Seconds since the epoch at which the task was created.
    pub created_at: i64,
    /// Seconds since the epoch of the last change to the task.
    pub updated_at: i64,
}

/// The mathematical value of a [`Task`].
pub ghost struct TaskView {
    pub id: u64,
    pub branch: Seq<char>,
    pub status: TaskStatus,
    pub score: Option<i64>,
    pub created_at: i64,
    pub updated_at: i64,
}

impl View for Task {
    type V = TaskView;

    open spec fn view(&self) -> TaskView {
        TaskView {
            id: self.id,
            branch: self.branch@,
            status: self.status,
            score: self.score,
            created_at: self.created_at,
            updated_at: self.updated_at,
        }
    }
}

impl Clone for Task {
    fn clone(&self) -> (t: Self)
        ensures
            t == *self,
    {
        Task {
            id: self.id,
            branch: self.branch.clone(),
            status: self.status,
            score: self.score,
            created_at: self.created_at,
            updated_at: self.updated_at,
        }
    }
}

impl TaskView {
    /// A task as it stands right after its creation.
    pub open spec fn fresh(id: u64, branch: Seq<char>, now: i64) -> TaskView {
        TaskView {
            id,
            branch,
            status: TaskStatus::Pending,
            score: None,
            created_at: now,
            updated_at: now,
        }
    }

    /// The task with another status, changed at `now`.
    pub open spec fn with_status(self, status: TaskStatus, now: i64) -> TaskView {
        TaskView { status, updated_at: now, ..self }
    }

    /// The task with a score attached at `now`.
    pub open spec fn with_score(self, score: i64, now: i64) -> TaskView {
        TaskView { score: Some(score), updated_at: now, ..self }
    }
}

} // verus!
