//! The lifecycle status of a deployment task.

use crate::text::same_text;
use vstd::prelude::*;

verus! {

/// Where a task stands in its lifecycle.
///
/// The dispatcher moves a task along `Pending -> Deploying -> Deployed` or
/// `Pending -> Deploying -> DeployFailed`; `Done` and `Cancelled` are set
/// from outside.
#[derive(Clone, Copy, Debug, PartialEq, Eq, Structural)]
pub enum TaskStatus {
    Pending,
    Deploying,
    DeployFailed,
    Deployed,
    Done,
    Cancelled,
}

impl TaskStatus {
    /// A task is active while it is being deployed or is the live deployment.
    pub open spec fn active(self) -> bool {
        self == TaskStatus::Deploying || self == TaskStatus::Deployed
    }

    /// Statuses that the dispatcher never leaves by itself.
    pub open spec fn terminal(self) -> bool {
        self == TaskStatus::Done || self == TaskStatus::DeployFailed || self
            == TaskStatus::Cancelled
    }

    /// The transitions that the dispatcher itself performs.
    pub open spec fn dispatcher_moves(self, to: TaskStatus) -> bool {
        ||| self == TaskStatus::Pending && to == TaskStatus::Deploying
        ||| self == TaskStatus::Deploying && to == TaskStatus::Deployed
        ||| self == TaskStatus::Deploying && to == TaskStatus::DeployFailed
    }

    /// The name under which the status is stored and exchanged.
    pub open spec fn name(self) -> Seq<char> {
        match self {
            TaskStatus::Pending => "pending"@,
            TaskStatus::Deploying => "deploying"@,
            TaskStatus::DeployFailed => "deploy_failed"@,
            TaskStatus::Deployed => "deployed"@,
            TaskStatus::Done => "done"@,
            TaskStatus::Cancelled => "cancelled"@,
        }
    }

    /// The status that a name stands for, if any.
    pub open spec fn from_name(name: Seq<char>) -> Option<TaskStatus> {
        if name == "pending"@ {
            Some(TaskStatus::Pending)
        } else if name == "deploying"@ {
            Some(TaskStatus::Deploying)
        } else if name == "deploy_failed"@ {
            Some(TaskStatus::DeployFailed)
        } else if name == "deployed"@ {
            Some(TaskStatus::Deployed)
        } else if name == "done"@ {
            Some(TaskStatus::Done)
        } else if name == "cancelled"@ {
            Some(TaskStatus::Cancelled)
        } else {
            None
        }
    }

    /// Whether the task occupies the deployment slot.
    pub fn is_active(&self) -> (b: bool)
        ensures
            b == self.active(),
    {
        match self {
            TaskStatus::Deploying | TaskStatus::Deployed => true,
            _ => false,
        }
    }

    /// Whether the dispatcher is finished with the task for good.
    pub fn is_terminal(&self) -> (b: bool)
        ensures
            b == self.terminal(),
    {
        match self {
            TaskStatus::Done | TaskStatus::DeployFailed | TaskStatus::Cancelled => true,
            _ => false,
        }
    }

    /// The stored name of the status.
    pub fn as_str(&self) -> (s: &'static str)
        ensures
            s@ == self.name(),
    {
        match self {
            TaskStatus::Pending => "pending",
            TaskStatus::Deploying => "deploying",
            TaskStatus::DeployFailed => "deploy_failed",
            TaskStatus::Deployed => "deployed",
            TaskStatus::Done => "done",
            TaskStatus::Cancelled => "cancelled",
        }
    }

    /// Reads a stored name back; `None` for any other text.
    pub fn parse(name: &str) -> (r: Option<TaskStatus>)
        ensures
            r == Self::from_name(name@),
    {
        if same_text(name, "pending") {
            Some(TaskStatus::Pending)
        } else if same_text(name, "deploying") {
            Some(TaskStatus::Deploying)
        } else if same_text(name, "deploy_failed") {
            Some(TaskStatus::DeployFailed)
        } else if same_text(name, "deployed") {
            Some(TaskStatus::Deployed)
        } else if same_text(name, "done") {
            Some(TaskStatus::Done)
        } else if same_text(name, "cancelled") {
            Some(TaskStatus::Cancelled)
        } else {
            None
        }
    }

    /// Every status is read back from its own name.
    pub proof fn lemma_name_round_trip(self)
        ensures
            Self::from_name(self.name()) == Some(self),
    {
        reveal_strlit("pending");
        reveal_strlit("deploying");
        reveal_strlit("deploy_failed");
        reveal_strlit("deployed");
        reveal_strlit("done");
        reveal_strlit("cancelled");
        // The names differ in length, but for two that differ in their
        // first letter.
        assert("pending"@.len() == 7);
        assert("deploying"@.len() == 9);
        assert("deploy_failed"@.len() == 13);
        assert("deployed"@.len() == 8);
        assert("done"@.len() == 4);
        assert("cancelled"@.len() == 9);
        assert("deploying"@[0] == 'd');
        assert("cancelled"@[0] == 'c');
    }
}

} // verus!
