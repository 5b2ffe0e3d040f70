//! The dispatcher as a state machine: it names the one thing to do next, and
//! moves on when told how that went. Whoever drives it performs the request
//! (a query, a process, a wait) and reports the outcome.

use vstd::prelude::*;
use vstd::string::*;

verus! {

/// The task that the dispatcher has picked: its id and the branch to deploy.
#[derive(Debug, PartialEq, Eq)]
pub struct Job {
    pub id: u64,
    pub branch: String,
}

/// The mathematical value of a [`Job`].
pub ghost struct JobView {
    pub id: u64,
    pub branch: Seq<char>,
}

impl View for Job {
    type V = JobView;

    open spec fn view(&self) -> JobView {
        JobView { id: self.id, branch: self.branch@ }
    }
}

impl Clone for Job {
    fn clone(&self) -> (job: Self)
        ensures
            job == *self,
    {
        Job { id: self.id, branch: self.branch.clone() }
    }
}

/// What the dispatcher asks its driver to do.
#[derive(Debug, PartialEq, Eq)]
pub enum Action {
    /// Open a transaction and look for a task that is deploying or deployed.
    FindActive,
    /// In the open transaction, select the pending task with the smallest
    /// id and lock its row.
    SelectPending,
    /// Mark the task as deploying and commit the transaction.
    Claim { id: u64 },
    /// Release the transaction and wait for the wake signal, at most for the
    /// idle timeout.
    Wait,
    /// Refresh the working copy from its remote.
    Fetch,
    /// Check out the given ref in the working copy.
    Checkout { reference: String },
    /// Run the deploy command, its output streamed to the log files of the
    /// task.
    Deploy { id: u64 },
    /// Mark the task as failed. With `save_stderr`, first store the error
    /// output of the stage that failed as the task's `stderr` log.
    Fail { id: u64, save_stderr: bool },
    /// Mark the task as deployed if it is still deploying.
    Succeed { id: u64 },
    /// Stop: the store can no longer be trusted.
    Halt,
}

/// The mathematical value of an [`Action`].
pub ghost enum ActionView {
    FindActive,
    SelectPending,
    Claim { id: u64 },
    Wait,
    Fetch,
    Checkout { reference: Seq<char> },
    Deploy { id: u64 },
    Fail { id: u64, save_stderr: bool },
    Succeed { id: u64 },
    Halt,
}

impl View for Action {
    type V = ActionView;

    open spec fn view(&self) -> ActionView {
        match self {
            Action::FindActive => ActionView::FindActive,
            Action::SelectPending => ActionView::SelectPending,
            Action::Claim { id } => ActionView::Claim { id: *id },
            Action::Wait => ActionView::Wait,
            Action::Fetch => ActionView::Fetch,
            Action::Checkout { reference } => ActionView::Checkout { reference: reference@ },
            Action::Deploy { id } => ActionView::Deploy { id: *id },
            Action::Fail { id, save_stderr } => ActionView::Fail {
                id: *id,
                save_stderr: *save_stderr,
            },
            Action::Succeed { id } => ActionView::Succeed { id: *id },
            Action::Halt => ActionView::Halt,
        }
    }
}

/// What the driver reports back.
#[derive(Debug, PartialEq, Eq)]
pub enum Event {
    /// The answer to `FindActive`: the id of an active task, if there is one.
    Active(Option<u64>),
    /// The answer to `SelectPending`: the oldest pending task, if there is one.
    Pending(Option<Job>),
    /// A `Claim`, `Fail` or `Succeed` was written.
    Done,
    /// The wait ended, by a signal or by its time limit.
    Woken,
    /// A process ended with this exit code; `None` where it has none.
    Exit(Option<i32>),
    /// The store failed.
    StoreFailed,
}

/// The mathematical value of an [`Event`].
pub ghost enum EventView {
    Active(Option<u64>),
    Pending(Option<JobView>),
    Done,
    Woken,
    Exit(Option<i32>),
    StoreFailed,
}

impl View for Event {
    type V = EventView;

    open spec fn view(&self) -> EventView {
        match self {
            Event::Active(id) => EventView::Active(*id),
            Event::Pending(job) => EventView::Pending(
                match job {
                    Some(job) => Some(job@),
                    None => None,
                },
            ),
            Event::Done => EventView::Done,
            Event::Woken => EventView::Woken,
            Event::Exit(code) => EventView::Exit(*code),
            Event::StoreFailed => EventView::StoreFailed,
        }
    }
}

/// Where the dispatcher stands in its loop. Each phase has one request
/// outstanding.
#[derive(Debug, PartialEq, Eq)]
pub enum Phase {
    /// Looking for an active task.
    CheckingActive,
    /// No task is active; looking for a pending one.
    SelectingPending,
    /// Marking the selected task as deploying.
    Claiming(Job),
    /// Nothing to do; waiting to be woken.
    Suspended,
    /// Refreshing the working copy.
    Fetching(Job),
    /// Checking out the branch of the task.
    CheckingOut(Job),
    /// Running the deploy command.
    Deploying(Job),
    /// Recording that the task failed.
    Failing { job: Job, save_stderr: bool },
    /// Recording that the task is deployed.
    Succeeding(Job),
    /// Stopped for good.
    Halted,
}

/// The mathematical value of a [`Phase`].
pub ghost enum PhaseView {
    CheckingActive,
    SelectingPending,
    Claiming(JobView),
    Suspended,
    Fetching(JobView),
    CheckingOut(JobView),
    Deploying(JobView),
    Failing { job: JobView, save_stderr: bool },
    Succeeding(JobView),
    Halted,
}

impl View for Phase {
    type V = PhaseView;

    open spec fn view(&self) -> PhaseView {
        match self {
            Phase::CheckingActive => PhaseView::CheckingActive,
            Phase::SelectingPending => PhaseView::SelectingPending,
            Phase::Claiming(job) => PhaseView::Claiming(job@),
            Phase::Suspended => PhaseView::Suspended,
            Phase::Fetching(job) => PhaseView::Fetching(job@),
            Phase::CheckingOut(job) => PhaseView::CheckingOut(job@),
            Phase::Deploying(job) => PhaseView::Deploying(job@),
            Phase::Failing { job, save_stderr } => PhaseView::Failing {
                job: job@,
                save_stderr: *save_stderr,
            },
            Phase::Succeeding(job) => PhaseView::Succeeding(job@),
            Phase::Halted => PhaseView::Halted,
        }
    }
}

/// The ref that is checked out for a branch: the branch as the remote has it.
pub open spec fn checkout_ref(branch: Seq<char>) -> Seq<char> {
    "origin/"@ + branch
}

/// Whether a process that ended with `code` succeeded: only exit code 0 does.
pub open spec fn succeeded(code: Option<i32>) -> bool {
    code == Some(0i32)
}

impl PhaseView {
    /// The phase in which every dispatcher starts.
    pub open spec fn initial() -> PhaseView {
        PhaseView::CheckingActive
    }

    /// The request that is outstanding in this phase.
    pub open spec fn request(self) -> ActionView {
        match self {
            PhaseView::CheckingActive => ActionView::FindActive,
            PhaseView::SelectingPending => ActionView::SelectPending,
            PhaseView::Claiming(job) => ActionView::Claim { id: job.id },
            PhaseView::Suspended => ActionView::Wait,
            PhaseView::Fetching(_) => ActionView::Fetch,
            PhaseView::CheckingOut(job) => ActionView::Checkout {
                reference: checkout_ref(job.branch),
            },
            PhaseView::Deploying(job) => ActionView::Deploy { id: job.id },
            PhaseView::Failing { job, save_stderr } => ActionView::Fail { id: job.id, save_stderr },
            PhaseView::Succeeding(job) => ActionView::Succeed { id: job.id },
            PhaseView::Halted => ActionView::Halt,
        }
    }

    /// The phase that follows when `event` is reported.
    ///
    /// A failure of the store, or a report that does not answer the
    /// outstanding request, halts the dispatcher.
    pub open spec fn next(self, event: EventView) -> PhaseView {
        match (self, event) {
            (PhaseView::CheckingActive, EventView::Active(Some(_))) => PhaseView::Suspended,
            (PhaseView::CheckingActive, EventView::Active(None)) => PhaseView::SelectingPending,
            (PhaseView::SelectingPending, EventView::Pending(Some(job))) => PhaseView::Claiming(
                job,
            ),
            (PhaseView::SelectingPending, EventView::Pending(None)) => PhaseView::Suspended,
            (PhaseView::Claiming(job), EventView::Done) => PhaseView::Fetching(job),
            (PhaseView::Suspended, EventView::Woken) => PhaseView::CheckingActive,
            (PhaseView::Fetching(job), EventView::Exit(_)) => PhaseView::CheckingOut(job),
            (PhaseView::CheckingOut(job), EventView::Exit(code)) => if succeeded(code) {
                PhaseView::Deploying(job)
            } else {
                PhaseView::Failing { job, save_stderr: true }
            },
            (PhaseView::Deploying(job), EventView::Exit(code)) => if succeeded(code) {
                PhaseView::Succeeding(job)
            } else {
                PhaseView::Failing { job, save_stderr: false }
            },
            (PhaseView::Failing { .. }, EventView::Done) => PhaseView::CheckingActive,
            (PhaseView::Succeeding(_), EventView::Done) => PhaseView::CheckingActive,
            _ => PhaseView::Halted,
        }
    }

    /// Whether `event` answers the request that is outstanding in this
    /// phase.
    pub open spec fn expects(self, event: EventView) -> bool {
        match self {
            PhaseView::CheckingActive => event is Active,
            PhaseView::SelectingPending => event is Pending,
            PhaseView::Claiming(_) => event is Done,
            PhaseView::Suspended => event is Woken,
            PhaseView::Fetching(_) => event is Exit,
            PhaseView::CheckingOut(_) => event is Exit,
            PhaseView::Deploying(_) => event is Exit,
            PhaseView::Failing { .. } => event is Done,
            PhaseView::Succeeding(_) => event is Done,
            PhaseView::Halted => false,
        }
    }

    /// The task that the dispatcher is working on in this phase, if any.
    pub open spec fn job(self) -> Option<JobView> {
        match self {
            PhaseView::Claiming(job) => Some(job),
            PhaseView::Fetching(job) => Some(job),
            PhaseView::CheckingOut(job) => Some(job),
            PhaseView::Deploying(job) => Some(job),
            PhaseView::Failing { job, .. } => Some(job),
            PhaseView::Succeeding(job) => Some(job),
            _ => None,
        }
    }
}

/// The dispatcher stops only when the store fails or a report does not
/// answer its request: every report that does keeps it running.
pub proof fn lemma_halts_only_on_failure(phase: PhaseView, event: EventView)
    requires
        phase != PhaseView::Halted,
        phase.expects(event),
    ensures
        phase.next(event) != PhaseView::Halted,
{
}

/// The check for an active task comes before every claim: a task is
/// claimed only right after it was selected, and a task is selected only
/// right after no active task was found.
pub proof fn lemma_check_precedes_claim(phase: PhaseView, event: EventView)
    ensures
        phase.next(event) is Claiming ==> phase == PhaseView::SelectingPending,
        phase.next(event) == PhaseView::SelectingPending ==> phase == PhaseView::CheckingActive
            && event == EventView::Active(None),
        phase.next(event).request() is Claim ==> phase.next(event) is Claiming,
{
}

/// One rule for every stage that can fail a task: a checkout or a deploy
/// command that does not exit with 0 makes the dispatcher record the
/// failure of that task.
pub proof fn lemma_failure_rule(job: JobView, code: Option<i32>)
    requires
        !succeeded(code),
    ensures
        PhaseView::CheckingOut(job).next(EventView::Exit(code)).request() == (ActionView::Fail {
            id: job.id,
            save_stderr: true,
        }),
        PhaseView::Deploying(job).next(EventView::Exit(code)).request() == (ActionView::Fail {
            id: job.id,
            save_stderr: false,
        }),
{
}

/// A failure is recorded for nothing but a checkout or a deploy command
/// that did not exit with 0.
pub proof fn lemma_failure_cause(phase: PhaseView, event: EventView)
    requires
        phase.next(event) is Failing,
    ensures
        phase is CheckingOut || phase is Deploying,
        event is Exit,
        !succeeded(event->Exit_0),
        phase.job() == phase.next(event).job(),
{
}

/// A task is marked as deployed only after its own deploy command exited
/// with 0.
pub proof fn lemma_success_cause(phase: PhaseView, event: EventView)
    requires
        phase.next(event) is Succeeding,
    ensures
        phase is Deploying,
        event == EventView::Exit(Some(0i32)),
        phase.job() == phase.next(event).job(),
{
}

/// The refresh of the working copy is best effort: however it ends, the
/// checkout of the task's branch follows.
pub proof fn lemma_fetch_never_fails(job: JobView, code: Option<i32>)
    ensures
        PhaseView::Fetching(job).next(EventView::Exit(code)) == PhaseView::CheckingOut(job),
        PhaseView::CheckingOut(job).request() == (ActionView::Checkout {
            reference: checkout_ref(job.branch),
        }),
{
}

/// The ref to check out for `branch`.
pub fn checkout_reference(branch: &str) -> (reference: String)
    ensures
        reference@ == checkout_ref(branch@),
{
    String::from_str("origin/").concat(branch)
}

/// Whether a process that ended with `code` succeeded.
pub fn exit_succeeded(code: Option<i32>) -> (ok: bool)
    ensures
        ok == succeeded(code),
{
    match code {
        Some(c) => c == 0,
        None => false,
    }
}

/// The dispatcher's place in its loop.
#[derive(Debug, PartialEq, Eq)]
pub struct Dispatcher {
    phase: Phase,
}

impl View for Dispatcher {
    type V = PhaseView;

    closed spec fn view(&self) -> PhaseView {
        self.phase@
    }
}

impl Dispatcher {
    /// A dispatcher at the start of its loop: about to look for an active
    /// task.
    pub fn new() -> (dispatcher: Dispatcher)
        ensures
            dispatcher@ == PhaseView::initial(),
    {
        Dispatcher { phase: Phase::CheckingActive }
    }

    /// The phase the dispatcher is in.
    pub fn phase(&self) -> (phase: &Phase)
        ensures
            phase@ == self@,
    {
        &self.phase
    }

    /// Whether the dispatcher has stopped for good.
    pub fn is_halted(&self) -> (halted: bool)
        ensures
            halted == (self@ == PhaseView::Halted),
    {
        match &self.phase {
            Phase::Halted => true,
            _ => false,
        }
    }

    /// What the driver has to do now.
    pub fn request(&self) -> (action: Action)
        ensures
            action@ == self@.request(),
    {
        match &self.phase {
            Phase::CheckingActive => Action::FindActive,
            Phase::SelectingPending => Action::SelectPending,
            Phase::Claiming(job) => Action::Claim { id: job.id },
            Phase::Suspended => Action::Wait,
            Phase::Fetching(_) => Action::Fetch,
            Phase::CheckingOut(job) => Action::Checkout {
                reference: checkout_reference(job.branch.as_str()),
            },
            Phase::Deploying(job) => Action::Deploy { id: job.id },
            Phase::Failing { job, save_stderr } => Action::Fail {
                id: job.id,
                save_stderr: *save_stderr,
            },
            Phase::Succeeding(job) => Action::Succeed { id: job.id },
            Phase::Halted => Action::Halt,
        }
    }

    /// Takes the report on the outstanding request and moves to the phase
    /// that follows.
    pub fn advance(&mut self, event: Event)
        ensures
            final(self)@ == old(self)@.next(event@),
    {
        let mut phase = Phase::Halted;
        std::mem::swap(&mut phase, &mut self.phase);
        self.phase = match (phase, event) {
            (Phase::CheckingActive, Event::Active(Some(_))) => Phase::Suspended,
            (Phase::CheckingActive, Event::Active(None)) => Phase::SelectingPending,
            (Phase::SelectingPending, Event::Pending(Some(job))) => Phase::Claiming(job),
            (Phase::SelectingPending, Event::Pending(None)) => Phase::Suspended,
            (Phase::Claiming(job), Event::Done) => Phase::Fetching(job),
            (Phase::Suspended, Event::Woken) => Phase::CheckingActive,
            (Phase::Fetching(job), Event::Exit(_)) => Phase::CheckingOut(job),
            (Phase::CheckingOut(job), Event::Exit(code)) => if exit_succeeded(code) {
                Phase::Deploying(job)
            } else {
                Phase::Failing { job, save_stderr: true }
            },
            (Phase::Deploying(job), Event::Exit(code)) => if exit_succeeded(code) {
                Phase::Succeeding(job)
            } else {
                Phase::Failing { job, save_stderr: false }
            },
            (Phase::Failing { .. }, Event::Done) => Phase::CheckingActive,
            (Phase::Succeeding(_), Event::Done) => Phase::CheckingActive,
            _ => Phase::Halted,
        };
    }

    /// Takes the report on the outstanding request and returns the next one.
    pub fn step(&mut self, event: Event) -> (action: Action)
        ensures
            final(self)@ == old(self)@.next(event@),
            action@ == final(self)@.request(),
    {
        self.advance(event);
        self.request()
    }
}

} // verus!
