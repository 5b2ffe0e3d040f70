//! The dispatcher and the task store taken together: how the store answers
//! the dispatcher's requests, and why every run of the two, with tasks being
//! created and updated in between, keeps at most one task active.

use crate::dispatcher::{Action, ActionView, Event, EventView, Job, PhaseView};
use crate::status::TaskStatus;
use crate::store::TaskStore;
use crate::table::Table;
use vstd::prelude::*;

verus! {

/// Whether `action` is a request to the store.
pub open spec fn asks_store(action: ActionView) -> bool {
    match action {
        ActionView::FindActive => true,
        ActionView::SelectPending => true,
        ActionView::Claim { .. } => true,
        ActionView::Fail { .. } => true,
        ActionView::Succeed { .. } => true,
        _ => false,
    }
}

/// Whether the store, holding `before`, may answer the request `action` at
/// `now` with `event` and then hold `after`.
pub open spec fn answers(
    before: Table,
    action: ActionView,
    now: i64,
    after: Table,
    event: EventView,
) -> bool {
    match action {
        ActionView::FindActive => {
            &&& after == before
            &&& match event {
                EventView::Active(Some(id)) => before.is_active(id),
                EventView::Active(None) => !before.has_active(),
                _ => false,
            }
        },
        ActionView::SelectPending => {
            &&& after == before
            &&& match event {
                EventView::Pending(Some(job)) => {
                    &&& before.is_oldest_pending(job.id)
                    &&& job.branch == before.rows[job.id].branch
                },
                EventView::Pending(None) => !before.has_pending(),
                _ => false,
            }
        },
        ActionView::Claim { id } => {
            &&& after == before.set_status(id, TaskStatus::Deploying, now)
            &&& event == EventView::Done
        },
        ActionView::Fail { id, .. } => {
            &&& after == before.set_status(id, TaskStatus::DeployFailed, now)
            &&& event == EventView::Done
        },
        ActionView::Succeed { id } => {
            &&& after == before.compare_and_set(
                id,
                TaskStatus::Deploying,
                TaskStatus::Deployed,
                now,
            )
            &&& event == EventView::Done
        },
        _ => false,
    }
}

/// Whether `event` may be reported for a request that goes past the store:
/// a wait ends by waking, a process by exiting.
pub open spec fn reports(action: ActionView, event: EventView) -> bool {
    match action {
        ActionView::Wait => event == EventView::Woken,
        ActionView::Fetch => event is Exit,
        ActionView::Checkout { .. } => event is Exit,
        ActionView::Deploy { .. } => event is Exit,
        _ => false,
    }
}

/// Answers a request of the dispatcher from the store. Requests that are not
/// for the store (a wait, a process, the halt) get no answer and leave the
/// store as it is.
pub fn serve(store: &mut TaskStore, action: &Action, now: i64) -> (r: Option<Event>)
    ensures
        r is Some <==> asks_store(action@),
        match r {
            Some(event) => answers(old(store)@, action@, now, final(store)@, event@),
            None => final(store)@ == old(store)@,
        },
{
    match action {
        Action::FindActive => {
            let found = match store.find_active() {
                Some(task) => Some(task.id),
                None => None,
            };
            Some(Event::Active(found))
        },
        Action::SelectPending => {
            let found = match store.oldest_pending() {
                Some(task) => Some(Job { id: task.id, branch: task.branch.clone() }),
                None => None,
            };
            Some(Event::Pending(found))
        },
        Action::Claim { id } => {
            store.set_status(*id, TaskStatus::Deploying, now);
            Some(Event::Done)
        },
        Action::Fail { id, save_stderr: _ } => {
            store.set_status(*id, TaskStatus::DeployFailed, now);
            Some(Event::Done)
        },
        Action::Succeed { id } => {
            store.compare_and_set(*id, TaskStatus::Deploying, TaskStatus::Deployed, now);
            Some(Event::Done)
        },
        _ => None,
    }
}

/// The dispatcher's claim in three requests is the store's claim in one:
/// where the look for an active task finds one, or the selection finds no
/// pending task, a claim changes nothing; and where a task is selected,
/// marking it as deploying is what a claim does.
pub proof fn lemma_claim_in_steps(table: Table, active: EventView, pending: EventView, now: i64)
    requires
        answers(table, ActionView::FindActive, now, table, active),
        active == EventView::Active(None) ==> answers(
            table,
            ActionView::SelectPending,
            now,
            table,
            pending,
        ),
    ensures
        active != EventView::Active(None) ==> table.claim(now) == table,
        active == EventView::Active(None) && pending == EventView::Pending(None) ==> table.claim(
            now,
        ) == table,
        active == EventView::Active(None) ==> (pending matches EventView::Pending(Some(job))
            ==> table.claim(now) == table.set_status(job.id, TaskStatus::Deploying, now)),
{
    if active == EventView::Active(None) {
        match pending {
            EventView::Pending(Some(job)) => {
                table.lemma_oldest_pending_unique(job.id);
            },
            _ => {
                table.lemma_no_pending();
            },
        }
    }
}

/// The store and the dispatcher at one instant.
pub ghost struct System {
    pub table: Table,
    pub phase: PhaseView,
}

impl System {
    /// An empty store and a dispatcher at the start of its loop.
    pub open spec fn initial() -> System {
        System { table: Table::empty(), phase: PhaseView::initial() }
    }

    /// A client creates a task for `branch` at `now`.
    pub open spec fn creates_with(self, next: System, branch: Seq<char>, now: i64) -> bool {
        &&& self.table.next_id < u64::MAX
        &&& next.table == self.table.create(branch, now)
        &&& next.phase == self.phase
    }

    /// A client creates a task.
    pub open spec fn creates(self, next: System) -> bool {
        exists|branch: Seq<char>, now: i64| self.creates_with(next, branch, now)
    }

    /// A client updates the task `id`, without setting an active status by
    /// hand.
    pub open spec fn updates_with(
        self,
        next: System,
        id: u64,
        status: Option<TaskStatus>,
        score: Option<i64>,
        now: i64,
    ) -> bool {
        &&& status matches Some(s) ==> !s.active()
        &&& next.table == self.table.update(id, status, score, now)
        &&& next.phase == self.phase
    }

    /// A client updates a task, without setting an active status by hand.
    pub open spec fn updates(self, next: System) -> bool {
        exists|id: u64, status: Option<TaskStatus>, score: Option<i64>, now: i64|
            self.updates_with(next, id, status, score, now)
    }

    /// The dispatcher's outstanding request is performed at `now` and
    /// reported as `event`: the store answers it, or it is a wait or a
    /// process that ends, or the store fails.
    pub open spec fn dispatches_with(self, next: System, now: i64, event: EventView) -> bool {
        &&& next.phase == self.phase.next(event)
        &&& {
            ||| answers(self.table, self.phase.request(), now, next.table, event)
            ||| next.table == self.table && reports(self.phase.request(), event)
            ||| next.table == self.table && event == EventView::StoreFailed
        }
    }

    /// The dispatcher's outstanding request is performed and reported.
    pub open spec fn dispatches(self, next: System) -> bool {
        exists|now: i64, event: EventView| self.dispatches_with(next, now, event)
    }

    /// One step of the system.
    pub open spec fn steps_to(self, next: System) -> bool {
        self.creates(next) || self.updates(next) || self.dispatches(next)
    }

    /// What holds of the store in each phase of the dispatcher: inside the
    /// claim no task is active; while the dispatcher works on a task no
    /// other task is active; otherwise at most one task is.
    pub open spec fn safe(self) -> bool {
        match self.phase {
            PhaseView::SelectingPending => !self.table.has_active(),
            PhaseView::Claiming(_) => !self.table.has_active(),
            PhaseView::Fetching(job) => self.table.only_active(job.id),
            PhaseView::CheckingOut(job) => self.table.only_active(job.id),
            PhaseView::Deploying(job) => self.table.only_active(job.id),
            PhaseView::Failing { job, .. } => self.table.only_active(job.id),
            PhaseView::Succeeding(job) => self.table.only_active(job.id),
            _ => self.table.exclusive(),
        }
    }
}

/// A run: a sequence of instants that starts with the initial system and
/// goes on by single steps.
pub open spec fn is_run(trace: Seq<System>) -> bool {
    &&& trace.len() > 0
    &&& trace[0] == System::initial()
    &&& forall|i: int| 0 <= i < trace.len() - 1 ==> (#[trigger] trace[i]).steps_to(trace[i + 1])
}

/// In every phase, a safe system has at most one active task.
pub proof fn lemma_safe_is_exclusive(system: System)
    requires
        system.safe(),
    ensures
        system.table.exclusive(),
{
}

/// The initial system is safe.
pub proof fn lemma_initial_safe()
    ensures
        System::initial().safe(),
{
}

/// Every step keeps a safe system safe.
pub proof fn lemma_step_keeps_safe(before: System, after: System)
    requires
        before.safe(),
        before.steps_to(after),
    ensures
        after.safe(),
{
    if before.creates(after) {
        let (branch, now) = choose|branch: Seq<char>, now: i64|
            before.creates_with(after, branch, now);
        before.table.lemma_create_activates_none(branch, now);
        after.table.lemma_bounds_kept(before.table);
    } else if before.updates(after) {
        let (id, status, score, now) = choose|
            id: u64,
            status: Option<TaskStatus>,
            score: Option<i64>,
            now: i64,
        | before.updates_with(after, id, status, score, now);
        before.table.lemma_update_activates_none(id, status, score, now);
        after.table.lemma_bounds_kept(before.table);
    } else {
        let (now, event) = choose|now: i64, event: EventView|
            before.dispatches_with(after, now, event);
        lemma_dispatch_keeps_safe(before, after, now, event);
    }
}

/// A step of the dispatcher keeps a safe system safe.
proof fn lemma_dispatch_keeps_safe(before: System, after: System, now: i64, event: EventView)
    requires
        before.safe(),
        before.dispatches_with(after, now, event),
    ensures
        after.safe(),
{
    if after.table == before.table {
        // A query, a wait, a process or a failure of the store: only the
        // phase moves.
    } else {
        match before.phase.request() {
            ActionView::Claim { id } => {
                assert(forall|a: u64| after.table.is_active(a) ==> a == id || before.table.is_active(a));
            },
            ActionView::Fail { id, .. } => {
                assert(forall|a: u64| after.table.is_active(a) ==> before.table.is_active(a));
            },
            ActionView::Succeed { id } => {
                assert(forall|a: u64| after.table.is_active(a) ==> before.table.is_active(a));
            },
            _ => {},
        }
    }
}

/// At every instant of every run at most one task is deploying or deployed.
pub proof fn lemma_runs_are_exclusive(trace: Seq<System>, at: int)
    requires
        is_run(trace),
        0 <= at < trace.len(),
    ensures
        trace[at].safe(),
        trace[at].table.exclusive(),
    decreases at,
{
    if at == 0 {
        lemma_initial_safe();
    } else {
        lemma_runs_are_exclusive(trace, at - 1);
        lemma_step_keeps_safe(trace[at - 1], trace[at]);
    }
    lemma_safe_is_exclusive(trace[at]);
}

} // verus!
