//! The task table as a mathematical value: rows keyed by task id, and the
//! operations on it as functions from table to table.

use crate::status::TaskStatus;
use crate::task::TaskView;
use vstd::prelude::*;

verus! {

/// The content of a task store.
pub ghost struct Table {
    /// The rows, each under its task's id.
    pub rows: Map<u64, TaskView>,
    /// The id that the next created task receives.
    pub next_id: u64,
}

impl Table {
    /// The table before any task was created.
    pub open spec fn empty() -> Table {
        Table { rows: Map::empty(), next_id: 1 }
    }

    /// Every row sits under its own id, and all ids were assigned already.
    pub open spec fn wf(self) -> bool {
        &&& 1 <= self.next_id
        &&& forall|id: u64| #[trigger]
            self.rows.contains_key(id) ==> self.rows[id].id == id && 1 <= id < self.next_id
    }

    /// The row `id` exists and has the given status.
    pub open spec fn has_status(self, id: u64, status: TaskStatus) -> bool {
        self.rows.contains_key(id) && self.rows[id].status == status
    }

    /// The row `id` exists and is deploying or deployed.
    pub open spec fn is_active(self, id: u64) -> bool {
        self.rows.contains_key(id) && self.rows[id].status.active()
    }

    /// Some task is deploying or deployed.
    pub open spec fn has_active(self) -> bool {
        exists|id: u64| self.is_active(id)
    }

    /// At most one task is deploying or deployed.
    pub open spec fn exclusive(self) -> bool {
        forall|a: u64, b: u64| self.is_active(a) && self.is_active(b) ==> a == b
    }

    /// No task but `id` is deploying or deployed.
    pub open spec fn only_active(self, id: u64) -> bool {
        forall|a: u64| self.is_active(a) ==> a == id
    }

    /// Every task that is active in `self` is active in `before` too.
    pub open spec fn activates_none_since(self, before: Table) -> bool {
        forall|id: u64| self.is_active(id) ==> before.is_active(id)
    }

    /// Some task is pending.
    pub open spec fn has_pending(self) -> bool {
        exists|id: u64| self.has_status(id, TaskStatus::Pending)
    }

    /// `id` is the pending task with the smallest id.
    pub open spec fn is_oldest_pending(self, id: u64) -> bool {
        &&& self.has_status(id, TaskStatus::Pending)
        &&& forall|other: u64| self.has_status(other, TaskStatus::Pending) ==> id <= other
    }

    /// The pending task with the smallest id, where one is pending.
    pub open spec fn oldest_pending(self) -> Option<u64> {
        if exists|id: u64| self.is_oldest_pending(id) {
            Some(choose|id: u64| self.is_oldest_pending(id))
        } else {
            None
        }
    }

    /// The task that a claim takes: the oldest pending one, unless the
    /// deployment slot is occupied.
    pub open spec fn claimable(self) -> Option<u64> {
        if self.has_active() {
            None
        } else {
            self.oldest_pending()
        }
    }

    /// The table after a task for `branch` was created at `now`.
    pub open spec fn create(self, branch: Seq<char>, now: i64) -> Table
        recommends
            self.next_id < u64::MAX,
    {
        Table {
            rows: self.rows.insert(self.next_id, TaskView::fresh(self.next_id, branch, now)),
            next_id: (self.next_id + 1) as u64,
        }
    }

    /// The table after the status of row `id` was set; unchanged where there
    /// is no such row.
    pub open spec fn set_status(self, id: u64, status: TaskStatus, now: i64) -> Table {
        if self.rows.contains_key(id) {
            Table { rows: self.rows.insert(id, self.rows[id].with_status(status, now)), ..self }
        } else {
            self
        }
    }

    /// The table after a score was attached to row `id`; unchanged where
    /// there is no such row.
    pub open spec fn set_score(self, id: u64, score: i64, now: i64) -> Table {
        if self.rows.contains_key(id) {
            Table { rows: self.rows.insert(id, self.rows[id].with_score(score, now)), ..self }
        } else {
            self
        }
    }

    /// The table after a partial update: the score first, then the status,
    /// each where it is present.
    pub open spec fn update(
        self,
        id: u64,
        status: Option<TaskStatus>,
        score: Option<i64>,
        now: i64,
    ) -> Table {
        let scored = match score {
            Some(score) => self.set_score(id, score, now),
            None => self,
        };
        match status {
            Some(status) => scored.set_status(id, status, now),
            None => scored,
        }
    }

    /// The table after a guarded transition: row `id` moves from `from` to
    /// `to` if it has status `from`, and nothing changes otherwise.
    pub open spec fn compare_and_set(
        self,
        id: u64,
        from: TaskStatus,
        to: TaskStatus,
        now: i64,
    ) -> Table {
        if self.has_status(id, from) {
            self.set_status(id, to, now)
        } else {
            self
        }
    }

    /// The table after a claim at `now`.
    pub open spec fn claim(self, now: i64) -> Table {
        match self.claimable() {
            Some(id) => self.set_status(id, TaskStatus::Deploying, now),
            None => self,
        }
    }

    /// There is at most one oldest pending task, and `oldest_pending` names it.
    pub proof fn lemma_oldest_pending_unique(self, id: u64)
        requires
            self.is_oldest_pending(id),
        ensures
            self.oldest_pending() == Some(id),
    {
        let chosen = choose|c: u64| self.is_oldest_pending(c);
        assert(id <= chosen && chosen <= id);
    }

    /// Without a pending task there is no oldest one.
    pub proof fn lemma_no_pending(self)
        requires
            !self.has_pending(),
        ensures
            self.oldest_pending().is_none(),
    {
        if exists|id: u64| self.is_oldest_pending(id) {
            let id = choose|id: u64| self.is_oldest_pending(id);
            assert(self.has_status(id, TaskStatus::Pending));
        }
    }

    /// What `oldest_pending` returns is the least pending id.
    pub proof fn lemma_oldest_pending_is_least(self)
        ensures
            self.oldest_pending() matches Some(id) ==> self.is_oldest_pending(id),
    {
    }

    /// A claim admits a task only while none is active, so it keeps the
    /// table exclusive.
    pub proof fn lemma_claim_keeps_exclusive(self, now: i64)
        requires
            self.exclusive(),
        ensures
            self.claim(now).exclusive(),
    {
        match self.claimable() {
            Some(id) => {
                let after = self.claim(now);
                assert forall|a: u64, b: u64| after.is_active(a) && after.is_active(b) implies a
                    == b by {
                    if a != id {
                        assert(self.is_active(a));
                    }
                    if b != id {
                        assert(self.is_active(b));
                    }
                }
            },
            None => {},
        }
    }

    /// A change that activates no task keeps every bound on the active
    /// tasks: none, none but one, at most one.
    pub proof fn lemma_bounds_kept(self, before: Table)
        requires
            self.activates_none_since(before),
        ensures
            before.exclusive() ==> self.exclusive(),
            !before.has_active() ==> !self.has_active(),
            forall|only: u64| before.only_active(only) ==> self.only_active(only),
    {
    }

    /// A new task is pending, so creating one activates none.
    pub proof fn lemma_create_activates_none(self, branch: Seq<char>, now: i64)
        ensures
            self.create(branch, now).activates_none_since(self),
            self.exclusive() ==> self.create(branch, now).exclusive(),
    {
        self.create(branch, now).lemma_bounds_kept(self);
    }

    /// Attaching a score changes no status.
    pub proof fn lemma_set_score_activates_none(self, id: u64, score: i64, now: i64)
        ensures
            self.set_score(id, score, now).activates_none_since(self),
            self.exclusive() ==> self.set_score(id, score, now).exclusive(),
    {
        self.set_score(id, score, now).lemma_bounds_kept(self);
    }

    /// Setting a status that is not active activates no task.
    pub proof fn lemma_set_status_activates_none(self, id: u64, status: TaskStatus, now: i64)
        requires
            !status.active(),
        ensures
            self.set_status(id, status, now).activates_none_since(self),
            self.exclusive() ==> self.set_status(id, status, now).exclusive(),
    {
        self.set_status(id, status, now).lemma_bounds_kept(self);
    }

    /// A partial update that sets no active status activates no task.
    pub proof fn lemma_update_activates_none(
        self,
        id: u64,
        status: Option<TaskStatus>,
        score: Option<i64>,
        now: i64,
    )
        requires
            status matches Some(s) ==> !s.active(),
        ensures
            self.update(id, status, score, now).activates_none_since(self),
            self.exclusive() ==> self.update(id, status, score, now).exclusive(),
    {
        let scored = match score {
            Some(score) => self.set_score(id, score, now),
            None => self,
        };
        if let Some(score) = score {
            self.lemma_set_score_activates_none(id, score, now);
        }
        if let Some(status) = status {
            scored.lemma_set_status_activates_none(id, status, now);
        }
        self.update(id, status, score, now).lemma_bounds_kept(self);
    }

    /// A guarded transition that starts from an active status, or ends in
    /// one that is not active, activates no task.
    pub proof fn lemma_compare_and_set_activates_none(
        self,
        id: u64,
        from: TaskStatus,
        to: TaskStatus,
        now: i64,
    )
        requires
            from.active() || !to.active(),
        ensures
            self.compare_and_set(id, from, to, now).activates_none_since(self),
            self.exclusive() ==> self.compare_and_set(id, from, to, now).exclusive(),
    {
        self.compare_and_set(id, from, to, now).lemma_bounds_kept(self);
    }

    /// Some pending task at or below `bound` is the oldest one, if any task
    /// at or below `bound` is pending.
    proof fn lemma_oldest_below(self, bound: u64)
        requires
            self.has_status(bound, TaskStatus::Pending),
        ensures
            exists|id: u64| self.is_oldest_pending(id),
        decreases bound,
    {
        if exists|other: u64| self.has_status(other, TaskStatus::Pending) && other < bound {
            let other = choose|other: u64|
                self.has_status(other, TaskStatus::Pending) && other < bound;
            self.lemma_oldest_below(other);
        } else {
            assert(self.is_oldest_pending(bound));
        }
    }

    /// A claim takes a task exactly when none is active and one is pending,
    /// and then it takes the pending task with the smallest id: first in,
    /// first out.
    pub proof fn lemma_claim_order(self)
        ensures
            self.claimable() is Some <==> !self.has_active() && self.has_pending(),
            self.claimable() matches Some(id) ==> self.is_oldest_pending(id),
    {
        if self.has_pending() {
            let some = choose|id: u64| self.has_status(id, TaskStatus::Pending);
            self.lemma_oldest_below(some);
        } else {
            self.lemma_no_pending();
        }
    }

    /// A guarded transition does not overwrite a status that was set in
    /// between: once the task `id` was moved away from `from`, a later move
    /// from `from` to `to` leaves the table as it is.
    pub proof fn lemma_guarded_transition(
        self,
        id: u64,
        set: TaskStatus,
        set_at: i64,
        from: TaskStatus,
        to: TaskStatus,
        now: i64,
    )
        requires
            set != from,
        ensures
            self.set_status(id, set, set_at).compare_and_set(id, from, to, now) == self.set_status(
                id,
                set,
                set_at,
            ),
    {
    }

    /// An update with a score alone leaves every status as it was, and
    /// changes no task but the one it names.
    pub proof fn lemma_score_keeps_status(self, id: u64, score: i64, now: i64)
        ensures
            self.update(id, None, Some(score), now) == self.set_score(id, score, now),
            self.update(id, None, Some(score), now).rows.dom() == self.rows.dom(),
            forall|other: u64| #[trigger]
                self.rows.contains_key(other) ==> self.update(
                    id,
                    None,
                    Some(score),
                    now,
                ).rows[other].status == self.rows[other].status,
            forall|other: u64| #[trigger]
                self.rows.contains_key(other) && other != id ==> self.update(
                    id,
                    None,
                    Some(score),
                    now,
                ).rows[other] == self.rows[other],
    {
    }

    /// The steps that the dispatcher takes on a task follow its lifecycle:
    /// a claim moves a pending task to deploying, and from there a success
    /// moves it to deployed and a failure to failed.
    pub proof fn lemma_dispatcher_transitions(self, id: u64, now: i64)
        requires
            self.rows.contains_key(id),
        ensures
            self.claimable() == Some(id) ==> self.rows[id].status.dispatcher_moves(
                self.claim(now).rows[id].status,
            ),
            self.has_status(id, TaskStatus::Deploying) ==> self.rows[id].status.dispatcher_moves(
                self.compare_and_set(
                    id,
                    TaskStatus::Deploying,
                    TaskStatus::Deployed,
                    now,
                ).rows[id].status,
            ),
            self.has_status(id, TaskStatus::Deploying) ==> self.rows[id].status.dispatcher_moves(
                self.set_status(id, TaskStatus::DeployFailed, now).rows[id].status,
            ),
    {
        if self.claimable() == Some(id) {
            self.lemma_oldest_pending_is_least();
        }
    }
}

} // verus!
