//! The task store: the table of tasks and the operations that read and
//! change it, among them the claim that admits at most one deployment.

use crate::error::{AppError, AppErrorView};
use crate::keyed::{
    distinct_keys, has_key, keyed, lemma_entry, lemma_position, lemma_push, lemma_update, position,
};
use crate::status::TaskStatus;
use crate::table::Table;
use crate::task::{Task, TaskView};
use vstd::prelude::*;
use vstd::string::*;

verus! {

/// The key of a task in the table: its id.
pub open spec fn task_id() -> spec_fn(Task) -> u64 {
    |task: Task| task.id
}

/// The value of a task in the table: its view.
pub open spec fn task_view() -> spec_fn(Task) -> TaskView {
    |task: Task| task@
}

/// Whether some element of `tasks` has the id `id`.
pub open spec fn holds(tasks: Seq<Task>, id: u64) -> bool {
    has_key(tasks, task_id(), id)
}

/// No two elements of `tasks` share an id.
pub open spec fn distinct_ids(tasks: Seq<Task>) -> bool {
    distinct_keys(tasks, task_id())
}

/// The rows that a list of tasks with distinct ids stands for.
pub open spec fn rows_of(tasks: Seq<Task>) -> Map<u64, TaskView> {
    keyed(tasks, task_id(), task_view())
}

/// The position of the task with the id `id`.
spec fn slot(tasks: Seq<Task>, id: u64) -> int {
    position(tasks, task_id(), id)
}

/// Each element of a list with distinct ids is the row under its id.
proof fn lemma_row_at(tasks: Seq<Task>, i: int)
    requires
        distinct_ids(tasks),
        0 <= i < tasks.len(),
    ensures
        holds(tasks, tasks[i].id),
        slot(tasks, tasks[i].id) == i,
        rows_of(tasks).contains_key(tasks[i].id),
        rows_of(tasks)[tasks[i].id] == tasks[i]@,
{
    lemma_entry(tasks, task_id(), task_view(), i);
}

/// Each row is the view of the element at its position.
proof fn lemma_row_of(tasks: Seq<Task>, id: u64)
    requires
        distinct_ids(tasks),
        holds(tasks, id),
    ensures
        0 <= slot(tasks, id) < tasks.len(),
        tasks[slot(tasks, id)].id == id,
        rows_of(tasks)[id] == tasks[slot(tasks, id)]@,
{
    lemma_position(tasks, task_id(), id);
}

/// Appending a task with a new id inserts its row.
proof fn lemma_rows_push(tasks: Seq<Task>, task: Task)
    requires
        distinct_ids(tasks),
        !holds(tasks, task.id),
    ensures
        distinct_ids(tasks.push(task)),
        rows_of(tasks.push(task)) == rows_of(tasks).insert(task.id, task@),
{
    lemma_push(tasks, task_id(), task_view(), task);
}

/// Replacing a task by one with the same id replaces its row.
proof fn lemma_rows_update(tasks: Seq<Task>, i: int, task: Task)
    requires
        distinct_ids(tasks),
        0 <= i < tasks.len(),
        task.id == tasks[i].id,
    ensures
        distinct_ids(tasks.update(i, task)),
        rows_of(tasks.update(i, task)) == rows_of(tasks).insert(task.id, task@),
{
    lemma_update(tasks, task_id(), task_view(), i, task);
}

/// The durable table of tasks.
pub struct TaskStore {
    tasks: Vec<Task>,
    next_id: u64,
}

impl View for TaskStore {
    type V = Table;

    closed spec fn view(&self) -> Table {
        Table { rows: rows_of(self.tasks@), next_id: self.next_id }
    }
}

impl TaskStore {
    #[verifier::type_invariant]
    spec fn inv(self) -> bool {
        &&& 1 <= self.next_id
        &&& distinct_ids(self.tasks@)
        &&& forall|i: int| 0 <= i < self.tasks.len() ==> 1 <= #[trigger] self.tasks[i].id < self.next_id
    }

    /// The invariant as it reads on the table: every row sits under its own
    /// id, below the next id to assign.
    proof fn lemma_wf(self)
        requires
            self.inv(),
        ensures
            self@.wf(),
    {
        assert forall|id: u64| #[trigger] self@.rows.contains_key(id) implies self@.rows[id].id
            == id && 1 <= id < self@.next_id by {
            lemma_row_of(self.tasks@, id);
        }
    }

    /// Moves the tasks out, to change them while the store stays valid.
    fn take_tasks(&mut self) -> (tasks: Vec<Task>)
        ensures
            tasks == old(self).tasks,
            final(self).tasks@.len() == 0,
            final(self).next_id == old(self).next_id,
    {
        proof {
            use_type_invariant(&*self);
        }
        let mut tasks = Vec::new();
        std::mem::swap(&mut tasks, &mut self.tasks);
        tasks
    }

    /// A store without tasks; the first task created in it gets the id 1.
    pub fn new() -> (store: TaskStore)
        ensures
            store@ == Table::empty(),
            store@.wf(),
    {
        let store = TaskStore { tasks: Vec::new(), next_id: 1 };
        assert(store@.rows =~= Map::empty());
        store
    }

    /// A store that holds the given rows, in any order. The next id to
    /// assign is the one after the largest id among them.
    ///
    /// `None` where two rows share an id, or an id is 0 or the largest
    /// number there is: no store assigns such ids.
    pub fn restore(tasks: Vec<Task>) -> (r: Option<TaskStore>)
        ensures
            r is Some <==> distinct_ids(tasks@) && forall|i: int|
                0 <= i < tasks.len() ==> 1 <= #[trigger] tasks[i].id < u64::MAX,
            r matches Some(store) ==> {
                &&& store@.wf()
                &&& store@.rows == rows_of(tasks@)
                &&& store@.next_id == 1 || store@.rows.contains_key((store@.next_id - 1) as u64)
            },
    {
        let mut next_id: u64 = 1;
        let mut i: usize = 0;
        while i < tasks.len()
            invariant
                i <= tasks.len(),
                1 <= next_id,
                forall|a: int, b: int| 0 <= a < b < i ==> tasks[a].id != tasks[b].id,
                forall|k: int| 0 <= k < i ==> 1 <= #[trigger] tasks[k].id < next_id,
                next_id == 1 || exists|k: int| 0 <= k < i && tasks[k].id == next_id - 1,
            decreases tasks.len() - i,
        {
            let id = tasks[i].id;
            if id == 0 || id == u64::MAX {
                return None;
            }
            let mut j: usize = 0;
            while j < i
                invariant
                    j <= i,
                    i < tasks.len(),
                    id == tasks[i as int].id,
                    forall|k: int| 0 <= k < j ==> tasks[k].id != id,
                decreases i - j,
            {
                if tasks[j].id == id {
                    return None;
                }
                j = j + 1;
            }
            if id >= next_id {
                next_id = id + 1;
            }
            i = i + 1;
        }
        let store = TaskStore { tasks, next_id };
        proof {
            store.lemma_wf();
            if next_id != 1 {
                let k = choose|k: int| 0 <= k < tasks.len() && tasks[k].id == next_id - 1;
                lemma_row_at(tasks@, k);
            }
        }
        Some(store)
    }

    /// Creates a pending task for `branch` and returns its id.
    ///
    /// An empty branch is refused, and so is a creation once the ids are
    /// used up; the store is unchanged then.
    pub fn create(&mut self, branch: &str, now: i64) -> (r: Result<u64, AppError>)
        ensures
            final(self)@.wf(),
            old(self)@.exclusive() ==> final(self)@.exclusive(),
            match r {
                Ok(id) => {
                    &&& branch@.len() > 0
                    &&& old(self)@.next_id < u64::MAX
                    &&& id == old(self)@.next_id
                    &&& final(self)@ == old(self)@.create(branch@, now)
                },
                Err(e) => {
                    &&& final(self)@ == old(self)@
                    &&& if branch@.len() == 0 {
                        e@ == AppErrorView::InvalidQueryParameter("branch"@)
                    } else {
                        old(self)@.next_id == u64::MAX && e@ == AppErrorView::Internal(
                            "task ids exhausted"@,
                        )
                    }
                },
            },
    {
        proof {
            use_type_invariant(&*self);
            self.lemma_wf();
        }
        if branch.is_empty() {
            return Err(AppError::invalid("branch"));
        }
        if self.next_id == u64::MAX {
            return Err(AppError::internal("task ids exhausted"));
        }
        let id = self.next_id;
        let task = Task {
            id,
            branch: String::from_str(branch),
            status: TaskStatus::Pending,
            score: None,
            created_at: now,
            updated_at: now,
        };
        proof {
            assert(!holds(self.tasks@, id)) by {
                if holds(self.tasks@, id) {
                    lemma_row_of(self.tasks@, id);
                }
            }
            lemma_rows_push(self.tasks@, task);
            self@.lemma_create_activates_none(branch@, now);
        }
        let mut tasks = self.take_tasks();
        tasks.push(task);
        self.next_id = id + 1;
        self.tasks = tasks;
        proof {
            self.lemma_wf();
        }
        Ok(id)
    }

    /// The position of the task `id` among the stored tasks.
    fn find_index(&self, id: u64) -> (r: Option<usize>)
        ensures
            match r {
                Some(i) => i < self.tasks.len() && self.tasks[i as int].id == id,
                None => !holds(self.tasks@, id),
            },
    {
        let mut i: usize = 0;
        while i < self.tasks.len()
            invariant
                i <= self.tasks.len(),
                forall|k: int| 0 <= k < i ==> self.tasks[k].id != id,
            decreases self.tasks.len() - i,
        {
            if self.tasks[i].id == id {
                return Some(i);
            }
            i = i + 1;
        }
        None
    }

    /// The task with the id `id`, if the store holds one.
    pub fn get(&self, id: u64) -> (r: Option<&Task>)
        ensures
            self@.wf(),
            match r {
                Some(task) => self@.rows.contains_key(id) && task@ == self@.rows[id],
                None => !self@.rows.contains_key(id),
            },
    {
        proof {
            use_type_invariant(self);
            self.lemma_wf();
        }
        match self.find_index(id) {
            Some(i) => {
                proof {
                    lemma_row_at(self.tasks@, i as int);
                }
                Some(&self.tasks[i])
            },
            None => None,
        }
    }

    /// All tasks, each once, in no particular order.
    pub fn list(&self) -> (tasks: &Vec<Task>)
        ensures
            self@.wf(),
            distinct_ids(tasks@),
            rows_of(tasks@) == self@.rows,
    {
        proof {
            use_type_invariant(self);
            self.lemma_wf();
        }
        &self.tasks
    }

    /// Sets the status of the task `id` and refreshes its time of change;
    /// does nothing where there is no such task.
    pub fn set_status(&mut self, id: u64, status: TaskStatus, now: i64)
        ensures
            final(self)@.wf(),
            final(self)@ == old(self)@.set_status(id, status, now),
            !status.active() && old(self)@.exclusive() ==> final(self)@.exclusive(),
    {
        proof {
            use_type_invariant(&*self);
            self.lemma_wf();
            if !status.active() {
                self@.lemma_set_status_activates_none(id, status, now);
            }
        }
        match self.find_index(id) {
            Some(i) => {
                let mut tasks = self.take_tasks();
                let ghost before = tasks@;
                tasks[i].status = status;
                tasks[i].updated_at = now;
                proof {
                    lemma_row_at(before, i as int);
                    lemma_rows_update(before, i as int, tasks[i as int]);
                    assert(tasks@ =~= before.update(i as int, tasks[i as int]));
                }
                self.tasks = tasks;
                proof {
                    self.lemma_wf();
                }
            },
            None => {},
        }
    }

    /// Attaches a score to the task `id` and refreshes its time of change;
    /// does nothing where there is no such task.
    pub fn set_score(&mut self, id: u64, score: i64, now: i64)
        ensures
            final(self)@.wf(),
            final(self)@ == old(self)@.set_score(id, score, now),
            old(self)@.exclusive() ==> final(self)@.exclusive(),
    {
        proof {
            use_type_invariant(&*self);
            self.lemma_wf();
            self@.lemma_set_score_activates_none(id, score, now);
        }
        match self.find_index(id) {
            Some(i) => {
                let mut tasks = self.take_tasks();
                let ghost before = tasks@;
                tasks[i].score = Some(score);
                tasks[i].updated_at = now;
                proof {
                    lemma_row_at(before, i as int);
                    lemma_rows_update(before, i as int, tasks[i as int]);
                    assert(tasks@ =~= before.update(i as int, tasks[i as int]));
                }
                self.tasks = tasks;
                proof {
                    self.lemma_wf();
                }
            },
            None => {},
        }
    }

    /// Applies a partial update to the task `id`: the score, then the
    /// status, each where it is present and each as an update of its own.
    ///
    /// With neither field the update is refused and nothing changes. An
    /// update of a task that does not exist succeeds and changes nothing.
    pub fn update(
        &mut self,
        id: u64,
        status: Option<TaskStatus>,
        score: Option<i64>,
        now: i64,
    ) -> (r: Result<(), AppError>)
        ensures
            final(self)@.wf(),
            r is Err <==> status is None && score is None,
            r is Ok ==> final(self)@ == old(self)@.update(id, status, score, now),
            (status matches Some(s) ==> !s.active()) && old(self)@.exclusive()
                ==> final(self)@.exclusive(),
            r matches Err(e) ==> final(self)@ == old(self)@ && e@
                == AppErrorView::InvalidQueryParameter("status or score"@),
    {
        proof {
            use_type_invariant(&*self);
            self.lemma_wf();
            if status matches Some(s) ==> !s.active() {
                self@.lemma_update_activates_none(id, status, score, now);
            }
        }
        if status.is_none() && score.is_none() {
            return Err(AppError::invalid("status or score"));
        }
        if let Some(score) = score {
            self.set_score(id, score, now);
        }
        if let Some(status) = status {
            self.set_status(id, status, now);
        }
        Ok(())
    }

    /// The position of some active task.
    fn active_index(&self) -> (r: Option<usize>)
        ensures
            match r {
                Some(i) => i < self.tasks.len() && self@.is_active(self.tasks[i as int].id),
                None => !self@.has_active(),
            },
    {
        proof {
            use_type_invariant(self);
        }
        let mut i: usize = 0;
        while i < self.tasks.len()
            invariant
                i <= self.tasks.len(),
                distinct_ids(self.tasks@),
                forall|k: int| 0 <= k < i ==> !self.tasks[k].status.active(),
            decreases self.tasks.len() - i,
        {
            if self.tasks[i].status.is_active() {
                proof {
                    lemma_row_at(self.tasks@, i as int);
                }
                return Some(i);
            }
            i = i + 1;
        }
        proof {
            assert forall|id: u64| !self@.is_active(id) by {
                if self@.rows.contains_key(id) {
                    lemma_row_of(self.tasks@, id);
                }
            }
        }
        None
    }

    /// A task that is deploying or deployed, if there is one. While the
    /// store is exclusive there is at most one such task.
    pub fn find_active(&self) -> (r: Option<&Task>)
        ensures
            self@.wf(),
            match r {
                Some(task) => self@.is_active(task.id) && task@ == self@.rows[task.id],
                None => !self@.has_active(),
            },
    {
        proof {
            use_type_invariant(self);
            self.lemma_wf();
        }
        match self.active_index() {
            Some(i) => {
                proof {
                    lemma_row_at(self.tasks@, i as int);
                }
                Some(&self.tasks[i])
            },
            None => None,
        }
    }

    /// The position of the pending task with the smallest id.
    fn oldest_pending_index(&self) -> (r: Option<usize>)
        ensures
            match r {
                Some(i) => i < self.tasks.len() && self@.is_oldest_pending(
                    self.tasks[i as int].id,
                ),
                None => !self@.has_pending(),
            },
    {
        proof {
            use_type_invariant(self);
        }
        let mut best: Option<usize> = None;
        let mut i: usize = 0;
        while i < self.tasks.len()
            invariant
                i <= self.tasks.len(),
                match best {
                    Some(b) => {
                        &&& b < i
                        &&& self.tasks[b as int].status == TaskStatus::Pending
                        &&& forall|k: int|
                            0 <= k < i && self.tasks[k].status == TaskStatus::Pending
                                ==> self.tasks[b as int].id <= self.tasks[k].id
                    },
                    None => forall|k: int|
                        0 <= k < i ==> self.tasks[k].status != TaskStatus::Pending,
                },
            decreases self.tasks.len() - i,
        {
            if self.tasks[i].status == TaskStatus::Pending {
                let better = match best {
                    Some(b) => self.tasks[i].id < self.tasks[b].id,
                    None => true,
                };
                if better {
                    best = Some(i);
                }
            }
            i = i + 1;
        }
        proof {
            match best {
                Some(b) => {
                    let id = self.tasks[b as int].id;
                    lemma_row_at(self.tasks@, b as int);
                    assert forall|other: u64|
                        self@.has_status(other, TaskStatus::Pending) implies id <= other by {
                        lemma_row_of(self.tasks@, other);
                    }
                },
                None => {
                    assert forall|id: u64| !self@.has_status(id, TaskStatus::Pending) by {
                        if self@.rows.contains_key(id) {
                            lemma_row_of(self.tasks@, id);
                        }
                    }
                },
            }
        }
        best
    }

    /// The pending task with the smallest id, if any task is pending.
    pub fn oldest_pending(&self) -> (r: Option<&Task>)
        ensures
            self@.wf(),
            match r {
                Some(task) => {
                    &&& self@.is_oldest_pending(task.id)
                    &&& self@.oldest_pending() == Some(task.id)
                    &&& task@ == self@.rows[task.id]
                },
                None => !self@.has_pending() && self@.oldest_pending().is_none(),
            },
    {
        proof {
            use_type_invariant(self);
            self.lemma_wf();
        }
        match self.oldest_pending_index() {
            Some(i) => {
                proof {
                    lemma_row_at(self.tasks@, i as int);
                    self@.lemma_oldest_pending_unique(self.tasks[i as int].id);
                }
                Some(&self.tasks[i])
            },
            None => {
                proof {
                    self@.lemma_no_pending();
                }
                None
            },
        }
    }

    /// Moves the task `id` from `from` to `to` if its status is `from`, and
    /// says whether it did. A task in another status, or none, is left alone.
    pub fn compare_and_set(&mut self, id: u64, from: TaskStatus, to: TaskStatus, now: i64) -> (done:
        bool)
        ensures
            final(self)@.wf(),
            done == old(self)@.has_status(id, from),
            final(self)@ == old(self)@.compare_and_set(id, from, to, now),
            (from.active() || !to.active()) && old(self)@.exclusive()
                ==> final(self)@.exclusive(),
    {
        proof {
            use_type_invariant(&*self);
            self.lemma_wf();
            if from.active() || !to.active() {
                self@.lemma_compare_and_set_activates_none(id, from, to, now);
            }
        }
        let matches = match self.get(id) {
            Some(task) => task.status == from,
            None => false,
        };
        if matches {
            self.set_status(id, to, now);
        }
        matches
    }

    /// Claims the next task: where no task is active and some task is
    /// pending, the pending task with the smallest id becomes `Deploying` and
    /// is returned as it then stands. Otherwise nothing changes.
    ///
    /// The check for an active task and the transition are one step, so a
    /// store with at most one active task still has at most one afterwards.
    pub fn claim_next_pending(&mut self, now: i64) -> (r: Option<Task>)
        ensures
            final(self)@.wf(),
            final(self)@ == old(self)@.claim(now),
            old(self)@.exclusive() ==> final(self)@.exclusive(),
            match r {
                Some(task) => {
                    &&& !old(self)@.has_active()
                    &&& old(self)@.is_oldest_pending(task.id)
                    &&& old(self)@.claimable() == Some(task.id)
                    &&& task@ == old(self)@.rows[task.id].with_status(TaskStatus::Deploying, now)
                    &&& task@ == final(self)@.rows[task.id]
                },
                None => {
                    &&& old(self)@.has_active() || !old(self)@.has_pending()
                    &&& old(self)@.claimable().is_none()
                },
            },
    {
        proof {
            use_type_invariant(&*self);
            self.lemma_wf();
        }
        if self.active_index().is_some() {
            return None;
        }
        match self.oldest_pending_index() {
            Some(i) => {
                let mut task = self.tasks[i].clone();
                task.status = TaskStatus::Deploying;
                task.updated_at = now;
                proof {
                    lemma_row_at(self.tasks@, i as int);
                    self@.lemma_oldest_pending_unique(task.id);
                    self@.lemma_claim_keeps_exclusive(now);
                }
                self.set_status(task.id, TaskStatus::Deploying, now);
                Some(task)
            },
            None => {
                proof {
                    self@.lemma_no_pending();
                }
                None
            },
        }
    }
}

} // verus!
