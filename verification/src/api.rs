//! The operations that clients call: create, read and update tasks, and
//! upload files. Each checks its request, changes the store or the sink, and
//! raises the wake signal where new work may have come up.

use crate::error::{AppError, AppErrorView};
use crate::file::{is_plain_name, plain_name};
use crate::logs::{LogKey, LogSink, ACCESS_LOG, SLOW_LOG, STDERR, STDOUT};
use crate::status::TaskStatus;
use crate::store::TaskStore;
use crate::task::{Task, TaskView};
use crate::wake::WakeSignal;
use vstd::prelude::*;

verus! {

/// A task together with its logs. A log that was not produced yet is
/// absent, which is the normal state of a task that has not run.
#[derive(Debug, PartialEq, Eq)]
pub struct TaskDetail {
    pub task: Task,
    pub stdout: Option<String>,
    pub stderr: Option<String>,
    /// The uploaded access log.
    pub alp_log: Option<String>,
    /// The uploaded slow-query log.
    pub slow_log: Option<String>,
}

/// The mathematical value of a [`TaskDetail`].
pub ghost struct TaskDetailView {
    pub task: TaskView,
    pub stdout: Option<Seq<char>>,
    pub stderr: Option<Seq<char>>,
    pub alp_log: Option<Seq<char>>,
    pub slow_log: Option<Seq<char>>,
}

/// The mathematical value of a text that may be absent.
pub open spec fn text_view(text: Option<String>) -> Option<Seq<char>> {
    match text {
        Some(text) => Some(text@),
        None => None,
    }
}

/// The mathematical value of a borrowed text that may be absent.
pub open spec fn str_view(text: Option<&str>) -> Option<Seq<char>> {
    match text {
        Some(text) => Some(text@),
        None => None,
    }
}

impl View for TaskDetail {
    type V = TaskDetailView;

    open spec fn view(&self) -> TaskDetailView {
        TaskDetailView {
            task: self.task@,
            stdout: text_view(self.stdout),
            stderr: text_view(self.stderr),
            alp_log: text_view(self.alp_log),
            slow_log: text_view(self.slow_log),
        }
    }
}

/// The log `name` of the task `id`, if the sink holds it.
pub open spec fn log_of(logs: Map<LogKey, Seq<char>>, id: u64, name: Seq<char>) -> Option<
    Seq<char>,
> {
    if logs.contains_key((id, name)) {
        Some(logs[(id, name)])
    } else {
        None
    }
}

/// A task joined with its four logs.
pub open spec fn detail_of(task: TaskView, logs: Map<LogKey, Seq<char>>) -> TaskDetailView {
    TaskDetailView {
        task,
        stdout: log_of(logs, task.id, STDOUT@),
        stderr: log_of(logs, task.id, STDERR@),
        alp_log: log_of(logs, task.id, ACCESS_LOG@),
        slow_log: log_of(logs, task.id, SLOW_LOG@),
    }
}

/// The branch of a creation request, where it is usable: present and not
/// empty.
pub open spec fn usable_branch(branch: Option<Seq<char>>) -> bool {
    branch matches Some(b) && b.len() > 0
}

/// What a partial update asks for, once its fields are read: `Ok` with the
/// status to set, if any, or the name of the field that is at fault.
pub open spec fn checked_update(status: Option<Seq<char>>, score: Option<i64>) -> Result<
    Option<TaskStatus>,
    Seq<char>,
> {
    match status {
        None => if score is None {
            Err("status or score"@)
        } else {
            Ok(None)
        },
        Some(name) => match TaskStatus::from_name(name) {
            Some(status) => Ok(Some(status)),
            None => Err("status"@),
        },
    }
}

/// Checks the branch of a creation request: it has to be there, and not
/// empty.
pub fn require_branch<'a>(branch: Option<&'a str>) -> (r: Result<&'a str, AppError>)
    ensures
        r is Ok <==> usable_branch(str_view(branch)),
        r matches Ok(b) ==> branch == Some(b),
        r matches Err(e) ==> e@ == AppErrorView::InvalidQueryParameter("branch"@),
{
    match branch {
        Some(b) => if b.is_empty() {
            Err(AppError::invalid("branch"))
        } else {
            Ok(b)
        },
        None => Err(AppError::invalid("branch")),
    }
}

/// Checks a partial update before anything is changed: at least one of
/// status and score has to be there, and a status has to be one of the six
/// names.
pub fn check_update(status: Option<&str>, score: Option<i64>) -> (r: Result<
    Option<TaskStatus>,
    AppError,
>)
    ensures
        match r {
            Ok(parsed) => checked_update(str_view(status), score) == Ok::<
                Option<TaskStatus>,
                Seq<char>,
            >(parsed),
            Err(e) => checked_update(str_view(status), score) matches Err(field) && e@
                == AppErrorView::InvalidQueryParameter(field),
        },
{
    match status {
        None => if score.is_none() {
            Err(AppError::invalid("status or score"))
        } else {
            Ok(None)
        },
        Some(name) => match TaskStatus::parse(name) {
            Some(status) => Ok(Some(status)),
            None => Err(AppError::invalid("status")),
        },
    }
}

/// Joins a task that was looked up with its logs as they were read; a task
/// that was not found is the only failure.
pub fn detail_from(
    task: Option<Task>,
    stdout: Option<String>,
    stderr: Option<String>,
    alp_log: Option<String>,
    slow_log: Option<String>,
) -> (r: Result<TaskDetail, AppError>)
    ensures
        match r {
            Ok(detail) => task == Some(detail.task) && detail.stdout == stdout && detail.stderr
                == stderr && detail.alp_log == alp_log && detail.slow_log == slow_log,
            Err(e) => task is None && e@ == AppErrorView::NotFound,
        },
{
    match task {
        Some(task) => Ok(TaskDetail { task, stdout, stderr, alp_log, slow_log }),
        None => Err(AppError::NotFound),
    }
}

/// Reads the four logs of `task` from the sink.
fn read_detail(task: &Task, sink: &LogSink) -> (detail: TaskDetail)
    ensures
        detail@ == detail_of(task@, sink@),
{
    TaskDetail {
        task: task.clone(),
        stdout: sink.read(task.id, STDOUT),
        stderr: sink.read(task.id, STDERR),
        alp_log: sink.read(task.id, ACCESS_LOG),
        slow_log: sink.read(task.id, SLOW_LOG),
    }
}

/// Creates a pending task for the branch and signals the dispatcher.
///
/// Without a usable branch, or with the ids used up, nothing changes and no
/// signal is raised.
pub fn create_task(
    store: &mut TaskStore,
    signal: &mut WakeSignal,
    branch: Option<&str>,
    now: i64,
) -> (r: Result<u64, AppError>)
    ensures
        old(store)@.exclusive() ==> final(store)@.exclusive(),
        match r {
            Ok(id) => {
                &&& branch matches Some(b) && b@.len() > 0
                    && final(store)@ == old(store)@.create(b@, now)
                &&& old(store)@.next_id < u64::MAX
                &&& id == old(store)@.next_id
                &&& final(signal)@
            },
            Err(e) => {
                &&& final(store)@ == old(store)@
                &&& final(signal)@ == old(signal)@
                &&& if usable_branch(str_view(branch)) {
                    old(store)@.next_id == u64::MAX && e@ == AppErrorView::Internal(
                        "task ids exhausted"@,
                    )
                } else {
                    e@ == AppErrorView::InvalidQueryParameter("branch"@)
                }
            },
        },
{
    let branch = match require_branch(branch) {
        Ok(b) => b,
        Err(e) => {
            return Err(e);
        },
    };
    match store.create(branch, now) {
        Ok(id) => {
            signal.notify();
            Ok(id)
        },
        Err(e) => Err(e),
    }
}

/// Applies a partial update to the task `id` and signals the dispatcher:
/// the score is set where one is given, then the status where one is given.
///
/// A request with neither field, or with a status that is not one of the
/// six names, is refused before anything changes. A task that does not
/// exist is not an error: the update then changes nothing.
pub fn update_task(
    store: &mut TaskStore,
    signal: &mut WakeSignal,
    id: u64,
    status: Option<&str>,
    score: Option<i64>,
    now: i64,
) -> (r: Result<u64, AppError>)
    ensures
        match r {
            Ok(same) => {
                &&& same == id
                &&& checked_update(str_view(status), score) matches Ok(parsed)
                &&& final(store)@ == old(store)@.update(id, parsed, score, now)
                &&& final(signal)@
            },
            Err(e) => {
                &&& final(store)@ == old(store)@
                &&& final(signal)@ == old(signal)@
                &&& checked_update(str_view(status), score) matches Err(field)
                &&& e@ == AppErrorView::InvalidQueryParameter(field)
            },
        },
{
    let parsed = match check_update(status, score) {
        Ok(parsed) => parsed,
        Err(e) => {
            return Err(e);
        },
    };
    match store.update(id, parsed, score, now) {
        Ok(()) => {
            signal.notify();
            Ok(id)
        },
        Err(e) => Err(e),
    }
}

/// The task `id` with its logs. Logs that do not exist yet are absent in
/// the answer; only a task that does not exist is an error.
pub fn get_task(store: &TaskStore, sink: &LogSink, id: u64) -> (r: Result<TaskDetail, AppError>)
    ensures
        match r {
            Ok(detail) => store@.rows.contains_key(id) && detail@ == detail_of(
                store@.rows[id],
                sink@,
            ),
            Err(e) => !store@.rows.contains_key(id) && e@ == AppErrorView::NotFound,
        },
{
    match store.get(id) {
        Some(task) => Ok(read_detail(task, sink)),
        None => Err(AppError::NotFound),
    }
}

/// The task that is deploying or deployed, with its logs.
pub fn get_running_task(store: &TaskStore, sink: &LogSink) -> (r: Result<TaskDetail, AppError>)
    ensures
        match r {
            Ok(detail) => store@.is_active(detail.task.id) && detail@ == detail_of(
                store@.rows[detail.task.id],
                sink@,
            ),
            Err(e) => !store@.has_active() && e@ == AppErrorView::NotFound,
        },
{
    match store.find_active() {
        Some(task) => Ok(read_detail(task, sink)),
        None => Err(AppError::NotFound),
    }
}

/// Stores an uploaded file among the logs of the task `id`, in place of
/// what the file held before, and returns the id.
///
/// A name that does not name a file directly inside the task's directory
/// is refused, and the sink is unchanged then.
pub fn upload_file(sink: &mut LogSink, id: u64, name: &str, text: &str) -> (r: Result<
    u64,
    AppError,
>)
    ensures
        match r {
            Ok(same) => same == id && plain_name(name@) && final(sink)@ == old(sink)@.insert(
                (id, name@),
                text@,
            ),
            Err(e) => !plain_name(name@) && final(sink)@ == old(sink)@ && e@
                == AppErrorView::InvalidQueryParameter("name"@),
        },
{
    if !is_plain_name(name) {
        return Err(AppError::invalid("name"));
    }
    sink.open_for_write(id, name);
    sink.write(id, name, text);
    assert(final(sink)@ =~= old(sink)@.insert((id, name@), text@));
    Ok(id)
}

} // verus!
