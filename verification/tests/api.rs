use deploy_dispatcher::api::{
    check_update, create_task, detail_from, get_running_task, get_task, require_branch,
    update_task, upload_file,
};
use deploy_dispatcher::error::AppError;
use deploy_dispatcher::logs::{LogSink, ACCESS_LOG, SLOW_LOG, STDERR, STDOUT};
use deploy_dispatcher::status::TaskStatus;
use deploy_dispatcher::store::TaskStore;
use deploy_dispatcher::task::Task;
use deploy_dispatcher::wake::WakeSignal;

fn invalid(field: &str) -> AppError {
    AppError::InvalidQueryParameter(field.to_string())
}

#[test]
fn branch_has_to_be_there() {
    assert_eq!(require_branch(Some("main")).unwrap(), "main");
    assert_eq!(require_branch(None).unwrap_err(), invalid("branch"));
    assert_eq!(require_branch(Some("")).unwrap_err(), invalid("branch"));
}

#[test]
fn create_task_signals_the_dispatcher() {
    let mut store = TaskStore::new();
    let mut signal = WakeSignal::new();
    let id = create_task(&mut store, &mut signal, Some("feature-x"), 50).unwrap();
    assert_eq!(id, 1);
    assert!(signal.is_raised());
    let task = store.get(1).unwrap();
    assert_eq!(task.branch, "feature-x");
    assert_eq!(task.status, TaskStatus::Pending);
}

#[test]
fn create_task_without_branch_changes_nothing() {
    let mut store = TaskStore::new();
    let mut signal = WakeSignal::new();
    let err = create_task(&mut store, &mut signal, None, 50).unwrap_err();
    assert_eq!(err, invalid("branch"));
    assert_eq!(err.status_code(), 400);
    assert_eq!(create_task(&mut store, &mut signal, Some(""), 50).unwrap_err(), invalid("branch"));
    assert!(!signal.is_raised());
    assert!(store.list().is_empty());
}

#[test]
fn update_is_checked_before_anything_changes() {
    assert_eq!(check_update(None, None).unwrap_err(), invalid("status or score"));
    assert_eq!(check_update(None, Some(5)).unwrap(), None);
    assert_eq!(check_update(Some("done"), None).unwrap(), Some(TaskStatus::Done));
    assert_eq!(check_update(Some("cancelled"), Some(1)).unwrap(), Some(TaskStatus::Cancelled));
    assert_eq!(check_update(Some("deploy_failed"), None).unwrap(), Some(TaskStatus::DeployFailed));
    assert_eq!(check_update(Some("finished"), None).unwrap_err(), invalid("status"));
    assert_eq!(check_update(Some("finished"), Some(3)).unwrap_err(), invalid("status"));
    assert_eq!(check_update(Some(""), Some(3)).unwrap_err(), invalid("status"));
}

#[test]
fn update_with_neither_field_is_a_validation_error() {
    let mut store = TaskStore::new();
    let mut signal = WakeSignal::new();
    create_task(&mut store, &mut signal, Some("a"), 1).unwrap();
    signal.take();
    let err = update_task(&mut store, &mut signal, 1, None, None, 2).unwrap_err();
    assert_eq!(err, invalid("status or score"));
    assert_eq!(err.status_code(), 400);
    assert!(!signal.is_raised());
    let task = store.get(1).unwrap();
    assert_eq!((task.status, task.score, task.updated_at), (TaskStatus::Pending, None, 1));
}

#[test]
fn update_with_only_score_succeeds_without_touching_status() {
    let mut store = TaskStore::new();
    let mut signal = WakeSignal::new();
    create_task(&mut store, &mut signal, Some("a"), 1).unwrap();
    store.claim_next_pending(2).unwrap();
    signal.take();
    assert_eq!(update_task(&mut store, &mut signal, 1, None, Some(31337), 3).unwrap(), 1);
    assert!(signal.is_raised());
    let task = store.get(1).unwrap();
    assert_eq!(task.status, TaskStatus::Deploying);
    assert_eq!(task.score, Some(31337));
    assert_eq!(task.updated_at, 3);
}

#[test]
fn update_with_status_sets_it() {
    let mut store = TaskStore::new();
    let mut signal = WakeSignal::new();
    create_task(&mut store, &mut signal, Some("a"), 1).unwrap();
    assert_eq!(update_task(&mut store, &mut signal, 1, Some("done"), Some(8), 3).unwrap(), 1);
    let task = store.get(1).unwrap();
    assert_eq!((task.status, task.score), (TaskStatus::Done, Some(8)));
}

#[test]
fn update_with_an_unknown_status_changes_nothing() {
    let mut store = TaskStore::new();
    let mut signal = WakeSignal::new();
    create_task(&mut store, &mut signal, Some("a"), 1).unwrap();
    signal.take();
    let err = update_task(&mut store, &mut signal, 1, Some("paused"), Some(8), 3).unwrap_err();
    assert_eq!(err, invalid("status"));
    assert!(!signal.is_raised());
    let task = store.get(1).unwrap();
    assert_eq!((task.status, task.score, task.updated_at), (TaskStatus::Pending, None, 1));
}

#[test]
fn update_of_a_missing_task_is_no_error() {
    let mut store = TaskStore::new();
    let mut signal = WakeSignal::new();
    assert_eq!(update_task(&mut store, &mut signal, 12, None, Some(1), 3).unwrap(), 12);
    assert!(signal.is_raised());
    assert!(store.list().is_empty());
}

#[test]
fn detail_of_a_pending_task_has_absent_logs() {
    let mut store = TaskStore::new();
    let mut signal = WakeSignal::new();
    let sink = LogSink::new();
    create_task(&mut store, &mut signal, Some("feature-x"), 1).unwrap();
    let detail = get_task(&store, &sink, 1).unwrap();
    assert_eq!(detail.task.id, 1);
    assert_eq!(detail.task.status, TaskStatus::Pending);
    assert_eq!(detail.stdout, None);
    assert_eq!(detail.stderr, None);
    assert_eq!(detail.alp_log, None);
    assert_eq!(detail.slow_log, None);
    let again = get_task(&store, &sink, 1).unwrap();
    assert_eq!(again, detail);
}

#[test]
fn detail_joins_the_task_with_its_own_logs() {
    let mut store = TaskStore::new();
    let mut signal = WakeSignal::new();
    let mut sink = LogSink::new();
    create_task(&mut store, &mut signal, Some("a"), 1).unwrap();
    create_task(&mut store, &mut signal, Some("b"), 1).unwrap();
    sink.write(1, STDOUT, "out of one");
    sink.write(2, STDOUT, "out of two");
    sink.write(2, STDERR, "err of two");
    sink.write(2, ACCESS_LOG, "GET /");
    sink.write(2, SLOW_LOG, "SELECT 1");
    sink.write(2, "other.txt", "ignored");
    let one = get_task(&store, &sink, 1).unwrap();
    assert_eq!(one.task.branch, "a");
    assert_eq!(one.stdout, Some("out of one".to_string()));
    assert_eq!(one.stderr, None);
    let two = get_task(&store, &sink, 2).unwrap();
    assert_eq!(two.task.branch, "b");
    assert_eq!(two.stdout, Some("out of two".to_string()));
    assert_eq!(two.stderr, Some("err of two".to_string()));
    assert_eq!(two.alp_log, Some("GET /".to_string()));
    assert_eq!(two.slow_log, Some("SELECT 1".to_string()));
}

#[test]
fn detail_of_a_missing_task_is_not_found() {
    let store = TaskStore::new();
    let sink = LogSink::new();
    let err = get_task(&store, &sink, 1).unwrap_err();
    assert_eq!(err, AppError::NotFound);
    assert_eq!(err.status_code(), 404);
}

#[test]
fn running_task_is_the_active_one() {
    let mut store = TaskStore::new();
    let mut signal = WakeSignal::new();
    let mut sink = LogSink::new();
    create_task(&mut store, &mut signal, Some("a"), 1).unwrap();
    create_task(&mut store, &mut signal, Some("b"), 1).unwrap();
    assert_eq!(get_running_task(&store, &sink).unwrap_err(), AppError::NotFound);
    store.claim_next_pending(2).unwrap();
    sink.write(1, STDOUT, "deploying...");
    let running = get_running_task(&store, &sink).unwrap();
    assert_eq!(running.task.id, 1);
    assert_eq!(running.task.status, TaskStatus::Deploying);
    assert_eq!(running.stdout, Some("deploying...".to_string()));
    store.compare_and_set(1, TaskStatus::Deploying, TaskStatus::Deployed, 3);
    assert_eq!(get_running_task(&store, &sink).unwrap().task.status, TaskStatus::Deployed);
    store.set_status(1, TaskStatus::Done, 4);
    assert_eq!(get_running_task(&store, &sink).unwrap_err(), AppError::NotFound);
}

#[test]
fn detail_from_takes_the_logs_as_read() {
    let task = Task {
        id: 2,
        branch: "b".to_string(),
        status: TaskStatus::Deployed,
        score: Some(1),
        created_at: 1,
        updated_at: 2,
    };
    let detail = detail_from(
        Some(task.clone()),
        Some("out".to_string()),
        None,
        Some("alp".to_string()),
        None,
    )
    .unwrap();
    assert_eq!(detail.task, task);
    assert_eq!(detail.stdout, Some("out".to_string()));
    assert_eq!(detail.stderr, None);
    assert_eq!(detail.alp_log, Some("alp".to_string()));
    assert_eq!(detail.slow_log, None);
    let missing = detail_from(None, Some("out".to_string()), None, None, None);
    assert_eq!(missing.unwrap_err(), AppError::NotFound);
}

#[test]
fn upload_replaces_the_file() {
    let mut sink = LogSink::new();
    assert_eq!(upload_file(&mut sink, 3, ACCESS_LOG, "first").unwrap(), 3);
    assert_eq!(sink.read(3, ACCESS_LOG), Some("first".to_string()));
    assert_eq!(upload_file(&mut sink, 3, ACCESS_LOG, "second").unwrap(), 3);
    assert_eq!(sink.read(3, ACCESS_LOG), Some("second".to_string()));
    assert_eq!(upload_file(&mut sink, 3, SLOW_LOG, "").unwrap(), 3);
    assert_eq!(sink.read(3, SLOW_LOG), Some(String::new()));
}

#[test]
fn upload_refuses_names_that_leave_the_directory() {
    let mut sink = LogSink::new();
    for bad in ["", ".", "..", "../stdout", "/etc/passwd", "a/b"] {
        assert_eq!(upload_file(&mut sink, 3, bad, "x").unwrap_err(), invalid("name"));
        assert_eq!(sink.read(3, bad), None);
    }
}
