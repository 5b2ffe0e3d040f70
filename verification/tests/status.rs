use deploy_dispatcher::status::TaskStatus;
use deploy_dispatcher::text::same_text;

const ALL: [TaskStatus; 6] = [
    TaskStatus::Pending,
    TaskStatus::Deploying,
    TaskStatus::DeployFailed,
    TaskStatus::Deployed,
    TaskStatus::Done,
    TaskStatus::Cancelled,
];

#[test]
fn status_names() {
    assert_eq!(TaskStatus::Pending.as_str(), "pending");
    assert_eq!(TaskStatus::Deploying.as_str(), "deploying");
    assert_eq!(TaskStatus::DeployFailed.as_str(), "deploy_failed");
    assert_eq!(TaskStatus::Deployed.as_str(), "deployed");
    assert_eq!(TaskStatus::Done.as_str(), "done");
    assert_eq!(TaskStatus::Cancelled.as_str(), "cancelled");
}

#[test]
fn every_status_is_read_back_from_its_name() {
    for status in ALL {
        assert_eq!(TaskStatus::parse(status.as_str()), Some(status));
    }
}

#[test]
fn other_names_are_no_status() {
    assert_eq!(TaskStatus::parse(""), None);
    assert_eq!(TaskStatus::parse("Pending"), None);
    assert_eq!(TaskStatus::parse("pending "), None);
    assert_eq!(TaskStatus::parse("deployfailed"), None);
    assert_eq!(TaskStatus::parse("deploy"), None);
    assert_eq!(TaskStatus::parse("running"), None);
    assert_eq!(TaskStatus::parse("d\u{f6}ne"), None);
}

#[test]
fn only_deploying_and_deployed_are_active() {
    let active: Vec<TaskStatus> = ALL.into_iter().filter(|s| s.is_active()).collect();
    assert_eq!(active, vec![TaskStatus::Deploying, TaskStatus::Deployed]);
}

#[test]
fn done_failed_and_cancelled_are_terminal() {
    let terminal: Vec<TaskStatus> = ALL.into_iter().filter(|s| s.is_terminal()).collect();
    assert_eq!(
        terminal,
        vec![TaskStatus::DeployFailed, TaskStatus::Done, TaskStatus::Cancelled]
    );
}

#[test]
fn no_status_is_both_active_and_terminal() {
    for status in ALL {
        assert!(!(status.is_active() && status.is_terminal()));
    }
}

#[test]
fn same_text_compares_characters() {
    assert!(same_text("", ""));
    assert!(same_text("stdout", "stdout"));
    assert!(!same_text("stdout", "stderr"));
    assert!(!same_text("stdout", "stdou"));
    assert!(!same_text("", "a"));
    assert!(same_text("gr\u{fc}n", "gr\u{fc}n"));
    assert!(!same_text("gr\u{fc}n", "grun"));
}
