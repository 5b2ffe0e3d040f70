use deploy_dispatcher::dispatcher::{
    checkout_reference, exit_succeeded, Action, Dispatcher, Event, Job, Phase,
};

fn job(id: u64, branch: &str) -> Job {
    Job { id, branch: branch.to_string() }
}

/// A dispatcher that has claimed `job` and is about to fetch.
fn claimed(id: u64, branch: &str) -> Dispatcher {
    let mut d = Dispatcher::new();
    assert_eq!(d.step(Event::Active(None)), Action::SelectPending);
    assert_eq!(d.step(Event::Pending(Some(job(id, branch)))), Action::Claim { id });
    assert_eq!(d.step(Event::Done), Action::Fetch);
    d
}

#[test]
fn a_new_dispatcher_looks_for_an_active_task() {
    let d = Dispatcher::new();
    assert_eq!(d.phase(), &Phase::CheckingActive);
    assert_eq!(d.request(), Action::FindActive);
    assert!(!d.is_halted());
}

#[test]
fn an_active_task_suspends_the_dispatcher() {
    let mut d = Dispatcher::new();
    assert_eq!(d.step(Event::Active(Some(4))), Action::Wait);
    assert_eq!(d.phase(), &Phase::Suspended);
    assert_eq!(d.step(Event::Woken), Action::FindActive);
}

#[test]
fn no_pending_task_suspends_the_dispatcher() {
    let mut d = Dispatcher::new();
    assert_eq!(d.step(Event::Active(None)), Action::SelectPending);
    assert_eq!(d.step(Event::Pending(None)), Action::Wait);
    assert_eq!(d.step(Event::Woken), Action::FindActive);
}

#[test]
fn a_successful_deployment_runs_every_stage() {
    let mut d = Dispatcher::new();
    assert_eq!(d.step(Event::Active(None)), Action::SelectPending);
    assert_eq!(d.step(Event::Pending(Some(job(7, "main")))), Action::Claim { id: 7 });
    assert_eq!(d.phase(), &Phase::Claiming(job(7, "main")));
    assert_eq!(d.step(Event::Done), Action::Fetch);
    assert_eq!(
        d.step(Event::Exit(Some(0))),
        Action::Checkout { reference: "origin/main".to_string() }
    );
    assert_eq!(d.step(Event::Exit(Some(0))), Action::Deploy { id: 7 });
    assert_eq!(d.step(Event::Exit(Some(0))), Action::Succeed { id: 7 });
    assert_eq!(d.phase(), &Phase::Succeeding(job(7, "main")));
    assert_eq!(d.step(Event::Done), Action::FindActive);
}

#[test]
fn a_failed_fetch_is_ignored() {
    for code in [Some(1), Some(128), Some(-1), None] {
        let mut d = claimed(2, "feature-x");
        assert_eq!(
            d.step(Event::Exit(code)),
            Action::Checkout { reference: "origin/feature-x".to_string() }
        );
    }
}

#[test]
fn a_failed_checkout_fails_the_task_and_keeps_its_stderr() {
    for code in [Some(1), Some(128), Some(-1), None] {
        let mut d = claimed(2, "gone");
        d.step(Event::Exit(Some(0)));
        assert_eq!(d.step(Event::Exit(code)), Action::Fail { id: 2, save_stderr: true });
        assert_eq!(d.step(Event::Done), Action::FindActive);
    }
}

#[test]
fn a_failed_deploy_command_fails_the_task() {
    for code in [Some(1), Some(2), Some(255), None] {
        let mut d = claimed(3, "main");
        d.step(Event::Exit(Some(0)));
        assert_eq!(d.step(Event::Exit(Some(0))), Action::Deploy { id: 3 });
        assert_eq!(d.step(Event::Exit(code)), Action::Fail { id: 3, save_stderr: false });
        assert!(!d.is_halted());
        assert_eq!(d.step(Event::Done), Action::FindActive);
    }
}

#[test]
fn a_store_failure_halts_in_every_phase() {
    let phases: Vec<Vec<Event>> = vec![
        vec![],
        vec![Event::Active(None)],
        vec![Event::Active(None), Event::Pending(Some(job(1, "a")))],
        vec![Event::Active(Some(1))],
        vec![Event::Active(None), Event::Pending(Some(job(1, "a"))), Event::Done],
        vec![
            Event::Active(None),
            Event::Pending(Some(job(1, "a"))),
            Event::Done,
            Event::Exit(Some(0)),
            Event::Exit(Some(0)),
            Event::Exit(Some(0)),
        ],
        vec![
            Event::Active(None),
            Event::Pending(Some(job(1, "a"))),
            Event::Done,
            Event::Exit(Some(0)),
            Event::Exit(Some(1)),
        ],
    ];
    for events in phases {
        let mut d = Dispatcher::new();
        for event in events {
            d.advance(event);
        }
        assert!(!d.is_halted());
        assert_eq!(d.step(Event::StoreFailed), Action::Halt);
        assert!(d.is_halted());
        assert_eq!(d.phase(), &Phase::Halted);
    }
}

#[test]
fn a_halted_dispatcher_stays_halted() {
    let mut d = Dispatcher::new();
    d.advance(Event::StoreFailed);
    assert_eq!(d.step(Event::Woken), Action::Halt);
    assert_eq!(d.step(Event::Active(None)), Action::Halt);
    assert_eq!(d.step(Event::Done), Action::Halt);
    assert!(d.is_halted());
}

#[test]
fn a_report_that_answers_nothing_halts() {
    let mut d = Dispatcher::new();
    assert_eq!(d.step(Event::Exit(Some(0))), Action::Halt);
    let mut d = Dispatcher::new();
    d.advance(Event::Active(None));
    assert_eq!(d.step(Event::Active(None)), Action::Halt);
    let mut d = claimed(1, "a");
    assert_eq!(d.step(Event::Done), Action::Halt);
}

#[test]
fn checkout_reference_is_the_remote_branch() {
    assert_eq!(checkout_reference("main"), "origin/main");
    assert_eq!(checkout_reference("feature/x"), "origin/feature/x");
    assert_eq!(checkout_reference(""), "origin/");
}

#[test]
fn only_exit_code_zero_succeeds() {
    assert!(exit_succeeded(Some(0)));
    assert!(!exit_succeeded(Some(1)));
    assert!(!exit_succeeded(Some(-1)));
    assert!(!exit_succeeded(Some(i32::MAX)));
    assert!(!exit_succeeded(None));
}

#[test]
fn a_cloned_job_equals_its_source() {
    let j = job(9, "release");
    assert_eq!(j.clone(), j);
}
