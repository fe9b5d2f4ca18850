use tether::layout::widget_position;
use tether::status::{started_status, EngineStatus};
use tether::supervisor::{
    classify_exit, Shutdown, ShutdownAction, ShutdownEvent, ShutdownStage, SupervisorError, WorkerHandle,
};

const GRACE_MS: u64 = 15000;
const CONFIRM_MS: u64 = 500;

fn start(handle: &mut WorkerHandle, spawned: Result<u32, String>) -> Result<u32, SupervisorError> {
    let prior = handle.begin_start();
    assert!(handle.recording_active);
    handle.finish_start(prior, spawned)
}

fn consistent(h: &WorkerHandle) -> bool {
    !h.recording_active || h.process_id.is_some()
}

#[test]
fn new_handle_is_idle() {
    let h = WorkerHandle::new();
    assert_eq!(h.process_id, None);
    assert!(!h.recording_active);
}

#[test]
fn graceful_exit_within_grace_period() {
    let mut handle = WorkerHandle::new();
    assert_eq!(start(&mut handle, Ok(4242)), Ok(4242));
    let store = started_status(EngineStatus::default(), 4242, 1700000000);
    assert_eq!(store.pid, Some(4242));

    let mut plan = handle.begin_stop(GRACE_MS, CONFIRM_MS).expect("a worker is known");
    let mut forceful_sent = false;
    let mut actions = Vec::new();
    while !plan.is_done() {
        let action = plan.next_action();
        actions.push(action);
        let event = match action {
            ShutdownAction::Signal { pid, forceful } => {
                assert_eq!(pid, 4242);
                forceful_sent |= forceful;
                ShutdownEvent::Signalled { delivered: true }
            }
            ShutdownAction::Sleep { .. } => ShutdownEvent::Slept,
            ShutdownAction::Probe { .. } => ShutdownEvent::Probed { alive: false },
            ShutdownAction::Finish { .. } => unreachable!(),
        };
        plan.on_event(event);
    }
    assert!(!forceful_sent);
    assert_eq!(
        actions,
        vec![
            ShutdownAction::Signal { pid: 4242, forceful: false },
            ShutdownAction::Sleep { ms: GRACE_MS },
            ShutdownAction::Probe { pid: 4242 },
        ]
    );
    assert_eq!(plan.next_action(), ShutdownAction::Finish { terminated: true });
    assert!(!plan.forced);

    let reset = handle.finish_stop();
    assert_eq!(reset.pid, None);
    assert_eq!(reset.status, "idle");
    assert_eq!(reset.task, None);
    assert_eq!(reset.started_at, None);
    assert_eq!(handle, WorkerHandle::new());
}

#[test]
fn ignored_graceful_signal_leads_to_forceful_kill() {
    let mut handle = WorkerHandle::new();
    assert_eq!(start(&mut handle, Ok(4242)), Ok(4242));
    let mut plan = handle.begin_stop(GRACE_MS, CONFIRM_MS).expect("a worker is known");
    let mut probes = 0;
    let mut actions = Vec::new();
    while !plan.is_done() {
        let action = plan.next_action();
        actions.push(action);
        let event = match action {
            ShutdownAction::Signal { .. } => ShutdownEvent::Signalled { delivered: true },
            ShutdownAction::Sleep { .. } => ShutdownEvent::Slept,
            ShutdownAction::Probe { .. } => {
                probes += 1;
                ShutdownEvent::Probed { alive: probes == 1 }
            }
            ShutdownAction::Finish { .. } => unreachable!(),
        };
        plan.on_event(event);
    }
    assert_eq!(
        actions,
        vec![
            ShutdownAction::Signal { pid: 4242, forceful: false },
            ShutdownAction::Sleep { ms: GRACE_MS },
            ShutdownAction::Probe { pid: 4242 },
            ShutdownAction::Signal { pid: 4242, forceful: true },
            ShutdownAction::Sleep { ms: CONFIRM_MS },
            ShutdownAction::Probe { pid: 4242 },
        ]
    );
    assert!(plan.forced);
    assert_eq!(plan.next_action(), ShutdownAction::Finish { terminated: true });
    let reset = handle.finish_stop();
    assert_eq!(reset.status, "idle");
    assert_eq!(reset.pid, None);
    assert!(!handle.recording_active);
}

#[test]
fn worker_surviving_force_ends_unconfirmed() {
    let mut plan = Shutdown::new(9, 10, 5);
    plan.on_event(ShutdownEvent::Signalled { delivered: true });
    plan.on_event(ShutdownEvent::Slept);
    plan.on_event(ShutdownEvent::Probed { alive: true });
    plan.on_event(ShutdownEvent::Signalled { delivered: true });
    plan.on_event(ShutdownEvent::Slept);
    plan.on_event(ShutdownEvent::Probed { alive: true });
    assert!(plan.is_done());
    assert_eq!(plan.next_action(), ShutdownAction::Finish { terminated: false });
}

#[test]
fn undelivered_graceful_signal_goes_straight_to_force() {
    let mut plan = Shutdown::new(9, 10, 5);
    plan.on_event(ShutdownEvent::Signalled { delivered: false });
    assert_eq!(plan.stage, ShutdownStage::SendForceful);
    assert_eq!(plan.next_action(), ShutdownAction::Signal { pid: 9, forceful: true });
    plan.on_event(ShutdownEvent::Signalled { delivered: false });
    assert!(plan.is_done());
    assert!(!plan.forced);
    assert_eq!(plan.next_action(), ShutdownAction::Finish { terminated: false });
}

#[test]
fn unexpected_event_changes_nothing() {
    let mut plan = Shutdown::new(9, 10, 5);
    let before = plan;
    plan.on_event(ShutdownEvent::Slept);
    assert_eq!(plan, before);
    plan.on_event(ShutdownEvent::Probed { alive: false });
    assert_eq!(plan, before);
}

#[test]
fn stop_without_start_is_not_running() {
    let handle = WorkerHandle::new();
    assert_eq!(handle.begin_stop(GRACE_MS, CONFIRM_MS), Err(SupervisorError::NotRunning));
    assert_eq!(handle, WorkerHandle::new());
}

#[test]
fn stop_after_failed_start_is_not_running() {
    let mut handle = WorkerHandle::new();
    let r = start(&mut handle, Err("program not found".to_string()));
    assert_eq!(r, Err(SupervisorError::Spawn("program not found".to_string())));
    assert_eq!(handle, WorkerHandle::new());
    assert_eq!(handle.begin_stop(GRACE_MS, CONFIRM_MS), Err(SupervisorError::NotRunning));
}

#[test]
fn second_stop_is_not_running() {
    let mut handle = WorkerHandle::new();
    start(&mut handle, Ok(7)).unwrap();
    assert!(handle.begin_stop(GRACE_MS, CONFIRM_MS).is_ok());
    handle.finish_stop();
    assert_eq!(handle.begin_stop(GRACE_MS, CONFIRM_MS), Err(SupervisorError::NotRunning));
}

#[test]
fn failed_start_clears_capture_flag_and_keeps_pid() {
    let mut handle = WorkerHandle::new();
    start(&mut handle, Ok(11)).unwrap();
    let r = start(&mut handle, Err("denied".to_string()));
    assert_eq!(r, Err(SupervisorError::Spawn("denied".to_string())));
    assert_eq!(handle.process_id, Some(11));
    assert!(!handle.recording_active);
}

#[test]
fn interleaved_requests_keep_handle_consistent() {
    let mut handle = WorkerHandle::new();
    let outcomes: Vec<Option<Result<u32, String>>> = vec![
        None,
        Some(Err("x".to_string())),
        Some(Ok(1)),
        Some(Ok(2)),
        None,
        None,
        Some(Err("y".to_string())),
        Some(Ok(3)),
        Some(Err("z".to_string())),
        None,
    ];
    for outcome in outcomes {
        match outcome {
            Some(spawned) => {
                let _ = start(&mut handle, spawned);
            }
            None => {
                if handle.begin_stop(GRACE_MS, CONFIRM_MS).is_ok() {
                    handle.finish_stop();
                }
            }
        }
        assert!(consistent(&handle));
    }
}

#[test]
fn one_shot_success_returns_stdout() {
    assert_eq!(classify_exit(true, "42".to_string(), String::new()), Ok("42".to_string()));
}

#[test]
fn one_shot_failure_returns_stderr() {
    let r = classify_exit(false, "partial".to_string(), "boom".to_string());
    assert_eq!(r, Err(SupervisorError::WorkerExit("boom".to_string())));
    assert_eq!(r.unwrap_err().message(), "boom");
}

#[test]
fn error_messages() {
    assert_eq!(SupervisorError::NotRunning.message(), "No recording process found");
    assert_eq!(SupervisorError::Spawn("no such file".to_string()).message(), "no such file");
    assert_eq!(SupervisorError::Lock("poisoned".to_string()).message(), "poisoned");
    assert_eq!(SupervisorError::StatusStore("disk full".to_string()).message(), "disk full");
}

#[test]
fn widget_sits_right_and_centred() {
    assert_eq!(widget_position(1920, 1080, 200, 60), (1700, 510));
    assert_eq!(widget_position(100, 50, 200, 60), (0, 0));
    assert_eq!(widget_position(220, 61, 200, 60), (0, 0));
}
