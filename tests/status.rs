use tether::status::{
    apply_update, is_idle_label, mark_started, started_status, status_or_default, update_status, EngineStatus,
};

fn sample() -> EngineStatus {
    EngineStatus {
        pid: Some(77),
        status: "busy".to_string(),
        task: Some("transcribe".to_string()),
        started_at: Some("2023-11-14 22:13:20".to_string()),
    }
}

#[test]
fn default_status_is_idle_and_empty() {
    let s = EngineStatus::default();
    assert_eq!(s.pid, None);
    assert_eq!(s.status, "idle");
    assert_eq!(s.task, None);
    assert_eq!(s.started_at, None);
}

#[test]
fn idle_label_is_recognised() {
    assert!(is_idle_label("idle"));
    assert!(!is_idle_label("busy"));
    assert!(!is_idle_label("Idle"));
    assert!(!is_idle_label(""));
}

#[test]
fn busy_weave_then_idle() {
    let busy = apply_update(EngineStatus::default(), "busy", Some("weave"), 1700000000);
    assert_eq!(busy.status, "busy");
    assert_eq!(busy.task.as_deref(), Some("weave"));
    assert_eq!(busy.started_at.as_deref(), Some("2023-11-14 22:13:20"));
    let idle = apply_update(busy, "idle", None, 1700000100);
    assert_eq!(idle.status, "idle");
    assert_eq!(idle.task, None);
    assert_eq!(idle.started_at, None);
}

#[test]
fn update_keeps_pid() {
    let r = apply_update(sample(), "recording", None, 0);
    assert_eq!(r.pid, Some(77));
    assert_eq!(r.status, "recording");
    assert_eq!(r.task, None);
    assert_eq!(r.started_at.as_deref(), Some("1970-01-01 00:00:00"));
}

#[test]
fn any_label_but_idle_gets_a_start_time() {
    let r = apply_update(EngineStatus::default(), "error", Some("ask"), 86399);
    assert_eq!(r.started_at.as_deref(), Some("1970-01-01 23:59:59"));
}

#[test]
fn update_status_at_current_time() {
    let busy = update_status(EngineStatus::default(), "busy", Some("weave"));
    assert_eq!(busy.status, "busy");
    assert_eq!(busy.task.as_deref(), Some("weave"));
    let stamp = busy.started_at.clone().expect("busy status carries a start time");
    assert_eq!(stamp.len(), 19);
    let idle = update_status(busy, "idle", None);
    assert_eq!(idle.started_at, None);
    assert_eq!(idle.status, "idle");
}

#[test]
fn started_status_records_pid_and_recording() {
    let r = started_status(EngineStatus::default(), 4242, 951782400);
    assert_eq!(r.pid, Some(4242));
    assert_eq!(r.status, "recording");
    assert_eq!(r.task.as_deref(), Some("spool"));
    assert_eq!(r.started_at.as_deref(), Some("2000-02-29 00:00:00"));
}

#[test]
fn mark_started_stamps_current_time() {
    let r = mark_started(sample(), 4242);
    assert_eq!(r.pid, Some(4242));
    assert_eq!(r.status, "recording");
    assert_eq!(r.started_at.map(|s| s.len()), Some(19));
}

#[test]
fn unreadable_store_reads_as_default() {
    let r = status_or_default(Err("Failed to parse status file".to_string()));
    assert_eq!(r.status, "idle");
    assert_eq!(r.pid, None);
    assert_eq!(r.task, None);
    assert_eq!(r.started_at, None);
}

#[test]
fn readable_store_is_returned_as_is() {
    let r = status_or_default(Ok(sample()));
    assert_eq!(r.pid, Some(77));
    assert_eq!(r.status, "busy");
    assert_eq!(r.task.as_deref(), Some("transcribe"));
    assert_eq!(r.started_at.as_deref(), Some("2023-11-14 22:13:20"));
}
