//! The durable, externally visible snapshot of the worker's state, and the
//! pure part of the Status Store's read-modify-write update.
use vstd::prelude::*;

use crate::timestamp::{format_timestamp, timestamp_text, unix_time_secs};

verus! {

/// Snapshot of the worker as recorded in the status file.
#[derive(Clone, Debug)]
pub struct EngineStatus {
    pub pid: Option<u32>,
    pub status: String,
    pub task: Option<String>,
    pub started_at: Option<String>,
}

/// Mathematical model of an `EngineStatus`.
pub struct StatusView {
    pub pid: Option<u32>,
    pub status: Seq<char>,
    pub task: Option<Seq<char>>,
    pub started_at: Option<Seq<char>>,
}

/// The text of an optional owned string.
pub open spec fn opt_text(o: Option<String>) -> Option<Seq<char>> {
    match o {
        Some(s) => Some(s@),
        None => None,
    }
}

/// The text of an optional borrowed string.
pub open spec fn opt_str_text(o: Option<&str>) -> Option<Seq<char>> {
    match o {
        Some(s) => Some(s@),
        None => None,
    }
}

impl View for EngineStatus {
    type V = StatusView;

    open spec fn view(&self) -> StatusView {
        StatusView {
            pid: self.pid,
            status: self.status@,
            task: opt_text(self.task),
            started_at: opt_text(self.started_at),
        }
    }
}

/// The label of a worker that is doing nothing.
pub open spec fn idle_label() -> Seq<char> {
    "idle"@
}

/// The snapshot of an idle worker: no pid, no task, no start time.
pub open spec fn default_view() -> StatusView {
    StatusView { pid: None, status: idle_label(), task: None, started_at: None }
}

/// A snapshot is coherent when it carries a start time exactly when the
/// worker is not idle.
pub open spec fn coherent(v: StatusView) -> bool {
    v.started_at.is_some() == (v.status != idle_label())
}

/// The snapshot that results from relabelling `current` with `status` and
/// `task` at `now` seconds after the epoch: the pid is kept, and the start
/// time is set for any label but `idle` and cleared for `idle`.
pub open spec fn updated_view(
    current: StatusView,
    status: Seq<char>,
    task: Option<Seq<char>>,
    now: nat,
) -> StatusView {
    StatusView {
        pid: current.pid,
        status: status,
        task: task,
        started_at: if status == idle_label() {
            None
        } else {
            Some(timestamp_text(now))
        },
    }
}

impl Default for EngineStatus {
    fn default() -> (r: EngineStatus)
        ensures
            r@ == default_view(),
            coherent(r@),
    {
        EngineStatus { pid: None, status: String::from_str("idle"), task: None, started_at: None }
    }
}

/// What a read of the Status Store yields: the loaded snapshot, or the
/// default one when the file is missing or could not be read or parsed, so
/// that a corrupted file never fails the reader.
pub fn status_or_default(loaded: Result<EngineStatus, String>) -> (r: EngineStatus)
    ensures
        match loaded {
            Ok(s) => r@ == s@,
            Err(_) => r@ == default_view(),
        },
{
    match loaded {
        Ok(s) => s,
        Err(_) => EngineStatus::default(),
    }
}

/// Whether `status` is the idle label.
pub fn is_idle_label(status: &str) -> (r: bool)
    ensures
        r == (status@ == idle_label()),
{
    let label = String::from_str(status);
    let idle = String::from_str("idle");
    label == idle
}

fn owned_text(o: Option<&str>) -> (r: Option<String>)
    ensures
        opt_text(r) == opt_str_text(o),
{
    match o {
        Some(s) => Some(String::from_str(s)),
        None => None,
    }
}

/// Relabels `current` with `status` and `task`, stamping the start time
/// from `now_secs` (seconds since the Unix epoch) unless the new label is
/// `idle`, in which case the start time is cleared. The pid is kept.
pub fn apply_update(current: EngineStatus, status: &str, task: Option<&str>, now_secs: u64) -> (r:
    EngineStatus)
    ensures
        r@ == updated_view(current@, status@, opt_str_text(task), now_secs as nat),
        coherent(r@),
{
    let started_at = if is_idle_label(status) {
        None
    } else {
        Some(format_timestamp(now_secs))
    };
    EngineStatus {
        pid: current.pid,
        status: String::from_str(status),
        task: owned_text(task),
        started_at,
    }
}

/// The label of a worker that is capturing audio.
pub open spec fn recording_label() -> Seq<char> {
    "recording"@
}

/// The task label of a capture.
pub open spec fn capture_task() -> Seq<char> {
    "spool"@
}

/// The snapshot recorded when worker `pid` has started capturing at `now`.
pub open spec fn started_view(current: StatusView, pid: u32, now: nat) -> StatusView {
    StatusView {
        pid: Some(pid),
        ..updated_view(current, recording_label(), Some(capture_task()), now)
    }
}

/// The snapshot to record once worker `pid` has been spawned to capture,
/// at `now_secs` seconds after the epoch.
pub fn started_status(current: EngineStatus, pid: u32, now_secs: u64) -> (r: EngineStatus)
    ensures
        r@ == started_view(current@, pid, now_secs as nat),
        coherent(r@),
{
    let mut r = apply_update(current, "recording", Some("spool"), now_secs);
    r.pid = Some(pid);
    r
}

/// The snapshot to record once worker `pid` has been spawned to capture,
/// stamped with the current time.
pub fn mark_started(current: EngineStatus, pid: u32) -> (r: EngineStatus)
    ensures
        exists|now: u64| r@ == started_view(current@, pid, now as nat),
        coherent(r@),
{
    let now = unix_time_secs();
    started_status(current, pid, now)
}

/// Relabelling as busy with a task records the label, the task and a
/// non-empty start time; relabelling that as idle clears the start time.
pub proof fn lemma_busy_then_idle(current: StatusView, task: Seq<char>, t1: nat, t2: nat)
    ensures
        ({
            let busy = updated_view(current, "busy"@, Some(task), t1);
            &&& busy.status == "busy"@
            &&& busy.task == Some(task)
            &&& busy.started_at is Some
            &&& busy.started_at->0.len() > 0
            &&& updated_view(busy, idle_label(), None, t2).started_at is None
            &&& updated_view(busy, idle_label(), None, t2).status == idle_label()
            &&& updated_view(busy, idle_label(), None, t2).task is None
        }),
{
    reveal_strlit("busy");
    reveal_strlit("idle");
    reveal_strlit("-");
    assert("busy"@[0] != "idle"@[0]);
}

/// Relabels `current` with `status` and `task` at the current time: the
/// read-modify-write step of the Status Store, without the file.
pub fn update_status(current: EngineStatus, status: &str, task: Option<&str>) -> (r: EngineStatus)
    ensures
        exists|now: u64| r@ == updated_view(current@, status@, opt_str_text(task), now as nat),
        coherent(r@),
{
    let now = unix_time_secs();
    apply_update(current, status, task, now)
}

} // verus!
