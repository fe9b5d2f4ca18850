//! The supervisor's belief about the single worker it runs, and the
//! decisions of its start and stop operations. The caller holds the handle
//! under one lock, performs the spawning, signalling and sleeping that these
//! functions ask for, and hands back what happened.
use vstd::prelude::*;

use crate::status::{default_view, started_view, EngineStatus, StatusView};

verus! {

/// Why a supervisor operation failed.
#[derive(Clone, Debug, PartialEq, Eq)]
pub enum SupervisorError {
    /// The OS refused to create the worker process; carries the OS error text.
    Spawn(String),
    /// Stop was requested while no worker is known.
    NotRunning,
    /// A one-shot worker exited unsuccessfully; carries its stderr.
    WorkerExit(String),
    /// The lock around the worker handle could not be taken.
    Lock(String),
    /// The status file could not be written.
    StatusStore(String),
}

impl SupervisorError {
    /// The text shown to the user for this error.
    pub fn message(&self) -> (r: String)
        ensures
            match self {
                SupervisorError::Spawn(t) => r@ == t@,
                SupervisorError::NotRunning => r@ == "No recording process found"@,
                SupervisorError::WorkerExit(t) => r@ == t@,
                SupervisorError::Lock(t) => r@ == t@,
                SupervisorError::StatusStore(t) => r@ == t@,
            },
    {
        match self {
            SupervisorError::Spawn(t) => t.clone(),
            SupervisorError::NotRunning => String::from_str("No recording process found"),
            SupervisorError::WorkerExit(t) => t.clone(),
            SupervisorError::Lock(t) => t.clone(),
            SupervisorError::StatusStore(t) => t.clone(),
        }
    }
}

/// The supervisor's in-memory belief about the current worker.
#[derive(Clone, Copy, Debug, PartialEq, Eq, Structural)]
pub struct WorkerHandle {
    pub process_id: Option<u32>,
    pub recording_active: bool,
}

/// The handle with no worker and no capture in progress.
pub open spec fn idle_handle() -> WorkerHandle {
    WorkerHandle { process_id: None, recording_active: false }
}

/// The handle after a start request on `prior`: the new worker on a
/// successful spawn; after a failed one, the capture flag rolled back to
/// false and the worker known before, if any, kept.
pub open spec fn handle_after_start(prior: WorkerHandle, spawned: Option<u32>) -> WorkerHandle {
    match spawned {
        Some(pid) => WorkerHandle { process_id: Some(pid), recording_active: true },
        None => WorkerHandle { process_id: prior.process_id, recording_active: false },
    }
}

/// The handle after a stop request on `h`: unchanged when no worker is
/// known, idle otherwise.
pub open spec fn handle_after_stop(h: WorkerHandle) -> WorkerHandle {
    if h.process_id is None {
        h
    } else {
        idle_handle()
    }
}

impl WorkerHandle {
    /// A capture in progress always has a known worker.
    pub open spec fn consistent(&self) -> bool {
        self.recording_active ==> self.process_id is Some
    }

    /// The handle at supervisor startup: no worker, not recording.
    pub fn new() -> (r: WorkerHandle)
        ensures
            r == idle_handle(),
    {
        WorkerHandle { process_id: None, recording_active: false }
    }

    /// Marks a capture as in progress before the worker is spawned, so that
    /// a stop request racing the spawn is not lost. Returns the handle as it
    /// was, for `finish_start`.
    pub fn begin_start(&mut self) -> (prior: WorkerHandle)
        ensures
            prior == *old(self),
            final(self).recording_active,
            final(self).process_id == old(self).process_id,
    {
        let prior = *self;
        self.recording_active = true;
        prior
    }

    /// Records the outcome of the spawn that followed `begin_start`: on
    /// success the new pid, which is returned; on failure the capture flag
    /// is rolled back to false, the pid known before the start is kept, and
    /// the OS error text is returned as a spawn error.
    pub fn finish_start(&mut self, prior: WorkerHandle, spawned: Result<u32, String>) -> (r: Result<
        u32,
        SupervisorError,
    >)
        ensures
            *final(self) == handle_after_start(
                prior,
                match spawned {
                    Ok(pid) => Some(pid),
                    Err(_) => None,
                },
            ),
            match spawned {
                Ok(pid) => r == Ok::<u32, SupervisorError>(pid),
                Err(e) => r == Err::<u32, SupervisorError>(SupervisorError::Spawn(e)),
            },
            final(self).consistent(),
    {
        match spawned {
            Ok(pid) => {
                self.process_id = Some(pid);
                self.recording_active = true;
                Ok(pid)
            },
            Err(e) => {
                self.process_id = prior.process_id;
                self.recording_active = false;
                Err(SupervisorError::Spawn(e))
            },
        }
    }

    /// Starts the shutdown of the known worker, with the given grace period
    /// and confirmation interval; fails with `NotRunning` when no worker is
    /// known. The handle itself is left as it is until `finish_stop`.
    pub fn begin_stop(&self, grace_ms: u64, confirm_ms: u64) -> (r: Result<
        Shutdown,
        SupervisorError,
    >)
        ensures
            match self.process_id {
                Some(pid) => r == Ok::<Shutdown, SupervisorError>(
                    shutdown_start(pid, grace_ms, confirm_ms),
                ),
                None => r == Err::<Shutdown, SupervisorError>(SupervisorError::NotRunning),
            },
    {
        match self.process_id {
            Some(pid) => Ok(Shutdown::new(pid, grace_ms, confirm_ms)),
            None => Err(SupervisorError::NotRunning),
        }
    }

    /// Completes a stop, whatever the shutdown's outcome: forgets the
    /// worker, ends the capture, and returns the snapshot to record in the
    /// Status Store, the default one.
    pub fn finish_stop(&mut self) -> (reset: EngineStatus)
        ensures
            *final(self) == idle_handle(),
            reset@ == default_view(),
            final(self).consistent(),
    {
        self.process_id = None;
        self.recording_active = false;
        EngineStatus::default()
    }
}

/// A request made of the supervisor, with the OS's answer to it.
pub enum Request {
    /// Start a capture: `spawned` is the pid of the spawned worker, or
    /// `None` when the spawn failed; `now` is the time of the start.
    Start { spawned: Option<u32>, now: nat },
    /// Stop the capture.
    Stop,
}

/// The supervisor's handle together with the snapshot in the Status Store.
pub struct SupervisorModel {
    pub handle: WorkerHandle,
    pub store: StatusView,
}

/// The effect of one request: a successful start records the worker in the
/// handle and the store; a failed start clears the capture flag and leaves
/// the pid and the store as they were; a stop with no
/// known worker changes nothing, and otherwise empties the handle and
/// resets the store to the default snapshot.
pub open spec fn step(m: SupervisorModel, req: Request) -> SupervisorModel {
    match req {
        Request::Start { spawned, now } => match spawned {
            Some(pid) => SupervisorModel {
                handle: handle_after_start(m.handle, spawned),
                store: started_view(m.store, pid, now),
            },
            None => SupervisorModel { handle: handle_after_start(m.handle, spawned), store: m.store },
        },
        Request::Stop => if m.handle.process_id is None {
            m
        } else {
            SupervisorModel { handle: handle_after_stop(m.handle), store: default_view() }
        },
    }
}

/// The effect of a sequence of requests, in order.
pub open spec fn run(m: SupervisorModel, reqs: Seq<Request>) -> SupervisorModel
    decreases reqs.len(),
{
    if reqs.len() == 0 {
        m
    } else {
        run(step(m, reqs[0]), reqs.drop_first())
    }
}

/// Whether `req` is a start whose spawn succeeded.
pub open spec fn is_successful_start(req: Request) -> bool {
    match req {
        Request::Start { spawned, .. } => spawned is Some,
        Request::Stop => false,
    }
}

/// Whatever sequence of starts and stops is made, a handle that never showed
/// a capture without a worker never shows one afterwards.
pub proof fn lemma_requests_keep_handle_consistent(m: SupervisorModel, reqs: Seq<Request>)
    requires
        m.handle.consistent(),
    ensures
        run(m, reqs).handle.consistent(),
    decreases reqs.len(),
{
    if reqs.len() > 0 {
        lemma_requests_keep_handle_consistent(step(m, reqs[0]), reqs.drop_first());
    }
}

/// From startup, as long as no start has succeeded, the handle knows no
/// worker, so a stop is refused (`begin_stop` returns `NotRunning`) and
/// leaves the handle and the Status Store as they were.
pub proof fn lemma_stop_without_start(m: SupervisorModel, reqs: Seq<Request>)
    requires
        m.handle == idle_handle(),
        forall|i: int| 0 <= i < reqs.len() ==> !is_successful_start(#[trigger] reqs[i]),
    ensures
        run(m, reqs) == m,
        run(m, reqs).handle.process_id is None,
        step(run(m, reqs), Request::Stop) == m,
    decreases reqs.len(),
{
    if reqs.len() > 0 {
        assert(!is_successful_start(reqs[0]));
        assert forall|i: int| 0 <= i < reqs.drop_first().len() implies !is_successful_start(
            #[trigger] reqs.drop_first()[i],
        ) by {
            assert(reqs.drop_first()[i] == reqs[i + 1]);
        }
        lemma_stop_without_start(step(m, reqs[0]), reqs.drop_first());
    }
}

/// A stop of a known worker leaves the default snapshot in the Status Store
/// and an idle handle, whatever was recorded before.
pub proof fn lemma_stop_resets_store(m: SupervisorModel)
    requires
        m.handle.process_id is Some,
    ensures
        step(m, Request::Stop).store == default_view(),
        step(m, Request::Stop).handle == idle_handle(),
{
}

/// Where a shutdown stands.
#[derive(Clone, Copy, Debug, PartialEq, Eq, Structural)]
pub enum ShutdownStage {
    /// The graceful termination request is to be sent.
    SendGraceful,
    /// The grace period is to be waited.
    AwaitGrace,
    /// Whether the worker survived the grace period is to be asked.
    ProbeAfterGrace,
    /// The forceful termination request is to be sent.
    SendForceful,
    /// The confirmation interval is to be waited.
    AwaitConfirm,
    /// Whether the worker survived the forceful request is to be asked.
    ProbeAfterConfirm,
    /// The protocol is over.
    Done,
}

/// The graceful-then-forceful shutdown protocol for one worker.
#[derive(Clone, Copy, Debug, PartialEq, Eq, Structural)]
pub struct Shutdown {
    pub pid: u32,
    pub grace_ms: u64,
    pub confirm_ms: u64,
    pub stage: ShutdownStage,
    /// Whether the forceful request was sent.
    pub forced: bool,
    /// Whether the worker was last seen gone from the process table.
    pub terminated: bool,
}

/// What the caller is to do next for a shutdown.
#[derive(Clone, Copy, Debug, PartialEq, Eq, Structural)]
pub enum ShutdownAction {
    /// Send a termination request to `pid`, forceful or graceful.
    Signal { pid: u32, forceful: bool },
    /// Sleep for `ms` milliseconds.
    Sleep { ms: u64 },
    /// Ask the process table whether `pid` is still alive.
    Probe { pid: u32 },
    /// Nothing is left to do; `terminated` tells whether the worker was
    /// confirmed gone.
    Finish { terminated: bool },
}

/// What happened when the caller did what a shutdown asked.
#[derive(Clone, Copy, Debug, PartialEq, Eq, Structural)]
pub enum ShutdownEvent {
    /// A termination request was issued, or could not be.
    Signalled { delivered: bool },
    /// The requested sleep is over.
    Slept,
    /// The process table was asked about the worker.
    Probed { alive: bool },
}

/// A fresh shutdown of `pid`.
pub open spec fn shutdown_start(pid: u32, grace_ms: u64, confirm_ms: u64) -> Shutdown {
    Shutdown {
        pid,
        grace_ms,
        confirm_ms,
        stage: ShutdownStage::SendGraceful,
        forced: false,
        terminated: false,
    }
}

/// The action that a shutdown in state `s` asks for.
pub open spec fn action_of(s: Shutdown) -> ShutdownAction {
    match s.stage {
        ShutdownStage::SendGraceful => ShutdownAction::Signal { pid: s.pid, forceful: false },
        ShutdownStage::AwaitGrace => ShutdownAction::Sleep { ms: s.grace_ms },
        ShutdownStage::ProbeAfterGrace => ShutdownAction::Probe { pid: s.pid },
        ShutdownStage::SendForceful => ShutdownAction::Signal { pid: s.pid, forceful: true },
        ShutdownStage::AwaitConfirm => ShutdownAction::Sleep { ms: s.confirm_ms },
        ShutdownStage::ProbeAfterConfirm => ShutdownAction::Probe { pid: s.pid },
        ShutdownStage::Done => ShutdownAction::Finish { terminated: s.terminated },
    }
}

/// The state of a shutdown after event `e` in state `s`. A graceful
/// request that could not be issued goes straight to the forceful one; a
/// worker gone after the grace period ends the protocol without force; a
/// forceful request that could not be issued ends it unconfirmed. An event
/// that does not answer the current action changes nothing.
pub open spec fn advance(s: Shutdown, e: ShutdownEvent) -> Shutdown {
    match (s.stage, e) {
        (ShutdownStage::SendGraceful, ShutdownEvent::Signalled { delivered }) => Shutdown {
            stage: if delivered {
                ShutdownStage::AwaitGrace
            } else {
                ShutdownStage::SendForceful
            },
            ..s
        },
        (ShutdownStage::AwaitGrace, ShutdownEvent::Slept) => Shutdown {
            stage: ShutdownStage::ProbeAfterGrace,
            ..s
        },
        (ShutdownStage::ProbeAfterGrace, ShutdownEvent::Probed { alive }) => Shutdown {
            stage: if alive {
                ShutdownStage::SendForceful
            } else {
                ShutdownStage::Done
            },
            terminated: !alive,
            ..s
        },
        (ShutdownStage::SendForceful, ShutdownEvent::Signalled { delivered }) => Shutdown {
            stage: if delivered {
                ShutdownStage::AwaitConfirm
            } else {
                ShutdownStage::Done
            },
            forced: delivered,
            ..s
        },
        (ShutdownStage::AwaitConfirm, ShutdownEvent::Slept) => Shutdown {
            stage: ShutdownStage::ProbeAfterConfirm,
            ..s
        },
        (ShutdownStage::ProbeAfterConfirm, ShutdownEvent::Probed { alive }) => Shutdown {
            stage: ShutdownStage::Done,
            terminated: !alive,
            ..s
        },
        _ => s,
    }
}

/// Whether event `e` is an answer to action `a`.
pub open spec fn answers(a: ShutdownAction, e: ShutdownEvent) -> bool {
    match (a, e) {
        (ShutdownAction::Signal { .. }, ShutdownEvent::Signalled { .. }) => true,
        (ShutdownAction::Sleep { .. }, ShutdownEvent::Slept) => true,
        (ShutdownAction::Probe { .. }, ShutdownEvent::Probed { .. }) => true,
        _ => false,
    }
}

/// The state of a shutdown after the events `events`, in order.
pub open spec fn drive(s: Shutdown, events: Seq<ShutdownEvent>) -> Shutdown
    decreases events.len(),
{
    if events.len() == 0 {
        s
    } else {
        drive(advance(s, events[0]), events.drop_first())
    }
}

/// Whether each of `events` answers the action asked for at its turn.
pub open spec fn answered(s: Shutdown, events: Seq<ShutdownEvent>) -> bool
    decreases events.len(),
{
    events.len() == 0 || (answers(action_of(s), events[0]) && answered(
        advance(s, events[0]),
        events.drop_first(),
    ))
}

/// How many actions a shutdown in `stage` may still ask for, at most.
pub open spec fn steps_left(stage: ShutdownStage) -> nat {
    match stage {
        ShutdownStage::SendGraceful => 6,
        ShutdownStage::AwaitGrace => 5,
        ShutdownStage::ProbeAfterGrace => 4,
        ShutdownStage::SendForceful => 3,
        ShutdownStage::AwaitConfirm => 2,
        ShutdownStage::ProbeAfterConfirm => 1,
        ShutdownStage::Done => 0,
    }
}

/// Each answered action moves a shutdown at least one stage closer to its end.
proof fn lemma_answered_run_bounded(s: Shutdown, events: Seq<ShutdownEvent>)
    requires
        answered(s, events),
    ensures
        events.len() <= steps_left(s.stage),
        steps_left(drive(s, events).stage) <= steps_left(s.stage) - events.len(),
    decreases events.len(),
{
    if events.len() > 0 {
        lemma_answered_run_bounded(advance(s, events[0]), events.drop_first());
    }
}

/// A shutdown asks for at most six actions (two signals, two sleeps, two
/// probes), however the worker behaves, and a shutdown that has been
/// answered six times is over.
pub proof fn lemma_shutdown_is_bounded(pid: u32, grace_ms: u64, confirm_ms: u64, events: Seq<ShutdownEvent>)
    requires
        answered(shutdown_start(pid, grace_ms, confirm_ms), events),
    ensures
        events.len() <= 6,
        events.len() == 6 ==> drive(shutdown_start(pid, grace_ms, confirm_ms), events).stage
            == ShutdownStage::Done,
{
    lemma_answered_run_bounded(shutdown_start(pid, grace_ms, confirm_ms), events);
}

/// A worker that takes the graceful request and is gone once the grace
/// period is over is never sent the forceful one: the shutdown ends after
/// the first probe, confirmed and unforced.
pub proof fn lemma_graceful_exit_is_not_forced(
    pid: u32,
    grace_ms: u64,
    confirm_ms: u64,
    events: Seq<ShutdownEvent>,
)
    requires
        answered(shutdown_start(pid, grace_ms, confirm_ms), events),
        events.len() >= 3,
        events[0] == (ShutdownEvent::Signalled { delivered: true }),
        events[2] == (ShutdownEvent::Probed { alive: false }),
    ensures
        events.len() == 3,
        drive(shutdown_start(pid, grace_ms, confirm_ms), events).stage == ShutdownStage::Done,
        !drive(shutdown_start(pid, grace_ms, confirm_ms), events).forced,
        drive(shutdown_start(pid, grace_ms, confirm_ms), events).terminated,
{
    let s0 = shutdown_start(pid, grace_ms, confirm_ms);
    let s1 = advance(s0, events[0]);
    let s2 = advance(s1, events[1]);
    let s3 = advance(s2, events[2]);
    let rest = events.drop_first().drop_first().drop_first();
    assert(events.drop_first()[0] == events[1]);
    assert(events.drop_first().drop_first()[0] == events[2]);
    assert(answered(s1, events.drop_first()));
    assert(answered(s2, events.drop_first().drop_first()));
    assert(answered(s3, rest));
    assert(s3.stage == ShutdownStage::Done);
    if rest.len() > 0 {
        assert(!answers(action_of(s3), rest[0]));
    }
    assert(drive(s3, rest) == s3);
    assert(drive(s0, events) == drive(s1, events.drop_first()));
    assert(drive(s1, events.drop_first()) == drive(s2, events.drop_first().drop_first()));
    assert(drive(s2, events.drop_first().drop_first()) == drive(s3, rest));
}

impl Shutdown {
    /// A shutdown of `pid` that first asks the worker to exit, allows it
    /// `grace_ms` milliseconds, and then forces it, waiting `confirm_ms`
    /// milliseconds before checking.
    pub fn new(pid: u32, grace_ms: u64, confirm_ms: u64) -> (r: Shutdown)
        ensures
            r == shutdown_start(pid, grace_ms, confirm_ms),
    {
        Shutdown {
            pid,
            grace_ms,
            confirm_ms,
            stage: ShutdownStage::SendGraceful,
            forced: false,
            terminated: false,
        }
    }

    /// The action the caller is to perform next.
    pub fn next_action(&self) -> (r: ShutdownAction)
        ensures
            r == action_of(*self),
    {
        match self.stage {
            ShutdownStage::SendGraceful => ShutdownAction::Signal { pid: self.pid, forceful: false },
            ShutdownStage::AwaitGrace => ShutdownAction::Sleep { ms: self.grace_ms },
            ShutdownStage::ProbeAfterGrace => ShutdownAction::Probe { pid: self.pid },
            ShutdownStage::SendForceful => ShutdownAction::Signal { pid: self.pid, forceful: true },
            ShutdownStage::AwaitConfirm => ShutdownAction::Sleep { ms: self.confirm_ms },
            ShutdownStage::ProbeAfterConfirm => ShutdownAction::Probe { pid: self.pid },
            ShutdownStage::Done => ShutdownAction::Finish { terminated: self.terminated },
        }
    }

    /// Takes in what happened when the last action was performed.
    pub fn on_event(&mut self, e: ShutdownEvent)
        ensures
            *final(self) == advance(*old(self), e),
    {
        match (self.stage, e) {
            (ShutdownStage::SendGraceful, ShutdownEvent::Signalled { delivered }) => {
                self.stage =
                    if delivered {
                        ShutdownStage::AwaitGrace
                    } else {
                        ShutdownStage::SendForceful
                    };
            },
            (ShutdownStage::AwaitGrace, ShutdownEvent::Slept) => {
                self.stage = ShutdownStage::ProbeAfterGrace;
            },
            (ShutdownStage::ProbeAfterGrace, ShutdownEvent::Probed { alive }) => {
                self.stage =
                    if alive {
                        ShutdownStage::SendForceful
                    } else {
                        ShutdownStage::Done
                    };
                self.terminated = !alive;
            },
            (ShutdownStage::SendForceful, ShutdownEvent::Signalled { delivered }) => {
                self.stage =
                    if delivered {
                        ShutdownStage::AwaitConfirm
                    } else {
                        ShutdownStage::Done
                    };
                self.forced = delivered;
            },
            (ShutdownStage::AwaitConfirm, ShutdownEvent::Slept) => {
                self.stage = ShutdownStage::ProbeAfterConfirm;
            },
            (ShutdownStage::ProbeAfterConfirm, ShutdownEvent::Probed { alive }) => {
                self.stage = ShutdownStage::Done;
                self.terminated = !alive;
            },
            _ => {},
        }
    }

    /// Whether the protocol is over.
    pub fn is_done(&self) -> (r: bool)
        ensures
            r == (self.stage == ShutdownStage::Done),
    {
        match self.stage {
            ShutdownStage::Done => true,
            _ => false,
        }
    }
}

/// Classifies a finished one-shot worker run by its exit status alone: on
/// success its stdout, otherwise its stderr as the error detail.
pub fn classify_exit(success: bool, stdout: String, stderr: String) -> (r: Result<
    String,
    SupervisorError,
>)
    ensures
        success ==> r == Ok::<String, SupervisorError>(stdout),
        !success ==> r == Err::<String, SupervisorError>(SupervisorError::WorkerExit(stderr)),
{
    if success {
        Ok(stdout)
    } else {
        Err(SupervisorError::WorkerExit(stderr))
    }
}

} // verus!
