//! The single-instance lifecycle of `dsh`: its phases, its generations, and
//! the start and stop procedures as steps from an observed event to the next
//! action.
//!
//! `P` is the handle of a managed process; the library only stores it.

use vstd::prelude::*;

use super::error::BackendError;
use crate::platform::{PlatformError, ProcessExit};
use crate::text::{decimal, push_decimal, string_of};

verus! {

/// How long the start waits for the web UI to become ready.
pub const START_TIMEOUT_MS: u64 = 10_000;

/// The pause between two readiness probes.
pub const PROBE_INTERVAL_MS: u64 = 200;

/// The limit of a single TCP or HTTP readiness probe.
pub const PROBE_IO_TIMEOUT_MS: u64 = 500;

/// How long a stop waits for a graceful exit.
pub const STOP_GRACE_PERIOD_MS: u64 = 5_000;

/// The phase of the single `dsh` instance.
#[derive(Debug, Clone, Copy, PartialEq, Eq, Structural)]
pub enum HarnessPhase {
    /// No `dsh` instance is managed.
    Stopped,
    /// `dsh` is being created and its web UI awaited.
    Starting,
    /// `dsh` passed the readiness probe.
    Running,
    /// The process tree of `dsh` is being terminated.
    Stopping,
}

/// The current `dsh` instance and its identity.
pub struct HarnessLifecycle<P> {
    /// The phase of the lifecycle.
    pub phase: HarnessPhase,
    /// The generation of the instance, advanced at every start, so that a
    /// monitor of an older instance cannot touch the state of a newer one.
    pub generation: u64,
    /// The managed process; empty while stopped.
    pub process: Option<P>,
}

/// The shared state of the lifecycle: whether a lifecycle change is under way,
/// and the lifecycle itself.
pub struct HarnessState<P> {
    /// Held by the start or stop that is under way.
    pub operation_held: bool,
    /// The lifecycle that monitors may read and update.
    pub lifecycle: HarnessLifecycle<P>,
}

/// `wrapping_add(1)` on a generation.
pub open spec fn next_generation(g: u64) -> u64 {
    if g == u64::MAX {
        0
    } else {
        (g + 1) as u64
    }
}

/// The lifecycle after `reset_if_current(generation)`.
pub open spec fn reset_spec<P>(l: HarnessLifecycle<P>, generation: u64) -> HarnessLifecycle<P> {
    if l.generation == generation {
        HarnessLifecycle { phase: HarnessPhase::Stopped, generation: l.generation, process: None }
    } else {
        l
    }
}

/// The lifecycle after the exit of the instance of `generation` was observed.
pub open spec fn exit_spec<P>(l: HarnessLifecycle<P>, generation: u64) -> HarnessLifecycle<P> {
    if l.generation == generation && l.process is Some {
        HarnessLifecycle { phase: HarnessPhase::Stopped, generation: l.generation, process: None }
    } else {
        l
    }
}

/// A stopped lifecycle with no instance, generation zero and no operation under way.
pub fn create_harness_state<P>() -> (r: HarnessState<P>)
    ensures
        !r.operation_held,
        r.lifecycle.phase == HarnessPhase::Stopped,
        r.lifecycle.generation == 0,
        r.lifecycle.process is None,
{
    HarnessState {
        operation_held: false,
        lifecycle: HarnessLifecycle { phase: HarnessPhase::Stopped, generation: 0, process: None },
    }
}

/// Takes the lifecycle operation; a change that is already under way is not
/// queued behind but refused.
pub fn try_begin_operation<P>(state: &mut HarnessState<P>) -> (r: Result<(), BackendError>)
    ensures
        old(state).operation_held ==> r == Err::<(), BackendError>(BackendError::OperationInProgress)
            && *final(state) == *old(state),
        !old(state).operation_held ==> r is Ok && final(state).operation_held
            && final(state).lifecycle == old(state).lifecycle,
{
    if state.operation_held {
        Err(BackendError::OperationInProgress)
    } else {
        state.operation_held = true;
        Ok(())
    }
}

/// Gives the lifecycle operation back.
pub fn end_operation<P>(state: &mut HarnessState<P>)
    ensures
        !final(state).operation_held,
        final(state).lifecycle == old(state).lifecycle,
{
    state.operation_held = false;
}

/// Moves a stopped lifecycle to `Starting` under a new generation, which it
/// returns. A running instance, or a change under way, refuses the start.
pub fn begin_start<P>(lifecycle: &mut HarnessLifecycle<P>) -> (r: Result<u64, BackendError>)
    ensures
        match old(lifecycle).phase {
            HarnessPhase::Stopped => r == Ok::<u64, BackendError>(
                next_generation(old(lifecycle).generation),
            ) && final(lifecycle).phase == HarnessPhase::Starting && final(lifecycle).generation
                == next_generation(old(lifecycle).generation) && final(lifecycle).process == old(lifecycle).process,
            HarnessPhase::Running => r == Err::<u64, BackendError>(BackendError::DshAlreadyRunning) && *final(lifecycle) == *old(lifecycle),
            _ => r == Err::<u64, BackendError>(BackendError::OperationInProgress) && *final(lifecycle) == *old(lifecycle),
        },
{
    match lifecycle.phase {
        HarnessPhase::Stopped => {
            lifecycle.phase = HarnessPhase::Starting;
            lifecycle.generation = lifecycle.generation.wrapping_add(1);
            Ok(lifecycle.generation)
        },
        HarnessPhase::Running => Err(BackendError::DshAlreadyRunning),
        _ => Err(BackendError::OperationInProgress),
    }
}

/// Returns the lifecycle to `Stopped`, but only while `generation` is still
/// the current instance.
pub fn reset_if_current<P>(lifecycle: &mut HarnessLifecycle<P>, generation: u64)
    ensures
        *final(lifecycle) == reset_spec(*old(lifecycle), generation),
{
    if lifecycle.generation == generation {
        lifecycle.phase = HarnessPhase::Stopped;
        lifecycle.process = None;
    }
}

/// Stores the spawned process, while its start is still the current one.
pub fn attach_process<P>(lifecycle: &mut HarnessLifecycle<P>, generation: u64, process: P)
    ensures
        (old(lifecycle).generation == generation && old(lifecycle).phase
            == HarnessPhase::Starting) ==> *final(lifecycle) == (HarnessLifecycle {
            phase: old(lifecycle).phase,
            generation: old(lifecycle).generation,
            process: Some(process),
        }),
        !(old(lifecycle).generation == generation && old(lifecycle).phase
            == HarnessPhase::Starting) ==> *final(lifecycle) == *old(lifecycle),
{
    if lifecycle.generation == generation && lifecycle.phase == HarnessPhase::Starting {
        lifecycle.process = Some(process);
    }
}

/// Marks the instance of `generation` ready. It must still be current and
/// still hold its process; else it exited before it became ready.
pub fn mark_running<P>(lifecycle: &mut HarnessLifecycle<P>, generation: u64) -> (r: Result<
    (),
    BackendError,
>)
    ensures
        (old(lifecycle).generation == generation && old(lifecycle).process is Some) ==> r is Ok
            && *final(lifecycle) == (HarnessLifecycle {
            phase: HarnessPhase::Running,
            generation: old(lifecycle).generation,
            process: old(lifecycle).process,
        }),
        !(old(lifecycle).generation == generation && old(lifecycle).process is Some) ==> r == Err::<(), BackendError>(BackendError::DshExitedEarly) && *final(lifecycle) == *old(lifecycle),
{
    if lifecycle.generation != generation || lifecycle.process.is_none() {
        return Err(BackendError::DshExitedEarly);
    }
    lifecycle.phase = HarnessPhase::Running;
    Ok(())
}

/// Applies the exit of the instance of `generation`: the lifecycle returns to
/// `Stopped` only if that instance is still the current one.
pub fn record_exit<P>(lifecycle: &mut HarnessLifecycle<P>, generation: u64)
    ensures
        *final(lifecycle) == exit_spec(*old(lifecycle), generation),
{
    if lifecycle.generation == generation && lifecycle.process.is_some() {
        lifecycle.phase = HarnessPhase::Stopped;
        lifecycle.process = None;
    }
}

/// Moves a lifecycle that holds a process to `Stopping`, and returns its
/// generation and a clone of its process.
pub fn begin_stop<P: Clone>(lifecycle: &mut HarnessLifecycle<P>) -> (r: Result<
    (u64, P),
    BackendError,
>)
    ensures
        old(lifecycle).process is None ==> r == Err::<(u64, P), BackendError>(BackendError::ProcessNotRunning) && *final(lifecycle) == *old(lifecycle),
        old(lifecycle).process is Some ==> (r matches Ok((g, p)) && g == old(lifecycle).generation
            && cloned(old(lifecycle).process.unwrap(), p)),
        old(lifecycle).process is Some ==> *final(lifecycle) == (HarnessLifecycle {
            phase: HarnessPhase::Stopping,
            generation: old(lifecycle).generation,
            process: old(lifecycle).process,
        }),
{
    match &lifecycle.process {
        None => Err(BackendError::ProcessNotRunning),
        Some(p) => {
            let q = p.clone();
            lifecycle.phase = HarnessPhase::Stopping;
            Ok((lifecycle.generation, q))
        },
    }
}

/// The address of the local web UI on a port.
pub open spec fn local_address(port: u16) -> Seq<char> {
    "http://127.0.0.1:"@ + decimal(port as nat)
}

/// `http://127.0.0.1:PORT`.
pub fn local_address_string(port: u16) -> (r: String)
    ensures
        r@ == local_address(port),
{
    let mut s = string_of("http://127.0.0.1:");
    push_decimal(&mut s, port as u64);
    s
}

/// Where a start stands.
#[derive(Clone, Copy, PartialEq, Eq, Structural)]
pub enum StartStage {
    ProbingPort,
    Spawning,
    PollingExit,
    ProbingReady,
    CheckingDeadline,
    Terminating,
    Sleeping,
    Done,
}

/// A start under way: its port, its generation and its stage.
#[derive(Clone, Copy, PartialEq, Eq, Structural)]
pub struct StartRun {
    pub port: u16,
    pub generation: u64,
    pub stage: StartStage,
}

/// What the caller of a start observed.
pub enum StartEvent<P> {
    /// Whether something already answers on `127.0.0.1:PORT`.
    PortProbed(Result<bool, BackendError>),
    /// The result of spawning `dsh`.
    Spawned(Result<P, PlatformError>),
    /// The exit cache of the new process.
    ExitPolled(Result<Option<ProcessExit>, PlatformError>),
    /// Whether the web UI answered.
    ReadyProbed(Result<bool, BackendError>),
    /// Whether the start deadline has passed.
    DeadlineChecked(bool),
    /// The result of terminating the process tree after the deadline.
    Terminated(Result<ProcessExit, PlatformError>),
    /// The pause between two probes is over.
    Slept,
}

/// What the caller of a start must do next.
pub enum StartAction {
    /// Probe `127.0.0.1:PORT` over TCP within the timeout.
    ProbePort { port: u16, timeout_ms: u64 },
    /// Spawn `dsh` on the port.
    Spawn { port: u16 },
    /// Start the output readers and the exit monitor of the instance of this
    /// generation, then read the exit cache.
    MonitorThenPollExit { generation: u64 },
    /// Read the exit cache.
    PollExit,
    /// Probe `http://127.0.0.1:PORT` within the timeout; the web UI is ready
    /// only on a 2xx response (`ready_probe_result`).
    ProbeReady { port: u16, timeout_ms: u64 },
    /// Check whether the start deadline has passed.
    CheckDeadline,
    /// Terminate the process tree of the new instance.
    Terminate { grace_ms: u64 },
    /// Pause before the next probe.
    Sleep { ms: u64 },
    /// The start is over with this result.
    Finish(Result<String, BackendError>),
    /// The event does not belong to the stage; nothing changes.
    Ignore,
}

/// Whether a start finished: the operation is given back, and the lifecycle
/// is `after`.
pub open spec fn finished<P>(
    new: HarnessState<P>,
    after: HarnessLifecycle<P>,
    run: StartRun,
) -> bool {
    &&& !new.operation_held
    &&& new.lifecycle == after
    &&& run.stage == StartStage::Done
}

/// The first step of `start_dsh`: the port is checked, the operation taken and
/// the lifecycle moved to `Starting`; then the port is probed.
/// What the first step of a start does, from the state before (`old`) to the
/// state after (`new`), given the port and its result `r`.
pub open spec fn start_begin_post<P>(
    old: HarnessState<P>,
    new: HarnessState<P>,
    port: u16,
    r: (Option<StartRun>, StartAction),
) -> bool {
    &&& (port == 0 ==> r.0 is None && r.1 == StartAction::Finish(Err(BackendError::InvalidPort)) && new == old)
    &&& (port != 0 && old.operation_held ==> r.0 is None && r.1 == StartAction::Finish(Err(BackendError::OperationInProgress)) && new == old)
    &&& (port != 0 && !old.operation_held && old.lifecycle.phase
            != HarnessPhase::Stopped ==> r.0 is None && !new.operation_held && new.lifecycle == old.lifecycle && (if old.lifecycle.phase
            == HarnessPhase::Running {
            r.1 == StartAction::Finish(Err(BackendError::DshAlreadyRunning))
        } else {
            r.1 == StartAction::Finish(Err(BackendError::OperationInProgress))
        }))
    &&& (port != 0 && !old.operation_held && old.lifecycle.phase
            == HarnessPhase::Stopped ==> new.operation_held && r.0 == Some(
            StartRun {
                port,
                generation: next_generation(old.lifecycle.generation),
                stage: StartStage::ProbingPort,
            },
        ) && r.1 == StartAction::ProbePort { port, timeout_ms: PROBE_IO_TIMEOUT_MS } && new.lifecycle == (HarnessLifecycle {
            phase: HarnessPhase::Starting,
            generation: next_generation(old.lifecycle.generation),
            process: old.lifecycle.process,
        }))
}

pub fn start_dsh_begin<P>(state: &mut HarnessState<P>, port: u16) -> (r: (
    Option<StartRun>,
    StartAction,
))
    ensures
        start_begin_post(*old(state), *final(state), port, r),
{
    if port == 0 {
        return (None, StartAction::Finish(Err(BackendError::InvalidPort)));
    }
    match try_begin_operation(state) {
        Err(e) => (None, StartAction::Finish(Err(e))),
        Ok(()) => match begin_start(&mut state.lifecycle) {
            Err(e) => {
                end_operation(state);
                (None, StartAction::Finish(Err(e)))
            },
            Ok(generation) => (
                Some(StartRun { port, generation, stage: StartStage::ProbingPort }),
                StartAction::ProbePort { port, timeout_ms: PROBE_IO_TIMEOUT_MS },
            ),
        },
    }
}

/// One step of `start_dsh`, from the event the caller observed to the next
/// action. Every failure (a busy port, a failed spawn, an early exit, an
/// expired deadline, a failed probe or exit read) returns the lifecycle of
/// this start to `Stopped`; a ready web UI marks it
/// `Running` and finishes with the local address. Every finish gives the
/// operation back.
/// What one step of a start does, from the state before (`old`) to the state
/// after (`new`), given the start, the event and the step's result `r`.
pub open spec fn start_step_post<P>(
    old: HarnessState<P>,
    new: HarnessState<P>,
    run: StartRun,
    event: StartEvent<P>,
    r: (StartRun, StartAction),
) -> bool {
            let g = run.generation;
            let l = old.lifecycle;
            let done = StartRun { stage: StartStage::Done, ..run };
            match (run.stage, event) {
                (StartStage::ProbingPort, StartEvent::PortProbed(Err(e))) => finished(
                    new,
                    reset_spec(l, g),
                    r.0,
                ) && r.1 == StartAction::Finish(Err(e)),
                (StartStage::ProbingPort, StartEvent::PortProbed(Ok(true))) => finished(
                    new,
                    reset_spec(l, g),
                    r.0,
                ) && r.1 == StartAction::Finish(Err(BackendError::PortOccupied)),
                (StartStage::ProbingPort, StartEvent::PortProbed(Ok(false))) => new
                    == old && r.0 == (StartRun { stage: StartStage::Spawning, ..run })
                    && r.1 == StartAction::Spawn { port: run.port },
                (StartStage::Spawning, StartEvent::Spawned(Err(_))) => finished(
                    new,
                    reset_spec(l, g),
                    r.0,
                ) && r.1 == StartAction::Finish(Err(BackendError::DshSpawnFailed)),
                (StartStage::Spawning, StartEvent::Spawned(Ok(p))) => new.operation_held
                    && new.lifecycle == (if l.generation == g && l.phase
                    == HarnessPhase::Starting {
                    HarnessLifecycle { process: Some(p), ..l }
                } else {
                    l
                }) && r.0 == (StartRun { stage: StartStage::PollingExit, ..run }) && r.1
                    == StartAction::MonitorThenPollExit { generation: g },
                (StartStage::PollingExit, StartEvent::ExitPolled(Err(e))) => finished(
                    new,
                    reset_spec(l, g),
                    r.0,
                ) && r.1 == StartAction::Finish(Err(BackendError::Platform(e))),
                (StartStage::PollingExit, StartEvent::ExitPolled(Ok(Some(_)))) => finished(
                    new,
                    reset_spec(l, g),
                    r.0,
                ) && r.1 == StartAction::Finish(Err(BackendError::DshExitedEarly)),
                (StartStage::PollingExit, StartEvent::ExitPolled(Ok(None))) => new
                    == old && r.0 == (StartRun { stage: StartStage::ProbingReady, ..run })
                    && r.1 == StartAction::ProbeReady {
                    port: run.port,
                    timeout_ms: PROBE_IO_TIMEOUT_MS,
                },
                (StartStage::ProbingReady, StartEvent::ReadyProbed(Err(e))) => finished(
                    new,
                    reset_spec(l, g),
                    r.0,
                ) && r.1 == StartAction::Finish(Err(e)),
                (StartStage::ProbingReady, StartEvent::ReadyProbed(Ok(true))) => if l.generation
                    == g && l.process is Some {
                    finished(
                        new,
                        HarnessLifecycle { phase: HarnessPhase::Running, ..l },
                        r.0,
                    ) && (r.1 matches StartAction::Finish(Ok(address)) && address@ == local_address(
                        run.port,
                    ))
                } else {
                    finished(new, reset_spec(l, g), r.0) && r.1 == StartAction::Finish(
                        Err(BackendError::DshExitedEarly),
                    )
                },
                (StartStage::ProbingReady, StartEvent::ReadyProbed(Ok(false))) => new
                    == old && r.0 == (StartRun {
                    stage: StartStage::CheckingDeadline,
                    ..run
                }) && r.1 is CheckDeadline,
                (StartStage::CheckingDeadline, StartEvent::DeadlineChecked(true)) => new
                    == old && r.0 == (StartRun { stage: StartStage::Terminating, ..run })
                    && r.1 == StartAction::Terminate { grace_ms: STOP_GRACE_PERIOD_MS },
                (StartStage::CheckingDeadline, StartEvent::DeadlineChecked(false)) => new
                    == old && r.0 == (StartRun { stage: StartStage::Sleeping, ..run })
                    && r.1 == StartAction::Sleep { ms: PROBE_INTERVAL_MS },
                (StartStage::Terminating, StartEvent::Terminated(t)) => finished(
                    new,
                    reset_spec(l, g),
                    r.0,
                ) && match t {
                    Ok(_) => r.1 == StartAction::Finish(Err(BackendError::DshStartTimeout)),
                    Err(e) => r.1 == StartAction::Finish(Err(BackendError::Platform(e))),
                },
                (StartStage::Sleeping, StartEvent::Slept) => new == old && r.0
                    == (StartRun { stage: StartStage::PollingExit, ..run }) && r.1 is PollExit,
                _ => new == old && r.0 == run && r.1 is Ignore,
            }
        }

pub fn start_dsh_step<P>(state: &mut HarnessState<P>, run: StartRun, event: StartEvent<P>) -> (r: (
    StartRun,
    StartAction,
))
    requires
        old(state).operation_held,
    ensures
        start_step_post(*old(state), *final(state), run, event, r),
{
    let g = run.generation;
    let done = StartRun { stage: StartStage::Done, ..run };
    match (run.stage, event) {
        (StartStage::ProbingPort, StartEvent::PortProbed(Err(e))) => {
            reset_if_current(&mut state.lifecycle, g);
            end_operation(state);
            (done, StartAction::Finish(Err(e)))
        },
        (StartStage::ProbingPort, StartEvent::PortProbed(Ok(true))) => {
            reset_if_current(&mut state.lifecycle, g);
            end_operation(state);
            (done, StartAction::Finish(Err(BackendError::PortOccupied)))
        },
        (StartStage::ProbingPort, StartEvent::PortProbed(Ok(false))) => (
            StartRun { stage: StartStage::Spawning, ..run },
            StartAction::Spawn { port: run.port },
        ),
        (StartStage::Spawning, StartEvent::Spawned(Err(_))) => {
            reset_if_current(&mut state.lifecycle, g);
            end_operation(state);
            (done, StartAction::Finish(Err(BackendError::DshSpawnFailed)))
        },
        (StartStage::Spawning, StartEvent::Spawned(Ok(p))) => {
            attach_process(&mut state.lifecycle, g, p);
            (
                StartRun { stage: StartStage::PollingExit, ..run },
                StartAction::MonitorThenPollExit { generation: g },
            )
        },
        (StartStage::PollingExit, StartEvent::ExitPolled(Err(e))) => {
            reset_if_current(&mut state.lifecycle, g);
            end_operation(state);
            (done, StartAction::Finish(Err(BackendError::Platform(e))))
        },
        (StartStage::PollingExit, StartEvent::ExitPolled(Ok(Some(_)))) => {
            reset_if_current(&mut state.lifecycle, g);
            end_operation(state);
            (done, StartAction::Finish(Err(BackendError::DshExitedEarly)))
        },
        (StartStage::PollingExit, StartEvent::ExitPolled(Ok(None))) => (
            StartRun { stage: StartStage::ProbingReady, ..run },
            StartAction::ProbeReady { port: run.port, timeout_ms: PROBE_IO_TIMEOUT_MS },
        ),
        (StartStage::ProbingReady, StartEvent::ReadyProbed(Err(e))) => {
            reset_if_current(&mut state.lifecycle, g);
            end_operation(state);
            (done, StartAction::Finish(Err(e)))
        },
        (StartStage::ProbingReady, StartEvent::ReadyProbed(Ok(true))) => {
            let marked = mark_running(&mut state.lifecycle, g);
            match marked {
                Ok(()) => {
                    end_operation(state);
                    (done, StartAction::Finish(Ok(local_address_string(run.port))))
                },
                Err(e) => {
                    reset_if_current(&mut state.lifecycle, g);
                    end_operation(state);
                    (done, StartAction::Finish(Err(e)))
                },
            }
        },
        (StartStage::ProbingReady, StartEvent::ReadyProbed(Ok(false))) => (
            StartRun { stage: StartStage::CheckingDeadline, ..run },
            StartAction::CheckDeadline,
        ),
        (StartStage::CheckingDeadline, StartEvent::DeadlineChecked(true)) => (
            StartRun { stage: StartStage::Terminating, ..run },
            StartAction::Terminate { grace_ms: STOP_GRACE_PERIOD_MS },
        ),
        (StartStage::CheckingDeadline, StartEvent::DeadlineChecked(false)) => (
            StartRun { stage: StartStage::Sleeping, ..run },
            StartAction::Sleep { ms: PROBE_INTERVAL_MS },
        ),
        (StartStage::Terminating, StartEvent::Terminated(t)) => {
            reset_if_current(&mut state.lifecycle, g);
            end_operation(state);
            match t {
                Ok(_) => (done, StartAction::Finish(Err(BackendError::DshStartTimeout))),
                Err(e) => (done, StartAction::Finish(Err(BackendError::Platform(e)))),
            }
        },
        (StartStage::Sleeping, StartEvent::Slept) => (
            StartRun { stage: StartStage::PollingExit, ..run },
            StartAction::PollExit,
        ),
        (_, _) => (run, StartAction::Ignore),
    }
}

/// What the caller of a stop must do next.
pub enum StopAction<P> {
    /// Terminate the process tree of this process and report the result.
    Terminate { process: P, grace_ms: u64 },
    /// The stop is over with this result.
    Finish(Result<(), BackendError>),
}

/// The first step of `stop_dsh`: the operation is taken and the lifecycle,
/// which must hold a process, moved to `Stopping`. On success, the generation
/// being stopped and the termination to perform.
pub fn stop_dsh_begin<P: Clone>(state: &mut HarnessState<P>) -> (r: (Option<u64>, StopAction<P>))
    ensures
        old(state).operation_held ==> r.0 is None && r.1 == StopAction::<P>::Finish(Err(BackendError::OperationInProgress)) && *final(state) == *old(state),
        !old(state).operation_held && old(state).lifecycle.process is None ==> r.0 is None
            && r.1 == StopAction::<P>::Finish(Err(BackendError::ProcessNotRunning)) && !final(state).operation_held && final(state).lifecycle == old(state).lifecycle,
        !old(state).operation_held && old(state).lifecycle.process is Some ==> r.0 == Some(
            old(state).lifecycle.generation,
        ) && final(state).operation_held && final(state).lifecycle == (HarnessLifecycle {
            phase: HarnessPhase::Stopping,
            ..old(state).lifecycle
        }),
        !old(state).operation_held && old(state).lifecycle.process is Some ==> (r.1 matches StopAction::Terminate { process, grace_ms }
            && grace_ms == STOP_GRACE_PERIOD_MS && cloned(
            old(state).lifecycle.process.unwrap(),
            process,
        )),
{
    match try_begin_operation(state) {
        Err(e) => (None, StopAction::Finish(Err(e))),
        Ok(()) => match begin_stop(&mut state.lifecycle) {
            Err(e) => {
                end_operation(state);
                (None, StopAction::Finish(Err(e)))
            },
            Ok((generation, process)) => (
                Some(generation),
                StopAction::Terminate { process, grace_ms: STOP_GRACE_PERIOD_MS },
            ),
        },
    }
}

/// The last step of `stop_dsh`: once the process tree has exited, the
/// lifecycle of that generation returns to `Stopped`. A failed termination is
/// reported as it is, and leaves the lifecycle as it was.
pub fn stop_dsh_finish<P>(
    state: &mut HarnessState<P>,
    generation: u64,
    terminated: Result<ProcessExit, PlatformError>,
) -> (r: Result<(), BackendError>)
    ensures
        !final(state).operation_held,
        match terminated {
            Ok(_) => r is Ok && final(state).lifecycle == reset_spec(
                old(state).lifecycle,
                generation,
            ),
            Err(e) => r == Err::<(), BackendError>(BackendError::Platform(e)) && final(state).lifecycle == old(state).lifecycle,
        },
{
    match terminated {
        Err(e) => {
            end_operation(state);
            Err(BackendError::Platform(e))
        },
        Ok(_) => {
            reset_if_current(&mut state.lifecycle, generation);
            end_operation(state);
            Ok(())
        },
    }
}

/// A monitor or cleanup of an older instance cannot change the state of the
/// current one: with any generation other than the current one, an observed
/// exit and a reset leave the lifecycle as it is.
pub proof fn law_stale_generation_is_ignored<P>(l: HarnessLifecycle<P>, generation: u64)
    requires
        generation != l.generation,
    ensures
        exit_spec(l, generation) == l,
        reset_spec(l, generation) == l,
{
}

/// Every start takes a generation of its own: once a stopped lifecycle begins
/// a start, the exit of the instance it had before is ignored.
pub proof fn law_new_start_outlives_old_monitor<P>(l: HarnessLifecycle<P>)
    requires
        l.phase == HarnessPhase::Stopped,
    ensures
        ({
            let started = HarnessLifecycle {
                phase: HarnessPhase::Starting,
                generation: next_generation(l.generation),
                process: l.process,
            };
            &&& started.generation != l.generation
            &&& exit_spec(started, l.generation) == started
            &&& reset_spec(started, l.generation) == started
        }),
{
}

/// A start succeeds only on a web UI that answered: no first step finishes
/// with an address, and a later step finishes with one only when the
/// readiness probe of its own instance answered, which leaves that instance
/// `Running` and the operation given back.
pub proof fn law_start_succeeds_only_when_ready<P>(
    old: HarnessState<P>,
    new: HarnessState<P>,
    run: StartRun,
    event: StartEvent<P>,
    r: (StartRun, StartAction),
)
    requires
        start_step_post(old, new, run, event, r),
        r.1 matches StartAction::Finish(Ok(_)),
    ensures
        run.stage == StartStage::ProbingReady,
        event == StartEvent::<P>::ReadyProbed(Ok(true)),
        new.lifecycle.phase == HarnessPhase::Running,
        new.lifecycle.generation == run.generation,
        new.lifecycle.process is Some,
        !new.operation_held,
{
}

/// No start ends half-way: every step that finishes a start with an error
/// returns the lifecycle of that start to `Stopped` without a process (an
/// older generation is left alone), and gives the operation back.
pub proof fn law_failed_start_returns_to_stopped<P>(
    old: HarnessState<P>,
    new: HarnessState<P>,
    run: StartRun,
    event: StartEvent<P>,
    r: (StartRun, StartAction),
)
    requires
        start_step_post(old, new, run, event, r),
        r.1 matches StartAction::Finish(Err(_)),
    ensures
        new.lifecycle == reset_spec(old.lifecycle, run.generation),
        old.lifecycle.generation == run.generation ==> new.lifecycle.phase == HarnessPhase::Stopped
            && new.lifecycle.process is None,
        !new.operation_held,
{
}

/// The first step of a start, in terms of the request and the state: port 0
/// is refused; a change under way is refused without being queued; a running
/// instance refuses a new start; a stopped lifecycle takes the operation,
/// enters `Starting` under a generation different from every exit monitor of
/// the previous one, and probes the requested port.
pub proof fn law_start_begin_refusals_and_entry<P>(
    old: HarnessState<P>,
    new: HarnessState<P>,
    port: u16,
    r: (Option<StartRun>, StartAction),
)
    requires
        start_begin_post(old, new, port, r),
    ensures
        port == 0 ==> r.1 == StartAction::Finish(Err(BackendError::InvalidPort)) && new == old,
        port != 0 && old.operation_held ==> r.1 == StartAction::Finish(
            Err(BackendError::OperationInProgress),
        ) && new == old,
        port != 0 && !old.operation_held && old.lifecycle.phase == HarnessPhase::Running ==> r.1
            == StartAction::Finish(Err(BackendError::DshAlreadyRunning)) && new.lifecycle
            == old.lifecycle && !new.operation_held,
        port != 0 && !old.operation_held && old.lifecycle.phase == HarnessPhase::Stopped ==> (
        r.0 matches Some(run) && run.port == port && run.generation == new.lifecycle.generation
            && new.lifecycle.generation != old.lifecycle.generation) && new.operation_held
            && new.lifecycle.phase == HarnessPhase::Starting && r.1 == (StartAction::ProbePort {
            port,
            timeout_ms: PROBE_IO_TIMEOUT_MS,
        }),
{
}

/// The first step of a start never finishes with an address.
pub proof fn law_start_begin_never_succeeds<P>(
    old: HarnessState<P>,
    new: HarnessState<P>,
    port: u16,
    r: (Option<StartRun>, StartAction),
)
    requires
        start_begin_post(old, new, port, r),
    ensures
        !(r.1 matches StartAction::Finish(Ok(_))),
{
}

/// The exit of the current instance, or a reset for it, always ends in
/// `Stopped` without a process, keeping the generation.
pub proof fn law_current_exit_stops<P>(l: HarnessLifecycle<P>)
    requires
        l.process is Some,
    ensures
        exit_spec(l, l.generation).phase == HarnessPhase::Stopped,
        exit_spec(l, l.generation).process is None,
        exit_spec(l, l.generation).generation == l.generation,
        reset_spec(l, l.generation) == exit_spec(l, l.generation),
{
}

/// How a chunk of `dsh` output is logged: standard error at error level,
/// standard output at info level, as `[dsh][NAME] MESSAGE`.
pub fn stream_log(name: &str, message: &str) -> (r: (crate::logs::Level, String))
    ensures
        name@ == "stderr"@ ==> r.0 == crate::logs::Level::Error,
        name@ != "stderr"@ ==> r.0 == crate::logs::Level::Info,
        r.1@ == "[dsh]["@ + name@ + "] "@ + message@,
{
    let mut s = string_of("[dsh][");
    crate::text::push_str(&mut s, name);
    crate::text::push_str(&mut s, "] ");
    crate::text::push_str(&mut s, message);
    let level = if crate::text::str_eq(name, "stderr") {
        crate::logs::Level::Error
    } else {
        crate::logs::Level::Info
    };
    (level, s)
}

} // verus!
