//! Unix process trees: the `dsh` command, the checks made after a spawn, the
//! reading of `kill(2)` results and the two-signal termination sequence.

use vstd::prelude::*;

use super::{
    other_failure, port_text, push_arg, strings_view, CommandLine, IoFailure, PlatformError,
    ProcessExit, ProcessKind, TerminateAction, TerminateEvent, TerminateStage, WaitFailure,
    law_every_reader_gets_the_one_exit, spec_try_wait, stored_all,
};
use crate::text::{decimal, string_of};

verus! {

/// `ESRCH`: the target process group no longer exists.
pub const ESRCH: i32 = 3;

/// `SIGTERM`.
pub const SIGTERM: i32 = 15;

/// `SIGKILL`.
pub const SIGKILL: i32 = 9;

/// The arguments `dsh` is started with on Unix.
pub open spec fn dsh_args(port: u16) -> Seq<Seq<char>> {
    seq!["--profile"@, "web"@, "--port"@, decimal(port as nat)]
}

/// `dsh --profile web --port PORT`, run directly.
pub fn spawn_dsh_command(program: &str, port: u16) -> (r: CommandLine)
    ensures
        r.program@ == program@,
        strings_view(r.args@) == dsh_args(port),
{
    let mut args: Vec<String> = Vec::new();
    push_arg(&mut args, string_of("--profile"));
    push_arg(&mut args, string_of("web"));
    push_arg(&mut args, string_of("--port"));
    push_arg(&mut args, port_text(port));
    assert(strings_view(args@) =~= dsh_args(port));
    CommandLine { program: string_of(program), args }
}

/// The message of the check that failed after a spawn, in the order the checks
/// are made: a PID, a PID that fits `pid_t`, a stdout pipe, a stderr pipe.
pub open spec fn spawn_check_failure(pid: Option<u32>, has_stdout: bool, has_stderr: bool) -> Option<
    Seq<char>,
> {
    if pid is None {
        Some("子进程没有可用 PID"@)
    } else if pid.unwrap() > i32::MAX {
        Some("子进程 PID 超出平台范围"@)
    } else if !has_stdout {
        Some("子进程 stdout 管道不可用"@)
    } else if !has_stderr {
        Some("子进程 stderr 管道不可用"@)
    } else {
        None
    }
}

/// Checks a freshly spawned child. On success the PID, which is also the
/// process group id; else the failure that makes the spawn roll back.
pub fn check_spawned_child(pid: Option<u32>, has_stdout: bool, has_stderr: bool) -> (r: Result<
    i32,
    IoFailure,
>)
    ensures
        match spawn_check_failure(pid, has_stdout, has_stderr) {
            None => r matches Ok(p) && p as int == pid.unwrap() as int,
            Some(m) => r matches Err(e) && e.message@ == m,
        },
{
    match pid {
        None => Err(other_failure("子进程没有可用 PID")),
        Some(p) => {
            if p > 0x7fff_ffff {
                return Err(other_failure("子进程 PID 超出平台范围"));
            }
            if !has_stdout {
                return Err(other_failure("子进程 stdout 管道不可用"));
            }
            if !has_stderr {
                return Err(other_failure("子进程 stderr 管道不可用"));
            }
            Ok(p as i32)
        },
    }
}

/// The spawn error after a rollback: the failed check when the child could
/// be killed, else the failure of the kill.
pub fn rollback_spawn(kill: Result<(), IoFailure>, kind: ProcessKind, source: IoFailure) -> (r:
    PlatformError)
    ensures
        r matches PlatformError::Spawn { kind: k, source: s } && k == kind && (match kill {
            Ok(()) => s == source,
            Err(e) => s == e,
        }),
{
    match kill {
        Ok(()) => PlatformError::Spawn { kind, source },
        Err(e) => PlatformError::Spawn { kind, source: e },
    }
}

/// The `kill(2)` target that names a whole process group.
pub fn process_group_target(pgid: i32) -> (r: i32)
    requires
        pgid > 0,
    ensures
        r == -pgid,
{
    -pgid
}

/// Reads the result of `kill(2)`: success, or a group that is already gone, is
/// no failure; any other error is a `Control` failure.
pub fn map_signal_result(result: i32, last_error: IoFailure, kind: ProcessKind) -> (r: Result<
    (),
    PlatformError,
>)
    ensures
        (result == 0 || last_error.raw_os_error == Some(ESRCH)) <==> r is Ok,
        r matches Err(PlatformError::Control { kind: k, source }) ==> k == kind && source
            == last_error,
        r is Err ==> r matches Err(PlatformError::Control { .. }),
{
    if result == 0 {
        return Ok(());
    }
    match last_error.raw_os_error {
        Some(code) => {
            if code == ESRCH {
                return Ok(());
            }
        },
        None => {},
    }
    Err(PlatformError::Control { kind, source: last_error })
}

/// What one step of the termination sequence does, from the stage and the
/// event to the next stage and action `r`.
pub open spec fn unix_terminate_post(stage: TerminateStage, event: TerminateEvent, pgid: i32, grace_ms: u64, r: (TerminateStage, TerminateAction)) -> bool {
        match (stage, event) {
            (TerminateStage::CheckBeforeLock, TerminateEvent::Start) => r.0
                is CheckBeforeLock && r.1 is ReadCache,
            (TerminateStage::CheckBeforeLock, TerminateEvent::Cache(c)) => match c {
                Ok(None) => r.0 is Locking && r.1 is Lock,
                Ok(Some(exit)) => r.0 is Done && r.1 == TerminateAction::Return(Ok(exit)),
                Err(e) => r.0 is Done && r.1 == TerminateAction::Return(Err(e)),
            },
            (TerminateStage::Locking, TerminateEvent::Locked) => r.0 is CheckUnderLock && r.1
                is ReadCache,
            (TerminateStage::CheckUnderLock, TerminateEvent::Cache(c)) => match c {
                Ok(None) => r.0 is Terminating && r.1 == TerminateAction::Signal {
                    target: (-pgid) as i32,
                    signal: SIGTERM,
                },
                Ok(Some(exit)) => r.0 is Done && r.1 == TerminateAction::Return(Ok(exit)),
                Err(e) => r.0 is Done && r.1 == TerminateAction::Return(Err(e)),
            },
            (TerminateStage::Terminating, TerminateEvent::Signaled(s)) => match s {
                Ok(()) => r.0 is Grace && r.1 == TerminateAction::WaitWithin { grace_ms },
                Err(e) => r.0 is Done && r.1 == TerminateAction::Return(Err(e)),
            },
            (TerminateStage::Grace, TerminateEvent::Waited(w)) => match w {
                Some(result) => r.0 is Done && r.1 == TerminateAction::Return(result),
                None => r.0 is CheckAfterGrace && r.1 is ReadCache,
            },
            (TerminateStage::CheckAfterGrace, TerminateEvent::Cache(c)) => match c {
                Ok(None) => r.0 is Killing && r.1 == TerminateAction::Signal {
                    target: (-pgid) as i32,
                    signal: SIGKILL,
                },
                Ok(Some(_)) => r.0 is Final && r.1 is WaitForever,
                Err(e) => r.0 is Done && r.1 == TerminateAction::Return(Err(e)),
            },
            (TerminateStage::Killing, TerminateEvent::Signaled(s)) => match s {
                Ok(()) => r.0 is Final && r.1 is WaitForever,
                Err(e) => r.0 is Done && r.1 == TerminateAction::Return(Err(e)),
            },
            (TerminateStage::Final, TerminateEvent::Waited(Some(result))) => r.0 is Done && r.1
                == TerminateAction::Return(result),
            _ => r.0 == stage && r.1 is Ignore,
        }
}

/// One step of `terminate_tree` on a process group: return a cached exit if
/// there is one (before and under the lock), else `SIGTERM` the group, wait
/// for the grace period, `SIGKILL` the group if it still runs, and wait for
/// the reaper's result.
pub fn terminate_step(stage: TerminateStage, event: TerminateEvent, pgid: i32, grace_ms: u64) -> (r: (
    TerminateStage,
    TerminateAction,
))
    requires
        pgid > 0,
    ensures
        unix_terminate_post(stage, event, pgid, grace_ms, r),
{
    match (stage, event) {
        (TerminateStage::CheckBeforeLock, TerminateEvent::Start) => (
            TerminateStage::CheckBeforeLock,
            TerminateAction::ReadCache,
        ),
        (TerminateStage::CheckBeforeLock, TerminateEvent::Cache(c)) => match c {
            Ok(None) => (TerminateStage::Locking, TerminateAction::Lock),
            Ok(Some(exit)) => (TerminateStage::Done, TerminateAction::Return(Ok(exit))),
            Err(e) => (TerminateStage::Done, TerminateAction::Return(Err(e))),
        },
        (TerminateStage::Locking, TerminateEvent::Locked) => (
            TerminateStage::CheckUnderLock,
            TerminateAction::ReadCache,
        ),
        (TerminateStage::CheckUnderLock, TerminateEvent::Cache(c)) => match c {
            Ok(None) => (
                TerminateStage::Terminating,
                TerminateAction::Signal { target: process_group_target(pgid), signal: SIGTERM },
            ),
            Ok(Some(exit)) => (TerminateStage::Done, TerminateAction::Return(Ok(exit))),
            Err(e) => (TerminateStage::Done, TerminateAction::Return(Err(e))),
        },
        (TerminateStage::Terminating, TerminateEvent::Signaled(s)) => match s {
            Ok(()) => (TerminateStage::Grace, TerminateAction::WaitWithin { grace_ms }),
            Err(e) => (TerminateStage::Done, TerminateAction::Return(Err(e))),
        },
        (TerminateStage::Grace, TerminateEvent::Waited(w)) => match w {
            Some(result) => (TerminateStage::Done, TerminateAction::Return(result)),
            None => (TerminateStage::CheckAfterGrace, TerminateAction::ReadCache),
        },
        (TerminateStage::CheckAfterGrace, TerminateEvent::Cache(c)) => match c {
            Ok(None) => (
                TerminateStage::Killing,
                TerminateAction::Signal { target: process_group_target(pgid), signal: SIGKILL },
            ),
            Ok(Some(_)) => (TerminateStage::Final, TerminateAction::WaitForever),
            Err(e) => (TerminateStage::Done, TerminateAction::Return(Err(e))),
        },
        (TerminateStage::Killing, TerminateEvent::Signaled(s)) => match s {
            Ok(()) => (TerminateStage::Final, TerminateAction::WaitForever),
            Err(e) => (TerminateStage::Done, TerminateAction::Return(Err(e))),
        },
        (TerminateStage::Final, TerminateEvent::Waited(Some(result))) => (
            TerminateStage::Done,
            TerminateAction::Return(result),
        ),
        (stage, _) => (stage, TerminateAction::Ignore),
    }
}

/// A termination never signals a process whose exit is cached: when the
/// cache read before or under the termination lock holds an exit, the call
/// returns that exit. Since the lock is taken before signalling, and the
/// reaper's exit is written once, a second termination that got the lock
/// after the first one ended returns the same exit without a signal.
pub proof fn law_cached_exit_ends_termination(
    stage: TerminateStage,
    exit: ProcessExit,
    pgid: i32,
    grace_ms: u64,
    r: (TerminateStage, TerminateAction),
)
    requires
        stage is CheckBeforeLock || stage is CheckUnderLock || stage is CheckAfterGrace,
        unix_terminate_post(stage, TerminateEvent::Cache(Ok(Some(exit))), pgid, grace_ms, r),
    ensures
        !(r.1 is Signal),
        stage is CheckBeforeLock || stage is CheckUnderLock ==> r.0 is Done && r.1
            == TerminateAction::Return(Ok(exit)),
        stage is CheckAfterGrace ==> r.0 is Final && r.1 is WaitForever,
{
}

/// The termination sequence runs at most once per process: a termination
/// ends only with a result read from the cache or returned by a wait, that
/// is, once the reaper stored the exit; that exit stays, whatever is offered
/// later, so a termination that takes the lock afterwards reads it under the
/// lock, returns it, and sends no signal.
pub proof fn law_termination_runs_once(
    exit: ProcessExit,
    offers: Seq<Result<ProcessExit, WaitFailure>>,
    pgid: i32,
    grace_ms: u64,
    r: (TerminateStage, TerminateAction),
)
    requires
        unix_terminate_post(
            TerminateStage::CheckUnderLock,
            TerminateEvent::Cache(Ok(Some(exit))),
            pgid,
            grace_ms,
            r,
        ),
    ensures
        spec_try_wait(stored_all(Some(Ok(exit)), offers), false) == Ok::<
            Option<ProcessExit>,
            Seq<char>,
        >(Some(exit)),
        r.0 is Done,
        r.1 == TerminateAction::Return(Ok(exit)),
        !(r.1 is Signal),
{
    law_every_reader_gets_the_one_exit(exit, offers);
}

/// Signals go to the whole process group, never to the leader alone, and
/// in order: a process still running under the lock gets `SIGTERM` first,
/// then the grace period is waited for; only a process still running after
/// it gets `SIGKILL`. A failed signal ends the call with its error.
pub proof fn law_group_gets_term_then_kill(
    stage: TerminateStage,
    event: TerminateEvent,
    pgid: i32,
    grace_ms: u64,
    r: (TerminateStage, TerminateAction),
)
    requires
        pgid > 0,
        unix_terminate_post(stage, event, pgid, grace_ms, r),
    ensures
        r.1 matches TerminateAction::Signal { target, signal } ==> target == -pgid && target < 0
            && ((signal == SIGTERM && stage is CheckUnderLock) || (signal == SIGKILL
            && stage is CheckAfterGrace)),
        stage is CheckUnderLock && event == TerminateEvent::Cache(Ok(None)) ==> r.1
            == (TerminateAction::Signal { target: (-pgid) as i32, signal: SIGTERM }),
        stage is Terminating && event == TerminateEvent::Signaled(Ok(())) ==> r.1
            == (TerminateAction::WaitWithin { grace_ms }),
        stage is CheckAfterGrace && event == TerminateEvent::Cache(Ok(None)) ==> r.1
            == (TerminateAction::Signal { target: (-pgid) as i32, signal: SIGKILL }),
        SIGTERM != SIGKILL,
{
}

} // verus!
