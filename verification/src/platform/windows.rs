//! Windows process trees: the `cmd.exe` command line of `dsh`, the choice of
//! the suspended threads to resume, the reading of `TerminateJobObject` results
//! and the termination sequence of a Job Object.

use vstd::prelude::*;

use super::{
    other_failure, port_text, push_arg, strings_view, CommandLine, IoFailure, PlatformError,
    ProcessExit, ProcessKind, TerminateAction, TerminateEvent, TerminateStage,
};
use crate::text::{decimal, push_str, string_of};

verus! {

/// `ERROR_INVALID_HANDLE`: the job is already gone.
pub const ERROR_INVALID_HANDLE: i32 = 6;

/// The exit code given to every process of a terminated job.
pub const JOB_TERMINATION_EXIT_CODE: u32 = 1;

/// The command line `cmd.exe` runs for `dsh`.
pub open spec fn dsh_command_text(program: Seq<char>, port: u16) -> Seq<char> {
    program + " --profile web --port "@ + decimal(port as nat)
}

/// `cmd.exe /D /S /C "PROGRAM --profile web --port PORT"`.
pub fn spawn_dsh_command(program: &str, port: u16) -> (r: CommandLine)
    ensures
        r.program@ == "cmd.exe"@,
        strings_view(r.args@) == seq!["/D"@, "/S"@, "/C"@, dsh_command_text(program@, port)],
{
    let mut command = string_of(program);
    push_str(&mut command, " --profile web --port ");
    let p = port_text(port);
    push_str(&mut command, p.as_str());
    let mut args: Vec<String> = Vec::new();
    push_arg(&mut args, string_of("/D"));
    push_arg(&mut args, string_of("/S"));
    push_arg(&mut args, string_of("/C"));
    push_arg(&mut args, command);
    assert(strings_view(args@) =~= seq!["/D"@, "/S"@, "/C"@, dsh_command_text(program@, port)]);
    CommandLine { program: string_of("cmd.exe"), args }
}

/// One record of a thread snapshot: the owning process and the thread.
#[derive(Clone, Copy)]
pub struct ThreadEntry {
    pub owner_process_id: u32,
    pub thread_id: u32,
}

/// The threads of the snapshot that belong to the process, in snapshot order.
pub open spec fn threads_of(entries: Seq<ThreadEntry>, process_id: u32) -> Seq<u32>
    decreases entries.len(),
{
    if entries.len() == 0 {
        Seq::empty()
    } else {
        let rest = threads_of(entries.drop_last(), process_id);
        if entries.last().owner_process_id == process_id {
            rest.push(entries.last().thread_id)
        } else {
            rest
        }
    }
}

/// The threads to resume after a suspended start: those the process owns.
pub fn threads_to_resume(entries: &Vec<ThreadEntry>, process_id: u32) -> (r: Vec<u32>)
    ensures
        r@ == threads_of(entries@, process_id),
{
    let mut r: Vec<u32> = Vec::new();
    let mut i: usize = 0;
    while i < entries.len()
        invariant
            i <= entries@.len(),
            r@ == threads_of(entries@.take(i as int), process_id),
        decreases entries@.len() - i,
    {
        assert(entries@.take(i + 1).drop_last() =~= entries@.take(i as int));
        let e = entries[i];
        if e.owner_process_id == process_id {
            r.push(e.thread_id);
        }
        i = i + 1;
    }
    assert(entries@.take(entries@.len() as int) =~= entries@);
    r
}

/// The end of the resume pass: at least one thread must have been resumed.
pub fn resume_outcome(resumed: bool, kind: ProcessKind) -> (r: Result<(), PlatformError>)
    ensures
        resumed <==> r is Ok,
        r matches Err(PlatformError::Control { kind: k, source }) ==> k == kind
            && source.message@ == "未找到挂起的初始线程"@,
        r is Err ==> r matches Err(PlatformError::Control { .. }),
{
    if resumed {
        Ok(())
    } else {
        Err(PlatformError::Control { kind, source: other_failure("未找到挂起的初始线程") })
    }
}

/// Reads the result of `TerminateJobObject`: success, or a job whose handle is
/// already invalid, is no failure.
pub fn terminate_job_result(succeeded: bool, last_error: IoFailure, kind: ProcessKind) -> (r: Result<
    (),
    PlatformError,
>)
    ensures
        (succeeded || last_error.raw_os_error == Some(ERROR_INVALID_HANDLE)) <==> r is Ok,
        r matches Err(PlatformError::Control { kind: k, source }) ==> k == kind && source
            == last_error,
        r is Err ==> r matches Err(PlatformError::Control { .. }),
{
    if succeeded {
        return Ok(());
    }
    match last_error.raw_os_error {
        Some(code) => {
            if code == ERROR_INVALID_HANDLE {
                return Ok(());
            }
        },
        None => {},
    }
    Err(PlatformError::Control { kind, source: last_error })
}

/// What one step of the termination sequence does, from the stage and the
/// event to the next stage and action `r`.
pub open spec fn windows_terminate_post(stage: TerminateStage, event: TerminateEvent, r: (TerminateStage, TerminateAction)) -> bool {
        match (stage, event) {
            (TerminateStage::CheckBeforeLock, TerminateEvent::Start) => r.0
                is CheckBeforeLock && r.1 is ReadCache,
            (TerminateStage::CheckBeforeLock, TerminateEvent::Cache(c)) => match c {
                Ok(None) => r.0 is Locking && r.1 is Lock,
                Ok(Some(exit)) => r.0 is Done && r.1 == TerminateAction::Return(Ok(exit)),
                Err(e) => r.0 is Done && r.1 == TerminateAction::Return(Err(e)),
            },
            (TerminateStage::Locking, TerminateEvent::Locked) => r.0 is CheckUnderLock && r.1
                is ReadCache,
            (TerminateStage::CheckUnderLock, TerminateEvent::Cache(c)) => match c {
                Ok(None) => r.0 is Terminating && r.1 == TerminateAction::TerminateJob {
                    exit_code: JOB_TERMINATION_EXIT_CODE,
                },
                Ok(Some(exit)) => r.0 is Done && r.1 == TerminateAction::Return(Ok(exit)),
                Err(e) => r.0 is Done && r.1 == TerminateAction::Return(Err(e)),
            },
            (TerminateStage::Terminating, TerminateEvent::Signaled(s)) => match s {
                Ok(()) => r.0 is Final && r.1 is WaitForever,
                Err(e) => r.0 is Done && r.1 == TerminateAction::Return(Err(e)),
            },
            (TerminateStage::Final, TerminateEvent::Waited(Some(result))) => r.0 is Done && r.1
                == TerminateAction::Return(result),
            _ => r.0 == stage && r.1 is Ignore,
        }
}

/// One step of `terminate_tree` on a Job Object: return a cached exit if there
/// is one (before and under the lock), else terminate the job and wait for the
/// reaper's result. The job is ended by its handle, so the action carries no
/// target; the grace period does not apply.
pub fn terminate_step(stage: TerminateStage, event: TerminateEvent) -> (r: (
    TerminateStage,
    TerminateAction,
))
    ensures
        windows_terminate_post(stage, event, r),
{
    match (stage, event) {
        (TerminateStage::CheckBeforeLock, TerminateEvent::Start) => (
            TerminateStage::CheckBeforeLock,
            TerminateAction::ReadCache,
        ),
        (TerminateStage::CheckBeforeLock, TerminateEvent::Cache(c)) => match c {
            Ok(None) => (TerminateStage::Locking, TerminateAction::Lock),
            Ok(Some(exit)) => (TerminateStage::Done, TerminateAction::Return(Ok(exit))),
            Err(e) => (TerminateStage::Done, TerminateAction::Return(Err(e))),
        },
        (TerminateStage::Locking, TerminateEvent::Locked) => (
            TerminateStage::CheckUnderLock,
            TerminateAction::ReadCache,
        ),
        (TerminateStage::CheckUnderLock, TerminateEvent::Cache(c)) => match c {
            Ok(None) => (
                TerminateStage::Terminating,
                TerminateAction::TerminateJob { exit_code: JOB_TERMINATION_EXIT_CODE },
            ),
            Ok(Some(exit)) => (TerminateStage::Done, TerminateAction::Return(Ok(exit))),
            Err(e) => (TerminateStage::Done, TerminateAction::Return(Err(e))),
        },
        (TerminateStage::Terminating, TerminateEvent::Signaled(s)) => match s {
            Ok(()) => (TerminateStage::Final, TerminateAction::WaitForever),
            Err(e) => (TerminateStage::Done, TerminateAction::Return(Err(e))),
        },
        (TerminateStage::Final, TerminateEvent::Waited(Some(result))) => (
            TerminateStage::Done,
            TerminateAction::Return(result),
        ),
        (stage, _) => (stage, TerminateAction::Ignore),
    }
}

/// A termination never ends a job whose exit is cached: when the cache read
/// before or under the termination lock holds an exit, the call returns it.
pub proof fn law_cached_exit_ends_termination(
    stage: TerminateStage,
    exit: ProcessExit,
    r: (TerminateStage, TerminateAction),
)
    requires
        stage is CheckBeforeLock || stage is CheckUnderLock,
        windows_terminate_post(stage, TerminateEvent::Cache(Ok(Some(exit))), r),
    ensures
        r.0 is Done,
        r.1 == TerminateAction::Return(Ok(exit)),
{
}

} // verus!
