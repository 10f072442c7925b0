//! The harness on Windows: wrapped in `cmd /C` with no console window, its
//! process tree held by a Job Object that a kill terminates.

use vstd::prelude::*;

use super::{take_active, ActiveSlot};
use crate::platform::{port_text, push_arg, strings_view, CommandLine};
use crate::platform::windows::JOB_TERMINATION_EXIT_CODE;
use crate::text::{decimal, string_of};

verus! {

/// A command on Windows: `cmd /C PROGRAM ARGS...` (no console window, stdin
/// closed, stdout and stderr piped).
pub fn build_command(program: &str, args: &Vec<String>) -> (r: CommandLine)
    ensures
        r.program@ == "cmd"@,
        strings_view(r.args@) == seq!["/C"@, program@] + strings_view(args@),
{
    let mut out: Vec<String> = Vec::new();
    push_arg(&mut out, string_of("/C"));
    push_arg(&mut out, string_of(program));
    let mut i: usize = 0;
    while i < args.len()
        invariant
            i <= args@.len(),
            strings_view(out@) == seq!["/C"@, program@] + strings_view(args@.take(i as int)),
        decreases args@.len() - i,
    {
        assert(args@.take(i + 1) =~= args@.take(i as int).push(args@[i as int]));
        assert(strings_view(args@.take(i + 1)) =~= strings_view(args@.take(i as int)).push(
            args@[i as int]@,
        ));
        push_arg(&mut out, args[i].clone());
        i = i + 1;
        assert(strings_view(out@) =~= seq!["/C"@, program@] + strings_view(args@.take(i as int)));
    }
    assert(args@.take(args@.len() as int) =~= args@);
    CommandLine { program: string_of("cmd"), args: out }
}

/// `cmd /C dsh --profile web --host 127.0.0.1 --port PORT`.
pub fn harness_command(port: u16) -> (r: CommandLine)
    ensures
        r.program@ == "cmd"@,
        strings_view(r.args@) == seq!["/C"@, "dsh"@] + super::unix::harness_args(port),
{
    let mut args: Vec<String> = Vec::new();
    push_arg(&mut args, string_of("--profile"));
    push_arg(&mut args, string_of("web"));
    push_arg(&mut args, string_of("--host"));
    push_arg(&mut args, string_of("127.0.0.1"));
    push_arg(&mut args, string_of("--port"));
    push_arg(&mut args, port_text(port));
    assert(strings_view(args@) =~= super::unix::harness_args(port));
    build_command("dsh", &args)
}

/// One step of ending a job.
#[derive(Clone, Copy, PartialEq, Eq, Structural)]
pub enum JobStep {
    /// `TerminateJobObject` with this exit code for every process of the job.
    Terminate { exit_code: u32 },
    /// `CloseHandle` on the job.
    CloseHandle,
}

/// How a job is ended: every process of its tree is terminated with exit
/// code 1, then its handle is closed.
pub open spec fn job_kill_spec() -> Seq<JobStep> {
    seq![JobStep::Terminate { exit_code: JOB_TERMINATION_EXIT_CODE }, JobStep::CloseHandle]
}

/// The steps that end a job.
pub fn job_kill_steps() -> (r: Vec<JobStep>)
    ensures
        r@ == job_kill_spec(),
{
    let mut r: Vec<JobStep> = Vec::new();
    r.push(JobStep::Terminate { exit_code: JOB_TERMINATION_EXIT_CODE });
    r.push(JobStep::CloseHandle);
    assert(r@ =~= job_kill_spec());
    r
}

/// Takes the active job out of its slot, with the steps that end it: none
/// when no job was active.
pub fn kill_active<J>(slot: &mut ActiveSlot<J>) -> (r: (Option<J>, Vec<JobStep>))
    ensures
        r.0 == old(slot).current,
        final(slot).current is None,
        r.0 is Some ==> r.1@ == job_kill_spec(),
        r.0 is None ==> r.1@.len() == 0,
{
    let job = take_active(slot);
    match job {
        Some(j) => (Some(j), job_kill_steps()),
        None => (None, Vec::new()),
    }
}

} // verus!
