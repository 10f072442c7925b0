//! The harness process in its simplest form: `cmd /C dsh ...` in a Job Object
//! on Windows, no tree management elsewhere.

use vstd::prelude::*;

use crate::os::ActiveSlot;
use crate::os::windows::{job_kill_spec, JobStep};
use crate::platform::{port_text, push_arg, strings_view, CommandLine};
use crate::text::{decimal, string_of};

verus! {

/// `cmd /C dsh --profile web --host 127.0.0.1 --port PORT`.
pub fn harness_command(port: u16) -> (r: CommandLine)
    ensures
        r.program@ == "cmd"@,
        strings_view(r.args@) == seq![
            "/C"@,
            "dsh"@,
            "--profile"@,
            "web"@,
            "--host"@,
            "127.0.0.1"@,
            "--port"@,
            decimal(port as nat),
        ],
{
    let mut args: Vec<String> = Vec::new();
    push_arg(&mut args, string_of("/C"));
    push_arg(&mut args, string_of("dsh"));
    push_arg(&mut args, string_of("--profile"));
    push_arg(&mut args, string_of("web"));
    push_arg(&mut args, string_of("--host"));
    push_arg(&mut args, string_of("127.0.0.1"));
    push_arg(&mut args, string_of("--port"));
    push_arg(&mut args, port_text(port));
    assert(strings_view(args@) =~= seq![
        "/C"@,
        "dsh"@,
        "--profile"@,
        "web"@,
        "--host"@,
        "127.0.0.1"@,
        "--port"@,
        decimal(port as nat),
    ]);
    CommandLine { program: string_of("cmd"), args }
}

/// Takes the active job out of its slot, with the steps that end it
/// (terminate with exit code 1, close the handle): none when no job was active.
pub fn kill_active<J>(slot: &mut ActiveSlot<J>) -> (r: (Option<J>, Vec<JobStep>))
    ensures
        r.0 == old(slot).current,
        final(slot).current is None,
        r.0 is Some ==> r.1@ == job_kill_spec(),
        r.0 is None ==> r.1@.len() == 0,
{
    crate::os::windows::kill_active(slot)
}

} // verus!
