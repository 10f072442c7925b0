//! The harness on Unix: run directly in a process group of its own, and
//! killed group-wide, `SIGTERM` first and `SIGKILL` after a grace period.

use vstd::prelude::*;

use super::{take_active, ActiveSlot};
use crate::platform::{port_text, push_arg, strings_view, CommandLine};
use crate::platform::unix::{SIGKILL, SIGTERM};
use crate::text::{decimal, string_of};

verus! {

/// The grace period between `SIGTERM` and `SIGKILL`.
pub const TERM_GRACE_MS: u64 = 500;

/// The arguments the harness is started with.
pub open spec fn harness_args(port: u16) -> Seq<Seq<char>> {
    seq!["--profile"@, "web"@, "--host"@, "127.0.0.1"@, "--port"@, decimal(port as nat)]
}

/// A command on Unix: the program itself with its arguments (stdin closed,
/// stdout and stderr piped).
pub fn build_command(program: &str, args: &Vec<String>) -> (r: CommandLine)
    ensures
        r.program@ == program@,
        strings_view(r.args@) == strings_view(args@),
{
    let mut out: Vec<String> = Vec::new();
    let mut i: usize = 0;
    while i < args.len()
        invariant
            i <= args@.len(),
            strings_view(out@) == strings_view(args@.take(i as int)),
        decreases args@.len() - i,
    {
        assert(args@.take(i + 1) =~= args@.take(i as int).push(args@[i as int]));
        assert(strings_view(args@.take(i + 1)) =~= strings_view(args@.take(i as int)).push(
            args@[i as int]@,
        ));
        push_arg(&mut out, args[i].clone());
        i = i + 1;
    }
    assert(args@.take(args@.len() as int) =~= args@);
    CommandLine { program: string_of(program), args: out }
}

/// `dsh --profile web --host 127.0.0.1 --port PORT`.
pub fn harness_command(port: u16) -> (r: CommandLine)
    ensures
        r.program@ == "dsh"@,
        strings_view(r.args@) == harness_args(port),
{
    let mut args: Vec<String> = Vec::new();
    push_arg(&mut args, string_of("--profile"));
    push_arg(&mut args, string_of("web"));
    push_arg(&mut args, string_of("--host"));
    push_arg(&mut args, string_of("127.0.0.1"));
    push_arg(&mut args, string_of("--port"));
    push_arg(&mut args, port_text(port));
    assert(strings_view(args@) =~= harness_args(port));
    build_command("dsh", &args)
}

/// The active harness: the process group it leads.
#[derive(Clone, Copy, PartialEq, Eq, Structural)]
pub struct ActiveHarness {
    pub pgid: i32,
}

/// One step of killing a process group.
#[derive(Clone, Copy, PartialEq, Eq, Structural)]
pub enum KillStep {
    Signal { target: i32, signal: i32 },
    Sleep { ms: u64 },
}

impl ActiveHarness {
    /// The kill sequence of the group: `SIGTERM`, the grace period, `SIGKILL`.
    pub fn kill(&self) -> (r: Vec<KillStep>)
        requires
            self.pgid > i32::MIN,
        ensures
            r@ == seq![
                KillStep::Signal { target: (-self.pgid) as i32, signal: SIGTERM },
                KillStep::Sleep { ms: TERM_GRACE_MS },
                KillStep::Signal { target: (-self.pgid) as i32, signal: SIGKILL },
            ],
    {
        let mut r: Vec<KillStep> = Vec::new();
        r.push(KillStep::Signal { target: -self.pgid, signal: SIGTERM });
        r.push(KillStep::Sleep { ms: TERM_GRACE_MS });
        r.push(KillStep::Signal { target: -self.pgid, signal: SIGKILL });
        assert(r@ =~= seq![
            KillStep::Signal { target: (-self.pgid) as i32, signal: SIGTERM },
            KillStep::Sleep { ms: TERM_GRACE_MS },
            KillStep::Signal { target: (-self.pgid) as i32, signal: SIGKILL },
        ]);
        r
    }
}

/// Takes the active harness out of its slot; its group is then killed.
pub fn kill_active(slot: &mut ActiveSlot<ActiveHarness>) -> (r: Option<ActiveHarness>)
    ensures
        r == old(slot).current,
        final(slot).current is None,
{
    take_active(slot)
}

} // verus!
