//! Platform-independent types of the process layer, and the decisions of the
//! Unix and Windows process trees that do not need the operating system.

pub mod unix;
pub mod windows;

use vstd::prelude::*;

use crate::text::{push_decimal, push_str, decimal};

verus! {

#[verifier::external_type_specification]
#[verifier::external_body]
pub struct ExIoErrorKind(std::io::ErrorKind);

/// The business purpose of a platform process.
#[derive(Debug, Clone, Copy, PartialEq, Eq, Structural)]
pub enum ProcessKind {
    /// The `dsh` service started by the lifecycle manager.
    Dsh,
}

/// The system-level result cached once a process has exited.
#[derive(Debug, Clone, Copy, PartialEq, Eq, Structural)]
pub struct ProcessExit {
    /// The numeric exit code the system reported; `None` when there is none
    /// (for example, when a signal ended the process).
    pub exit_code: Option<i32>,
}

/// An `std::io::Error` held as plain values: its kind, its text and, where the
/// operating system produced it, its raw error number.
#[derive(Debug, PartialEq, Eq)]
pub struct IoFailure {
    pub kind: std::io::ErrorKind,
    pub message: String,
    pub raw_os_error: Option<i32>,
}

/// A failure of the platform layer while building, starting, controlling or
/// waiting for a process.
#[derive(Debug)]
pub enum PlatformError {
    BuildCommand { kind: ProcessKind, source: IoFailure },
    Spawn { kind: ProcessKind, source: IoFailure },
    Control { kind: ProcessKind, source: IoFailure },
    Wait { kind: ProcessKind, source: IoFailure },
}

/// The text of a platform error (what its `Display` writes): the stage, the
/// process kind as `Debug` prints it, and the message of the source.
pub open spec fn platform_message(e: PlatformError) -> Seq<char> {
    match e {
        PlatformError::BuildCommand { kind, source } => "构建 Dsh 命令失败: "@ + source.message@,
        PlatformError::Spawn { kind, source } => "启动 Dsh 进程失败: "@ + source.message@,
        PlatformError::Control { kind, source } => "控制 Dsh 进程树失败: "@ + source.message@,
        PlatformError::Wait { kind, source } => "等待 Dsh 进程失败: "@ + source.message@,
    }
}

impl PlatformError {
    /// The text that `Display` writes for this error.
    pub fn message(&self) -> (r: String)
        ensures
            r@ == platform_message(*self),
    {
        let mut s = String::new();
        match self {
            PlatformError::BuildCommand { source, .. } => {
                push_str(&mut s, "构建 Dsh 命令失败: ");
                push_str(&mut s, source.message.as_str());
            },
            PlatformError::Spawn { source, .. } => {
                push_str(&mut s, "启动 Dsh 进程失败: ");
                push_str(&mut s, source.message.as_str());
            },
            PlatformError::Control { source, .. } => {
                push_str(&mut s, "控制 Dsh 进程树失败: ");
                push_str(&mut s, source.message.as_str());
            },
            PlatformError::Wait { source, .. } => {
                push_str(&mut s, "等待 Dsh 进程失败: ");
                push_str(&mut s, source.message.as_str());
            },
        }
        s
    }
}

/// A wait failure that can be cached and handed to several waiters.
#[derive(Debug)]
pub struct WaitFailure {
    pub kind: std::io::ErrorKind,
    pub message: String,
}

impl WaitFailure {
    /// Keeps the kind and the text of an I/O error.
    pub fn from_io(error: IoFailure) -> (r: WaitFailure)
        ensures
            r.kind == error.kind,
            r.message@ == error.message@,
    {
        WaitFailure { kind: error.kind, message: error.message }
    }

    /// A fresh I/O error with the cached kind and text (and no OS error number).
    pub fn to_io(&self) -> (r: IoFailure)
        ensures
            r.kind == self.kind,
            r.message@ == self.message@,
            r.raw_os_error is None,
    {
        IoFailure { kind: self.kind, message: self.message.clone(), raw_os_error: None }
    }
}

/// The exit cache of a managed process: empty while the process runs, then
/// the reaper's result.
pub type ExitCache = Option<Result<ProcessExit, WaitFailure>>;

/// What `try_wait` reports for a cache (and whether its lock was poisoned).
pub open spec fn spec_try_wait(
    cache: ExitCache,
    poisoned: bool,
) -> Result<Option<ProcessExit>, Seq<char>> {
    if poisoned {
        Err("进程退出状态锁已损坏"@)
    } else {
        match cache {
            None => Ok(None),
            Some(Ok(exit)) => Ok(Some(exit)),
            Some(Err(failure)) => Err(failure.message@),
        }
    }
}

/// Reads the cached exit without consuming it: `Ok(None)` while the process
/// runs, the cached exit once it has exited, and a `Wait` error carrying the
/// cached failure (or the poisoned lock).
pub fn try_wait(cache: &ExitCache, poisoned: bool, kind: ProcessKind) -> (r: Result<
    Option<ProcessExit>,
    PlatformError,
>)
    ensures
        match (r, spec_try_wait(*cache, poisoned)) {
            (Ok(a), Ok(b)) => a == b,
            (Err(PlatformError::Wait { kind: k, source }), Err(m)) => k == kind && source.message@
                == m,
            _ => false,
        },
{
    if poisoned {
        return Err(
            PlatformError::Wait {
                kind,
                source: IoFailure {
                    kind: other_kind(),
                    message: crate::text::string_of("进程退出状态锁已损坏"),
                    raw_os_error: None,
                },
            },
        );
    }
    match cache {
        None => Ok(None),
        Some(Ok(exit)) => Ok(Some(*exit)),
        Some(Err(failure)) => Err(PlatformError::Wait { kind, source: failure.to_io() }),
    }
}

/// The cache after the reaper offers a result: the first result is kept,
/// and any later one is ignored.
pub open spec fn stored(cache: ExitCache, result: Result<ProcessExit, WaitFailure>) -> ExitCache {
    if cache is None {
        Some(result)
    } else {
        cache
    }
}

/// Records the reaper's result in the exit cache, unless one is there already.
pub fn store_exit(cache: &mut ExitCache, result: Result<ProcessExit, WaitFailure>)
    ensures
        *final(cache) == stored(*old(cache), result),
{
    if cache.is_none() {
        *cache = Some(result);
    }
}

/// The exit of a process is written once and then shared: whatever is offered
/// later leaves the cache as it is, so every reader, whichever clone of the
/// handle it holds and whenever it reads, gets the same exit, and reading
/// does not consume it.
pub proof fn law_exit_is_written_once(
    cache: ExitCache,
    first: Result<ProcessExit, WaitFailure>,
    later: Result<ProcessExit, WaitFailure>,
)
    ensures
        stored(stored(cache, first), later) == stored(cache, first),
        cache is None ==> stored(cache, first) == Some(first),
        cache is None ==> (first matches Ok(e) ==> spec_try_wait(stored(cache, first), false)
            == Ok::<Option<ProcessExit>, Seq<char>>(Some(e))),
{
}

/// The cache after a series of results was offered to it, in order.
pub open spec fn stored_all(cache: ExitCache, offers: Seq<Result<ProcessExit, WaitFailure>>) -> ExitCache
    decreases offers.len(),
{
    if offers.len() == 0 {
        cache
    } else {
        stored(stored_all(cache, offers.drop_last()), offers.last())
    }
}

/// Every waiter gets the one exit: once the reaper stored an exit, whatever
/// is offered afterwards, every read of the cache (by any clone of the handle,
/// concurrent or later, and any wait that polls it) gives that same exit.
pub proof fn law_every_reader_gets_the_one_exit(
    exit: ProcessExit,
    offers: Seq<Result<ProcessExit, WaitFailure>>,
)
    ensures
        stored_all(Some(Ok(exit)), offers) == Some(Ok::<ProcessExit, WaitFailure>(exit)),
        spec_try_wait(stored_all(Some(Ok(exit)), offers), false) == Ok::<
            Option<ProcessExit>,
            Seq<char>,
        >(Some(exit)),
    decreases offers.len(),
{
    if offers.len() > 0 {
        law_every_reader_gets_the_one_exit(exit, offers.drop_last());
    }
}

/// `std::io::ErrorKind::Other`, the kind of `io::Error::other`.
#[verifier::external_body]
fn other_kind() -> std::io::ErrorKind {
    std::io::ErrorKind::Other
}

/// A failure the library itself reports, in the manner of `io::Error::other`.
pub fn other_failure(message: &str) -> (r: IoFailure)
    ensures
        r.message@ == message@,
        r.raw_os_error is None,
{
    IoFailure { kind: other_kind(), message: crate::text::string_of(message), raw_os_error: None }
}

/// A program and its arguments, as they are handed to `Command`.
pub struct CommandLine {
    pub program: String,
    pub args: Vec<String>,
}

/// Every string of `v` taken as a character sequence.
pub open spec fn strings_view(v: Seq<String>) -> Seq<Seq<char>> {
    v.map_values(|s: String| s@)
}

/// Appends one argument.
pub fn push_arg(args: &mut Vec<String>, a: String)
    ensures
        strings_view(final(args)@) == strings_view(old(args)@).push(a@),
{
    args.push(a);
    assert(strings_view(args@) =~= strings_view(old(args)@).push(a@));
}

/// Where a `terminate_tree` call stands.
pub enum TerminateStage {
    /// The cache is read before the termination lock is taken.
    CheckBeforeLock,
    /// The termination lock is being taken.
    Locking,
    /// The cache is read again under the lock.
    CheckUnderLock,
    /// `SIGTERM` is being sent to the group.
    Terminating,
    /// The exit is awaited for at most the grace period.
    Grace,
    /// The grace period ran out; the cache is read once more.
    CheckAfterGrace,
    /// `SIGKILL` is being sent to the group.
    Killing,
    /// The exit is awaited without limit.
    Final,
    /// The call has returned.
    Done,
}

/// What the caller of the termination sequence observed.
pub enum TerminateEvent {
    /// The start of the call.
    Start,
    /// The result of reading the exit cache.
    Cache(Result<Option<ProcessExit>, PlatformError>),
    /// The termination lock is held.
    Locked,
    /// The result of sending a signal.
    Signaled(Result<(), PlatformError>),
    /// The result of waiting: `None` when the grace period ran out.
    Waited(Option<Result<ProcessExit, PlatformError>>),
}

/// What the caller must do next.
pub enum TerminateAction {
    ReadCache,
    Lock,
    Signal { target: i32, signal: i32 },
    WaitWithin { grace_ms: u64 },
    /// Terminate every process of the job with this exit code.
    TerminateJob { exit_code: u32 },
    WaitForever,
    Return(Result<ProcessExit, PlatformError>),
    /// An event that cannot occur in this stage; the call returns unchanged.
    Ignore,
}

/// The decimal text of a port, as `u16::to_string` writes it.
pub fn port_text(port: u16) -> (r: String)
    ensures
        r@ == decimal(port as nat),
{
    let mut s = String::new();
    push_decimal(&mut s, port as u64);
    assert(s@ =~= decimal(port as nat));
    s
}

} // verus!
