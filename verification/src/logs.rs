//! Log sessions of the supervisor: the name of a session directory, the level
//! filter and line format of the logger, and which old sessions a cleanup removes.

use vstd::prelude::*;

use crate::platform::{push_arg, strings_view, IoFailure};
use crate::text::{
    decimal, decimal_string, lemma_parse_decimal, parse_u64, parse_u64_exec, push_str, string_of,
};
use crate::url_parts::opt_string_view;

verus! {

/// Seconds since the Unix epoch, or 0 for a time before it.
pub fn timestamp(secs_since_epoch: Option<u64>) -> (r: u64)
    ensures
        r == match secs_since_epoch {
            Some(s) => s,
            None => 0,
        },
{
    match secs_since_epoch {
        Some(s) => s,
        None => 0,
    }
}

/// The name of the directory of a session, under `<base>/logs/`: its creation
/// time in decimal seconds.
pub fn session_dir_name(timestamp: u64) -> (r: String)
    ensures
        r@ == decimal(timestamp as nat),
{
    decimal_string(timestamp)
}

/// Where a log session lives and how its files are opened: the directory
/// `<base>/logs/<timestamp>/` (its components under the base), the raw
/// harness output `harness.log` and the shell's own `gui.log`, both created
/// when missing and opened for appending, so that earlier lines stay.
pub struct SessionLayout {
    pub dir: Vec<String>,
    pub files: Vec<String>,
    pub create: bool,
    pub append: bool,
}

/// The layout of the session created at `timestamp`.
pub fn session_layout(timestamp: u64) -> (r: SessionLayout)
    ensures
        strings_view(r.dir@) == seq!["logs"@, decimal(timestamp as nat)],
        strings_view(r.files@) == seq!["harness.log"@, "gui.log"@],
        r.create,
        r.append,
{
    let mut dir: Vec<String> = Vec::new();
    push_arg(&mut dir, string_of("logs"));
    push_arg(&mut dir, session_dir_name(timestamp));
    let mut files: Vec<String> = Vec::new();
    push_arg(&mut files, string_of("harness.log"));
    push_arg(&mut files, string_of("gui.log"));
    assert(strings_view(dir@) =~= seq!["logs"@, decimal(timestamp as nat)]);
    assert(strings_view(files@) =~= seq!["harness.log"@, "gui.log"@]);
    SessionLayout { dir, files, create: true, append: true }
}

/// The severity of a log record, from the most to the least severe.
#[derive(Clone, Copy, PartialEq, Eq, Structural)]
pub enum Level {
    Error,
    Warn,
    Info,
    Debug,
    Trace,
}

/// The most verbose level the logger passes on.
#[derive(Clone, Copy, PartialEq, Eq, Structural)]
pub enum LevelFilter {
    Off,
    Error,
    Warn,
    Info,
    Debug,
    Trace,
}

pub open spec fn level_rank(l: Level) -> int {
    match l {
        Level::Error => 1,
        Level::Warn => 2,
        Level::Info => 3,
        Level::Debug => 4,
        Level::Trace => 5,
    }
}

pub open spec fn filter_rank(f: LevelFilter) -> int {
    match f {
        LevelFilter::Off => 0,
        LevelFilter::Error => 1,
        LevelFilter::Warn => 2,
        LevelFilter::Info => 3,
        LevelFilter::Debug => 4,
        LevelFilter::Trace => 5,
    }
}

/// The level filter the logger is set up with: `Debug` in debug builds,
/// `Info` in release builds.
pub fn init_logging(debug_build: bool) -> (r: LevelFilter)
    ensures
        debug_build ==> r == LevelFilter::Debug,
        !debug_build ==> r == LevelFilter::Info,
{
    if debug_build {
        LevelFilter::Debug
    } else {
        LevelFilter::Info
    }
}

fn level_rank_exec(l: Level) -> (r: u8)
    ensures
        r as int == level_rank(l),
{
    match l {
        Level::Error => 1,
        Level::Warn => 2,
        Level::Info => 3,
        Level::Debug => 4,
        Level::Trace => 5,
    }
}

fn filter_rank_exec(f: LevelFilter) -> (r: u8)
    ensures
        r as int == filter_rank(f),
{
    match f {
        LevelFilter::Off => 0,
        LevelFilter::Error => 1,
        LevelFilter::Warn => 2,
        LevelFilter::Info => 3,
        LevelFilter::Debug => 4,
        LevelFilter::Trace => 5,
    }
}

/// The filter follows the severity order Error > Warn > Info > Debug > Trace:
/// the ranks strictly grow from the most to the least severe level; each
/// filter admits exactly the levels at least as severe as its namesake (its
/// rank is that level's rank), and `Off` admits none.
pub proof fn law_filter_follows_severity(l: Level)
    ensures
        level_rank(Level::Error) < level_rank(Level::Warn),
        level_rank(Level::Warn) < level_rank(Level::Info),
        level_rank(Level::Info) < level_rank(Level::Debug),
        level_rank(Level::Debug) < level_rank(Level::Trace),
        filter_rank(LevelFilter::Error) == level_rank(Level::Error),
        filter_rank(LevelFilter::Warn) == level_rank(Level::Warn),
        filter_rank(LevelFilter::Info) == level_rank(Level::Info),
        filter_rank(LevelFilter::Debug) == level_rank(Level::Debug),
        filter_rank(LevelFilter::Trace) == level_rank(Level::Trace),
        filter_rank(LevelFilter::Off) < level_rank(l),
{
}

/// A record passes when it is at least as severe as the filter allows.
pub fn enabled(level: Level, max: LevelFilter) -> (r: bool)
    ensures
        r == (level_rank(level) <= filter_rank(max)),
{
    level_rank_exec(level) <= filter_rank_exec(max)
}

/// How a level is written in a log line.
pub open spec fn level_name(l: Level) -> Seq<char> {
    match l {
        Level::Error => "ERROR"@,
        Level::Warn => "WARN"@,
        Level::Info => "INFO"@,
        Level::Debug => "DEBUG"@,
        Level::Trace => "TRACE"@,
    }
}

/// A log line: `TIME [LEVEL] TARGET: MESSAGE`.
pub open spec fn log_line_spec(time: Seq<char>, level: Level, target: Seq<char>, message: Seq<char>) -> Seq<
    char,
> {
    time + " ["@ + level_name(level) + "] "@ + target + ": "@ + message
}

/// Formats a log line of the session's `gui.log`.
pub fn log_line(time: &str, level: Level, target: &str, message: &str) -> (r: String)
    ensures
        r@ == log_line_spec(time@, level, target@, message@),
{
    let mut s = string_of(time);
    push_str(&mut s, " [");
    match level {
        Level::Error => push_str(&mut s, "ERROR"),
        Level::Warn => push_str(&mut s, "WARN"),
        Level::Info => push_str(&mut s, "INFO"),
        Level::Debug => push_str(&mut s, "DEBUG"),
        Level::Trace => push_str(&mut s, "TRACE"),
    }
    push_str(&mut s, "] ");
    push_str(&mut s, target);
    push_str(&mut s, ": ");
    push_str(&mut s, message);
    assert(s@ =~= log_line_spec(time@, level, target@, message@));
    s
}

/// Registers the session the logger writes to; a later session replaces an
/// earlier one.
pub fn attach_session<S>(slot: &mut Option<S>, session: S)
    ensures
        *final(slot) == Some(session),
{
    *slot = Some(session);
}

/// An entry of the `logs` directory: whether it is a directory, and its name
/// when the name is valid UTF-8.
pub struct LogDirEntry {
    pub is_dir: bool,
    pub name: Option<String>,
}

/// The oldest creation time a session may have and stay.
pub open spec fn cutoff(now: u64, older_than_secs: u64) -> u64 {
    if now >= older_than_secs {
        (now - older_than_secs) as u64
    } else {
        0
    }
}

/// A cleanup removes exactly the directories whose name is a creation time
/// older than the cutoff; other entries, and names that do not parse, stay.
pub open spec fn is_expired(e: LogDirEntry, cut: u64) -> bool {
    &&& e.is_dir
    &&& e.name is Some
    &&& parse_u64(e.name.unwrap()@) matches Some(t) && t < cut
}

/// A session directory is removed exactly when it is older than the cutoff:
/// one named after creation time `t` goes when `t` lies before the cutoff;
/// a plain file, or an entry whose name is not valid text, stays.
pub proof fn law_session_cleanup_removes_exactly_the_old(e: LogDirEntry, t: u64, cut: u64)
    requires
        e.name matches Some(n) && n@ == decimal(t as nat),
    ensures
        e.is_dir ==> (is_expired(e, cut) <==> t < cut),
        !e.is_dir ==> !is_expired(e, cut),
{
    lemma_parse_decimal(t);
}

/// `now - older_than`, saturating at zero.
pub fn cleanup_cutoff(now: u64, older_than_secs: u64) -> (r: u64)
    ensures
        r == cutoff(now, older_than_secs),
{
    now.saturating_sub(older_than_secs)
}

/// Whether a cleanup removes this entry.
pub fn should_remove(entry: &LogDirEntry, cut: u64) -> (r: bool)
    ensures
        r == is_expired(*entry, cut),
{
    if !entry.is_dir {
        return false;
    }
    match &entry.name {
        None => false,
        Some(name) => match parse_u64_exec(name.as_str()) {
            Some(t) => t < cut,
            None => false,
        },
    }
}

/// For each entry, in order, whether the cleanup removes it.
pub fn cleanup_plan(entries: &Vec<LogDirEntry>, cut: u64) -> (r: Vec<bool>)
    ensures
        r@.len() == entries@.len(),
        forall|i: int| 0 <= i < entries@.len() ==> r@[i] == is_expired(#[trigger] entries@[i], cut),
{
    let mut r: Vec<bool> = Vec::new();
    let mut i: usize = 0;
    while i < entries.len()
        invariant
            i <= entries@.len(),
            r@.len() == i,
            forall|k: int| 0 <= k < i ==> r@[k] == is_expired(#[trigger] entries@[k], cut),
        decreases entries@.len() - i,
    {
        r.push(should_remove(&entries[i], cut));
        i = i + 1;
    }
    r
}

/// The number of removals that succeeded.
pub open spec fn removed_count(outcomes: Seq<Result<(), IoFailure>>) -> nat
    decreases outcomes.len(),
{
    if outcomes.len() == 0 {
        0
    } else {
        removed_count(outcomes.drop_last()) + if outcomes.last() is Ok {
            1nat
        } else {
            0nat
        }
    }
}

proof fn lemma_removed_count_le(outcomes: Seq<Result<(), IoFailure>>)
    ensures
        removed_count(outcomes) <= outcomes.len(),
    decreases outcomes.len(),
{
    if outcomes.len() > 0 {
        lemma_removed_count_le(outcomes.drop_last());
    }
}

/// The result of a cleanup from the outcomes of its removals, in order: the
/// first failure, if one occurred; else the number of removed sessions.
pub fn cleanup_result(outcomes: Vec<Result<(), IoFailure>>) -> (r: Result<usize, IoFailure>)
    ensures
        (forall|i: int| 0 <= i < outcomes@.len() ==> outcomes@[i] is Ok) ==> r == Ok::<
            usize,
            IoFailure,
        >(removed_count(outcomes@) as usize),
        forall|i: int|
            0 <= i < outcomes@.len() && outcomes@[i] is Err && (forall|j: int|
                0 <= j < i ==> outcomes@[j] is Ok) ==> r == Err::<usize, IoFailure>(
                outcomes@[i]->Err_0,
            ),
{
    let n = outcomes.len();
    let mut removed: usize = 0;
    let mut i: usize = 0;
    while i < n
        invariant
            i <= n,
            n == outcomes@.len(),
            removed as nat == removed_count(outcomes@.take(i as int)),
            forall|j: int| 0 <= j < i ==> outcomes@[j] is Ok,
        decreases n - i,
    {
        assert(outcomes@.take(i + 1).drop_last() =~= outcomes@.take(i as int));
        proof {
            lemma_removed_count_le(outcomes@.take(i as int));
        }
        match &outcomes[i] {
            Ok(()) => {
                removed = removed + 1;
            },
            Err(e) => {
                proof {
                    assert forall|k: int|
                        0 <= k < outcomes@.len() && outcomes@[k] is Err && (forall|j: int|
                            0 <= j < k ==> outcomes@[j] is Ok) implies k == i by {
                        if k > i {
                            assert(outcomes@[i as int] is Ok);
                        }
                    }
                }
                return Err(copy_failure(e));
            },
        }
        i = i + 1;
    }
    assert(outcomes@.take(n as int) =~= outcomes@);
    Ok(removed)
}

fn copy_failure(e: &IoFailure) -> (r: IoFailure)
    ensures
        r == *e,
{
    IoFailure { kind: e.kind, message: copy_string_exact(&e.message), raw_os_error: e.raw_os_error }
}

/// `String::clone`.
fn copy_string_exact(s: &String) -> (r: String)
    ensures
        r == *s,
{
    s.clone()
}

} // verus!
