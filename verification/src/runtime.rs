//! The supervisor: the intents of the front end, the snapshot it renders, the
//! environment and version checks, and the worker that runs `dsh` or connects
//! to a remote service, as steps from an observed event to the next actions.

use vstd::prelude::*;

use crate::platform::{push_arg, strings_view};
use crate::protocol::{Phase, Snapshot};
use crate::text::{
    decimal, is_ipv4, parse_ipv4, push_char, push_decimal, push_str, str_eq, string_of, trim,
    trim_str,
};
use crate::url_parts::opt_string_view;

verus! {

/// The time a local start may take before it is given up.
pub const START_TIMEOUT_MS: u64 = 120_000;

/// The pause between two polls of the harness.
pub const POLL_INTERVAL_MS: u64 = 500;

/// The npm registry the official install and version query use.
pub const REGISTRY_OFFICIAL: &'static str = "https://registry.npmjs.org";

/// The mirror registry.
pub const REGISTRY_MIRROR: &'static str = "https://registry.npmmirror.com";

/// The limit of a remote reachability probe.
pub const PROBE_REMOTE_TIMEOUT_MS: u64 = 10_000;

/// The limit of a local readiness probe.
pub const PROBE_LOCAL_TIMEOUT_MS: u64 = 3_000;

/// The limit of the TCP pre-check of a probe.
pub const PROBE_TCP_TIMEOUT_MS: u64 = 3_000;

/// The limit of a version query.
pub const VERSION_FETCH_TIMEOUT_MS: u64 = 10_000;

/// How old a log session may grow before the worker removes it at start-up:
/// fourteen days, in seconds.
pub const SESSION_MAX_AGE_SECS: u64 = 1_209_600;

// ---------------------------------------------------------------------------
// Copies
// ---------------------------------------------------------------------------

pub fn clone_string(s: &String) -> (r: String)
    ensures
        r@ == s@,
{
    string_of(s.as_str())
}

pub fn clone_opt_string(o: &Option<String>) -> (r: Option<String>)
    ensures
        opt_string_view(r) == opt_string_view(*o),
{
    match o {
        Some(s) => Some(clone_string(s)),
        None => None,
    }
}

/// The snapshot with its strings taken as character sequences.
pub struct SnapshotView {
    pub phase: Phase,
    pub port: Option<u16>,
    pub url: Option<Seq<char>>,
    pub detail: Seq<char>,
    pub elapsed: Option<u64>,
    pub node: Option<Seq<char>>,
    pub npm: Option<Seq<char>>,
    pub remote: Option<Seq<char>>,
    pub remote_mirror: Option<Seq<char>>,
    pub local: Option<Seq<char>>,
    pub version_error: bool,
    pub version_checked: bool,
}

impl View for Snapshot {
    type V = SnapshotView;

    open spec fn view(&self) -> SnapshotView {
        SnapshotView {
            phase: self.phase,
            port: self.port,
            url: opt_string_view(self.url),
            detail: self.detail@,
            elapsed: self.elapsed,
            node: opt_string_view(self.node),
            npm: opt_string_view(self.npm),
            remote: opt_string_view(self.remote),
            remote_mirror: opt_string_view(self.remote_mirror),
            local: opt_string_view(self.local),
            version_error: self.version_error,
            version_checked: self.version_checked,
        }
    }
}

/// A copy of a snapshot, as the front end receives it.
pub fn copy_snapshot(s: &Snapshot) -> (r: Snapshot)
    ensures
        r@ == s@,
{
    Snapshot {
        phase: s.phase,
        port: s.port,
        url: clone_opt_string(&s.url),
        detail: clone_string(&s.detail),
        elapsed: s.elapsed,
        node: clone_opt_string(&s.node),
        npm: clone_opt_string(&s.npm),
        remote: clone_opt_string(&s.remote),
        remote_mirror: clone_opt_string(&s.remote_mirror),
        local: clone_opt_string(&s.local),
        version_error: s.version_error,
        version_checked: s.version_checked,
    }
}

// ---------------------------------------------------------------------------
// Intents and the shared state
// ---------------------------------------------------------------------------

/// What the front end asks of the worker.
pub enum Intent {
    CheckEnv,
    CheckVersion,
    Install { mirror: bool },
    Start { host: String, port: u16 },
}

/// The state the worker and the checks share: the snapshot, the directory of
/// the current log session, and the rounds of the two kinds of check.
pub struct SharedRuntime {
    pub snapshot: Snapshot,
    /// The directory of the current log session, once the worker created it.
    pub session_dir: Option<String>,
    /// The round of the environment check; a result of an older round is dropped.
    pub env_gen: u64,
    /// The round of the version check; same rule.
    pub version_gen: u64,
}

/// The entry point of the front end's intents: a queue the worker drains in
/// order, and the shared state.
pub struct Supervisor {
    pub intents: Vec<Intent>,
    pub worker_started: bool,
    pub shared: SharedRuntime,
}

impl Supervisor {
    /// A supervisor with no pending intent, no worker, the default snapshot,
    /// no session and both check rounds at zero.
    pub fn new() -> (r: Supervisor)
        ensures
            r.intents@.len() == 0,
            !r.worker_started,
            r.shared.snapshot@ == Snapshot::default_spec(),
            r.shared.session_dir is None,
            r.shared.env_gen == 0,
            r.shared.version_gen == 0,
    {
        Supervisor {
            intents: Vec::new(),
            worker_started: false,
            shared: SharedRuntime {
                snapshot: Snapshot::default(),
                session_dir: None,
                env_gen: 0,
                version_gen: 0,
            },
        }
    }

    /// A copy of the current snapshot.
    pub fn snapshot(&self) -> (r: Snapshot)
        ensures
            r@ == self.shared.snapshot@,
    {
        copy_snapshot(&self.shared.snapshot)
    }

    /// The directory of the current log session; `None` before the worker
    /// created it.
    pub fn log_dir(&self) -> (r: Option<String>)
        ensures
            opt_string_view(r) == opt_string_view(self.shared.session_dir),
    {
        clone_opt_string(&self.shared.session_dir)
    }

    fn send(&mut self, intent: Intent)
        ensures
            final(self).intents@ == old(self).intents@.push(intent),
            final(self).worker_started == old(self).worker_started,
            final(self).shared == old(self).shared,
    {
        self.intents.push(intent);
    }

    /// Queues an environment check.
    pub fn check_env(&mut self)
        ensures
            final(self).intents@ == old(self).intents@.push(Intent::CheckEnv),
            final(self).worker_started == old(self).worker_started,
            final(self).shared == old(self).shared,
    {
        self.send(Intent::CheckEnv);
    }

    /// Queues a version check.
    pub fn check_version(&mut self)
        ensures
            final(self).intents@ == old(self).intents@.push(Intent::CheckVersion),
            final(self).worker_started == old(self).worker_started,
            final(self).shared == old(self).shared,
    {
        self.send(Intent::CheckVersion);
    }

    /// Queues an install from the official registry or the mirror.
    pub fn install(&mut self, mirror: bool)
        ensures
            final(self).intents@ == old(self).intents@.push(Intent::Install { mirror }),
            final(self).worker_started == old(self).worker_started,
            final(self).shared == old(self).shared,
    {
        self.send(Intent::Install { mirror });
    }

    /// Queues a start on a host and a port.
    pub fn start(&mut self, host: String, port: u16)
        ensures
            final(self).intents@ == old(self).intents@.push(Intent::Start { host, port }),
            final(self).worker_started == old(self).worker_started,
            final(self).shared == old(self).shared,
    {
        self.send(Intent::Start { host, port });
    }

    /// Marks the single worker as started; a second worker is a programming
    /// error.
    pub fn spawn_worker(&mut self)
        requires
            !old(self).worker_started,
        ensures
            final(self).worker_started,
            final(self).intents == old(self).intents,
            final(self).shared == old(self).shared,
    {
        self.worker_started = true;
    }

    /// The oldest pending intent, removed from the queue.
    pub fn next_intent(&mut self) -> (r: Option<Intent>)
        ensures
            old(self).intents@.len() == 0 ==> r is None && final(self).intents@ == old(self).intents@,
            old(self).intents@.len() > 0 ==> r == Some(old(self).intents@[0]) && final(self).intents@ == old(self).intents@.drop_first(),
            final(self).worker_started == old(self).worker_started,
            final(self).shared == old(self).shared,
    {
        if self.intents.len() == 0 {
            None
        } else {
            let i = self.intents.remove(0);
            assert(self.intents@ =~= old(self).intents@.drop_first());
            Some(i)
        }
    }
}

impl Snapshot {
    /// The default snapshot.
    pub open spec fn default_spec() -> SnapshotView {
        SnapshotView {
            phase: Phase::Idle,
            port: None,
            url: None,
            detail: Seq::empty(),
            elapsed: None,
            node: None,
            npm: None,
            remote: None,
            remote_mirror: None,
            local: None,
            version_error: false,
            version_checked: false,
        }
    }
}

// ---------------------------------------------------------------------------
// State updates
// ---------------------------------------------------------------------------

/// A change of the runtime state: the phase decides the screen, the rest
/// comes with it.
pub struct StateUpdate {
    pub phase: Phase,
    pub port: Option<u16>,
    pub url: Option<String>,
    pub detail: String,
    pub elapsed: Option<u64>,
}

impl StateUpdate {
    /// An update with only a phase and a detail.
    pub fn new(phase: Phase, detail: String) -> (r: StateUpdate)
        ensures
            r.phase == phase,
            r.port is None,
            r.url is None,
            r.detail == detail,
            r.elapsed is None,
    {
        StateUpdate { phase, port: None, url: None, detail, elapsed: None }
    }
}

/// The snapshot after an update: the five fields of the update replaced, the
/// panels kept.
pub open spec fn updated(
    s: SnapshotView,
    phase: Phase,
    port: Option<u16>,
    url: Option<Seq<char>>,
    detail: Seq<char>,
    elapsed: Option<u64>,
) -> SnapshotView {
    SnapshotView { phase, port, url, detail, elapsed, ..s }
}

/// Applies an update to the snapshot (the front end is then sent a copy).
pub fn emit_state(snapshot: &mut Snapshot, update: StateUpdate)
    ensures
        final(snapshot)@ == updated(
            old(snapshot)@,
            update.phase,
            update.port,
            opt_string_view(update.url),
            update.detail@,
            update.elapsed,
        ),
{
    snapshot.phase = update.phase;
    snapshot.port = update.port;
    snapshot.url = update.url;
    snapshot.detail = update.detail;
    snapshot.elapsed = update.elapsed;
}

/// The failure state: `Failed`, the port, the detail, no address, no elapsed time.
pub fn emit_fail(snapshot: &mut Snapshot, port: Option<u16>, detail: String)
    ensures
        final(snapshot)@ == updated(old(snapshot)@, Phase::Failed, port, None, detail@, None),
{
    emit_state(snapshot, StateUpdate { port, ..StateUpdate::new(Phase::Failed, detail) });
}

// ---------------------------------------------------------------------------
// Check rounds
// ---------------------------------------------------------------------------

/// `wrapping_add(1)` on a round.
pub open spec fn next_round(g: u64) -> u64 {
    if g == u64::MAX {
        0
    } else {
        (g + 1) as u64
    }
}

/// Starts a new round of the environment check: the node and npm panels are
/// cleared, and the round of the results to accept is returned.
pub fn begin_env_check(shared: &mut SharedRuntime) -> (r: u64)
    ensures
        r == next_round(old(shared).env_gen),
        final(shared).env_gen == r,
        final(shared).snapshot@ == (SnapshotView {
            node: None,
            npm: None,
            ..old(shared).snapshot@
        }),
        final(shared).version_gen == old(shared).version_gen,
        final(shared).session_dir == old(shared).session_dir,
{
    shared.env_gen = shared.env_gen.wrapping_add(1);
    shared.snapshot.node = None;
    shared.snapshot.npm = None;
    shared.env_gen
}

/// The tool an environment check asks for its version.
#[derive(Clone, Copy, PartialEq, Eq, Structural)]
pub enum EnvTool {
    Node,
    Npm,
}

/// The environment panel after a result of the current round.
pub open spec fn env_applied(s: SnapshotView, tool: EnvTool, version: Option<Seq<char>>) -> SnapshotView {
    match tool {
        EnvTool::Node => SnapshotView { node: version, ..s },
        EnvTool::Npm => SnapshotView { npm: version, ..s },
    }
}

/// Each tool's version lands in its own field: `node -v` in `node`, `npm -v`
/// in `npm`; no other field of the snapshot changes, and the two results of a
/// round may arrive in either order.
pub proof fn law_env_result_lands_in_its_own_field(
    s: SnapshotView,
    tool: EnvTool,
    v: Option<Seq<char>>,
    w: Option<Seq<char>>,
)
    ensures
        ({
            let n = env_applied(s, tool, v);
            &&& n.phase == s.phase && n.port == s.port && n.url == s.url && n.detail == s.detail
                && n.elapsed == s.elapsed && n.remote == s.remote && n.remote_mirror
                == s.remote_mirror && n.local == s.local && n.version_error == s.version_error
                && n.version_checked == s.version_checked
            &&& tool == EnvTool::Node ==> n.node == v && n.npm == s.npm
            &&& tool == EnvTool::Npm ==> n.npm == v && n.node == s.node
        }),
        env_applied(env_applied(s, EnvTool::Node, v), EnvTool::Npm, w) == env_applied(
            env_applied(s, EnvTool::Npm, w),
            EnvTool::Node,
            v,
        ),
{
}

/// Records the result of an environment check, unless a newer round began
/// meanwhile.
pub fn apply_env_result(shared: &mut SharedRuntime, round: u64, tool: EnvTool, version: Option<String>)
    ensures
        final(shared).env_gen == old(shared).env_gen,
        final(shared).version_gen == old(shared).version_gen,
        final(shared).session_dir == old(shared).session_dir,
        round != old(shared).env_gen ==> final(shared).snapshot == old(shared).snapshot,
        round == old(shared).env_gen ==> final(shared).snapshot@ == env_applied(
            old(shared).snapshot@,
            tool,
            opt_string_view(version),
        ),
{
    if shared.env_gen == round {
        match tool {
            EnvTool::Node => shared.snapshot.node = version,
            EnvTool::Npm => shared.snapshot.npm = version,
        }
    }
}

/// Starts a new round of the version check: the version panel is cleared and
/// marked unchecked, and the round of the results to accept is returned.
pub fn begin_version_check(shared: &mut SharedRuntime) -> (r: u64)
    ensures
        r == next_round(old(shared).version_gen),
        final(shared).version_gen == r,
        final(shared).snapshot@ == (SnapshotView {
            remote: None,
            remote_mirror: None,
            local: None,
            version_error: false,
            version_checked: false,
            ..old(shared).snapshot@
        }),
        final(shared).env_gen == old(shared).env_gen,
        final(shared).session_dir == old(shared).session_dir,
{
    shared.version_gen = shared.version_gen.wrapping_add(1);
    shared.snapshot.remote = None;
    shared.snapshot.remote_mirror = None;
    shared.snapshot.local = None;
    shared.snapshot.version_error = false;
    shared.snapshot.version_checked = false;
    shared.version_gen
}

/// The source a version check reads.
#[derive(Clone, Copy, PartialEq, Eq, Structural)]
pub enum VersionSource {
    /// The official registry; it alone decides `version_error` and
    /// `version_checked`.
    Official,
    Mirror,
    /// `dsh -V` on this machine.
    Local,
}

/// The version panel after a result of the current round.
pub open spec fn version_applied(
    s: SnapshotView,
    source: VersionSource,
    version: Option<Seq<char>>,
) -> SnapshotView {
    match source {
        VersionSource::Official => SnapshotView {
            remote: version,
            version_error: version is None,
            version_checked: true,
            ..s
        },
        VersionSource::Mirror => SnapshotView { remote_mirror: version, ..s },
        VersionSource::Local => SnapshotView { local: version, ..s },
    }
}

/// Records the result of a version check, unless a newer round began meanwhile.
pub fn apply_version_result(
    shared: &mut SharedRuntime,
    round: u64,
    source: VersionSource,
    version: Option<String>,
)
    ensures
        final(shared).env_gen == old(shared).env_gen,
        final(shared).version_gen == old(shared).version_gen,
        final(shared).session_dir == old(shared).session_dir,
        round != old(shared).version_gen ==> final(shared).snapshot == old(shared).snapshot,
        round == old(shared).version_gen ==> final(shared).snapshot@ == version_applied(
            old(shared).snapshot@,
            source,
            opt_string_view(version),
        ),
{
    if shared.version_gen == round {
        match source {
            VersionSource::Official => {
                let failed = version.is_none();
                shared.snapshot.remote = version;
                shared.snapshot.version_error = failed;
                shared.snapshot.version_checked = true;
            },
            VersionSource::Mirror => shared.snapshot.remote_mirror = version,
            VersionSource::Local => shared.snapshot.local = version,
        }
    }
}

/// A result of a superseded check round is dropped: once a new round began,
/// the round an older check was started with is no longer the current one, so
/// its result leaves the snapshot unchanged.
pub proof fn law_superseded_round_is_dropped(round: u64)
    ensures
        next_round(round) != round,
{
}

/// Each version source lands in its own field: the official registry's
/// answer in `remote`, which also decides `version_error` (no answer) and
/// marks the panel checked; the mirror's answer in `remote_mirror`; the local
/// `dsh -V` in `local`. No other field of the snapshot changes.
pub proof fn law_version_result_lands_in_its_own_field(
    s: SnapshotView,
    source: VersionSource,
    v: Option<Seq<char>>,
)
    ensures
        ({
            let n = version_applied(s, source, v);
            &&& n.phase == s.phase && n.port == s.port && n.url == s.url && n.detail == s.detail
                && n.elapsed == s.elapsed && n.node == s.node && n.npm == s.npm
            &&& source == VersionSource::Official ==> n.remote == v && n.version_error == (v is None)
                && n.version_checked && n.remote_mirror == s.remote_mirror && n.local == s.local
            &&& source == VersionSource::Mirror ==> n.remote_mirror == v && n.remote == s.remote
                && n.local == s.local && n.version_error == s.version_error && n.version_checked
                == s.version_checked
            &&& source == VersionSource::Local ==> n.local == v && n.remote == s.remote
                && n.remote_mirror == s.remote_mirror && n.version_error == s.version_error
                && n.version_checked == s.version_checked
        }),
{
}

/// The three checks of a round may answer in any order: results of two
/// different sources give the same panel whichever arrives first.
pub proof fn law_version_results_commute(
    s: SnapshotView,
    a: VersionSource,
    va: Option<Seq<char>>,
    b: VersionSource,
    vb: Option<Seq<char>>,
)
    requires
        a != b,
    ensures
        version_applied(version_applied(s, a, va), b, vb) == version_applied(
            version_applied(s, b, vb),
            a,
            va,
        ),
{
}

// ---------------------------------------------------------------------------
// Commands and their output
// ---------------------------------------------------------------------------

/// A command as the worker runs it: the text it logs, the program, the arguments.
pub struct CommandSpec {
    pub display: String,
    pub program: String,
    pub args: Vec<String>,
}

/// The registry an install uses.
pub open spec fn registry(mirror: bool) -> Seq<char> {
    if mirror {
        REGISTRY_MIRROR@
    } else {
        REGISTRY_OFFICIAL@
    }
}

/// `npm install --verbose -g @deepseek-ai/dsh --registry REGISTRY`.
pub fn install_command(mirror: bool) -> (r: CommandSpec)
    ensures
        r.program@ == "npm"@,
        r.display@ == "npm install --verbose -g @deepseek-ai/dsh --registry="@ + registry(mirror),
        strings_view(r.args@) == seq![
            "install"@,
            "--verbose"@,
            "-g"@,
            "@deepseek-ai/dsh"@,
            "--registry"@,
            registry(mirror),
        ],
{
    let reg = if mirror {
        REGISTRY_MIRROR
    } else {
        REGISTRY_OFFICIAL
    };
    let mut display = string_of("npm install --verbose -g @deepseek-ai/dsh --registry=");
    push_str(&mut display, reg);
    let mut args: Vec<String> = Vec::new();
    push_arg(&mut args, string_of("install"));
    push_arg(&mut args, string_of("--verbose"));
    push_arg(&mut args, string_of("-g"));
    push_arg(&mut args, string_of("@deepseek-ai/dsh"));
    push_arg(&mut args, string_of("--registry"));
    push_arg(&mut args, string_of(reg));
    assert(strings_view(args@) =~= seq![
        "install"@,
        "--verbose"@,
        "-g"@,
        "@deepseek-ai/dsh"@,
        "--registry"@,
        registry(mirror),
    ]);
    CommandSpec { display, program: string_of("npm"), args }
}

/// A version command of one tool: `PROGRAM FLAG`.
pub fn version_command(display: &str, program: &str, flag: &str) -> (r: CommandSpec)
    ensures
        r.display@ == display@,
        r.program@ == program@,
        strings_view(r.args@) == seq![flag@],
{
    let mut args: Vec<String> = Vec::new();
    push_arg(&mut args, string_of(flag));
    assert(strings_view(args@) =~= seq![flag@]);
    CommandSpec { display: string_of(display), program: string_of(program), args }
}

/// What a captured command yields: its trimmed standard output when it
/// succeeded, else nothing.
pub fn stream_capture(success: bool, output: &str) -> (r: Option<String>)
    ensures
        success ==> (r matches Some(s) && s@ == trim(output@)),
        !success ==> r is None,
{
    if success {
        Some(string_of(trim_str(output)))
    } else {
        None
    }
}

/// The version `dsh -V` printed: trimmed, one leading `v` dropped; nothing
/// when that leaves no text.
pub open spec fn local_version(out: Seq<char>) -> Option<Seq<char>> {
    let t = trim(out);
    let v = if t.len() > 0 && t[0] == 'v' {
        t.drop_first()
    } else {
        t
    };
    if v.len() == 0 {
        None
    } else {
        Some(v)
    }
}

/// Reads the version out of the output of `dsh -V`: `v0.1.0-rc.6` and
/// `0.1.0-rc.6` both give `0.1.0-rc.6`.
pub fn parse_local_version(out: &str) -> (r: Option<String>)
    ensures
        opt_string_view(r) == local_version(out@),
{
    let t = trim_str(out);
    let n = t.unicode_len();
    let v = if n > 0 && t.get_char(0) == 'v' {
        t.substring_char(1, n)
    } else {
        t
    };
    assert(t@.len() > 0 && t@[0] == 'v' ==> v@ =~= t@.drop_first());
    if v.unicode_len() == 0 {
        None
    } else {
        Some(string_of(v))
    }
}

/// A control character (general category `Cc`, what `char::is_control`
/// tests): U+0000 to U+001F and U+007F to U+009F.
pub open spec fn is_control_char(c: char) -> bool {
    c < ' ' || ('\u{7f}' <= c && c <= '\u{9f}')
}

/// The characters a log line keeps: newline, tab and every character that is
/// not a control character.
pub open spec fn is_kept(c: char) -> bool {
    c == '\n' || c == '\t' || !is_control_char(c)
}

/// The line without its control characters.
pub open spec fn sanitized(line: Seq<char>) -> Seq<char> {
    line.filter(|c: char| is_kept(c))
}

/// Drops the control characters of a line (keeping newlines and tabs), so
/// that the log cannot be read as terminal or HTML content.
pub fn sanitize(line: &str) -> (r: String)
    ensures
        r@ == sanitized(line@),
{
    let n = line.unicode_len();
    let mut out = String::new();
    let mut i: usize = 0;
    while i < n
        invariant
            i <= n,
            n == line@.len(),
            out@ == line@.take(i as int).filter(|c: char| is_kept(c)),
        decreases n - i,
    {
        let c = line.get_char(i);
        assert(line@.take(i + 1).drop_last() =~= line@.take(i as int));
        reveal_with_fuel(Seq::filter, 1);
        if c == '\n' || c == '\t' || !(c < ' ' || ('\u{7f}' <= c && c <= '\u{9f}')) {
            push_char(&mut out, c);
        }
        i = i + 1;
    }
    assert(line@.take(n as int) =~= line@);
    out
}

/// A sanitized line is clean: sanitizing it again changes nothing.
pub proof fn law_sanitize_idempotent(line: Seq<char>)
    ensures
        sanitized(sanitized(line)) == sanitized(line),
        forall|i: int| 0 <= i < sanitized(line).len() ==> is_kept(#[trigger] sanitized(line)[i]),
{
    broadcast use vstd::seq_lib::group_filter_ensures;
    lemma_filter_of_kept(sanitized(line));
}

/// What a log line keeps, character by character: newline and tab stay;
/// every other character below a space, DEL and the C1 controls
/// (U+0080 to U+009F) are dropped; printable ASCII and every character from
/// U+00A0 up stays.
pub proof fn law_sanitize_keeps_text_and_drops_controls(c: char)
    ensures
        c == '\n' || c == '\t' ==> is_kept(c),
        c < ' ' && c != '\n' && c != '\t' ==> !is_kept(c),
        c == '\u{7f}' ==> !is_kept(c),
        '\u{80}' <= c && c <= '\u{9f}' ==> !is_kept(c),
        ' ' <= c && c <= '~' ==> is_kept(c),
        '\u{a0}' <= c ==> is_kept(c),
{
}

proof fn lemma_filter_of_kept(s: Seq<char>)
    requires
        forall|i: int| 0 <= i < s.len() ==> is_kept(#[trigger] s[i]),
    ensures
        s.filter(|c: char| is_kept(c)) == s,
    decreases s.len(),
{
    reveal_with_fuel(Seq::filter, 1);
    if s.len() > 0 {
        let t = s.drop_last();
        assert forall|i: int| 0 <= i < t.len() implies is_kept(#[trigger] t[i]) by {
            assert(t[i] == s[i]);
        }
        lemma_filter_of_kept(t);
        assert(s.last() == s[s.len() - 1]);
        assert(s =~= t.push(s.last()));
    } else {
        assert(s.filter(|c: char| is_kept(c)) =~= s);
    }
}

// ---------------------------------------------------------------------------
// Targets
// ---------------------------------------------------------------------------

/// What `str::to_lowercase` gives: every character mapped to its Unicode lower
/// case, which can be several characters.
pub uninterp spec fn unicode_lowercase(s: Seq<char>) -> Seq<char>;

/// `str::to_lowercase`. The contract claims only that the result is a
/// function of the input, named `unicode_lowercase`.
#[verifier::external_body]
pub(crate) fn to_lowercase(s: &str) -> (r: String)
    ensures
        r@ == unicode_lowercase(s@),
{
    s.to_lowercase()
}

/// A name of this machine, as written after trimming and lower-casing:
/// `localhost`, `127.0.0.1` or `::1`.
pub open spec fn is_local_name_spec(h: Seq<char>) -> bool {
    h == "localhost"@ || h == "127.0.0.1"@ || h == "::1"@
}

/// A host that names this machine: `localhost`, `127.0.0.1` or `::1`, once
/// trimmed and lower-cased.
pub open spec fn is_local_host_spec(host: Seq<char>) -> bool {
    is_local_name_spec(unicode_lowercase(trim(host)))
}

/// Whether a trimmed, lower-cased host is a name of this machine.
pub fn is_local_name(lowered: &str) -> (r: bool)
    ensures
        r == is_local_name_spec(lowered@),
{
    str_eq(lowered, "localhost") || str_eq(lowered, "127.0.0.1") || str_eq(lowered, "::1")
}

/// Whether the host names this machine (the start then runs `dsh` locally).
pub fn is_local_host(host: &str) -> (r: bool)
    ensures
        r == is_local_host_spec(host@),
{
    let h = to_lowercase(trim_str(host));
    is_local_name(h.as_str())
}

/// Where a start goes: a local `dsh`, or a service already deployed elsewhere.
pub enum StartTarget {
    Local { port: u16 },
    Remote { host: String, port: u16 },
}

/// A local host starts `dsh` on the port; any other host is remote, kept
/// trimmed and lower-cased.
pub fn parse_target(host: &str, port: u16) -> (r: StartTarget)
    ensures
        is_local_host_spec(host@) ==> r == (StartTarget::Local { port }),
        !is_local_host_spec(host@) ==> (r matches StartTarget::Remote { host: h, port: p } && p
            == port && h@ == unicode_lowercase(trim(host@))),
{
    if is_local_host(host) {
        StartTarget::Local { port }
    } else {
        StartTarget::Remote { host: to_lowercase(trim_str(host)), port }
    }
}

// ---------------------------------------------------------------------------
// Probes and queries
// ---------------------------------------------------------------------------

/// The protocols a probe of a host tries, in order: plain HTTP for a local
/// host; HTTPS first, then HTTP, for a remote one.
pub open spec fn probe_protocols(host: Seq<char>) -> Seq<Seq<char>> {
    if is_local_host_spec(host) {
        seq!["http"@]
    } else {
        seq!["https"@, "http"@]
    }
}

/// One attempt of a probe: the protocol it reports and the URL it requests.
pub struct ProbeCandidate {
    pub protocol: String,
    pub url: String,
}

/// A probe that passed its checks: the address to pre-check over TCP and the
/// attempts to make in order; the first that gets any HTTP response wins.
pub struct ProbePlan {
    pub ip: (u8, u8, u8, u8),
    pub port: u16,
    pub candidates: Vec<ProbeCandidate>,
}

/// The URL an attempt requests.
pub open spec fn probe_service_url(protocol: Seq<char>, host: Seq<char>, port: u16) -> Seq<char> {
    protocol + "://"@ + host + ":"@ + decimal(port as nat) + "/"@
}

fn probe_candidate(protocol: &str, host: &str, port: u16) -> (r: ProbeCandidate)
    ensures
        r.protocol@ == protocol@,
        r.url@ == probe_service_url(protocol@, host@, port),
{
    let mut url = string_of(protocol);
    push_str(&mut url, "://");
    push_str(&mut url, host);
    push_str(&mut url, ":");
    push_decimal(&mut url, port as u64);
    push_str(&mut url, "/");
    assert(url@ =~= probe_service_url(protocol@, host@, port));
    ProbeCandidate { protocol: string_of(protocol), url }
}

/// The checks of `probe_service`: port zero, or a host that is not an IPv4
/// address once trimmed, means no service; else the attempts to make.
pub fn probe_plan(host: &str, port: u16) -> (r: Option<ProbePlan>)
    ensures
        (port == 0 || !is_ipv4(trim(host@))) ==> r is None,
        (port != 0 && is_ipv4(trim(host@))) ==> (r matches Some(plan) && plan.port == port
            && plan.ip == crate::text::ipv4_octets(trim(host@)) && plan.candidates@.len()
            == probe_protocols(host@).len() && forall|i: int|
            0 <= i < plan.candidates@.len() ==> (#[trigger] plan.candidates@[i]).protocol@
                == probe_protocols(host@)[i] && plan.candidates@[i].url@ == probe_service_url(
                probe_protocols(host@)[i],
                host@,
                port,
            )),
{
    if port == 0 {
        return None;
    }
    let ip = match parse_ipv4(trim_str(host)) {
        Some(ip) => ip,
        None => return None,
    };
    let mut candidates: Vec<ProbeCandidate> = Vec::new();
    if is_local_host(host) {
        candidates.push(probe_candidate("http", host, port));
    } else {
        candidates.push(probe_candidate("https", host, port));
        candidates.push(probe_candidate("http", host, port));
    }
    Some(ProbePlan { ip, port, candidates })
}

/// The URL of the latest release of `dsh` on a registry.
pub fn latest_version_url(registry: &str) -> (r: String)
    ensures
        r@ == registry@ + "/@deepseek-ai/dsh/latest"@,
{
    let mut s = string_of(registry);
    push_str(&mut s, "/@deepseek-ai/dsh/latest");
    s
}

/// What `serde_json` reads as the string member `key` of the top-level object
/// of `body`: `None` when the body is no JSON object or that member is not a
/// string.
pub uninterp spec fn json_string_member(body: Seq<char>, key: Seq<char>) -> Option<Seq<char>>;

/// `serde_json::from_str::<Value>`, then `Value::get(key)` and `Value::as_str`.
/// The contract claims only that the result is a function of the body and the
/// key, named `json_string_member`.
#[verifier::external_body]
fn json_string_field(body: &str, key: &str) -> (r: Option<String>)
    ensures
        opt_string_view(r) == json_string_member(body@, key@),
{
    serde_json::from_str::<serde_json::Value>(body).ok()?.get(key)?.as_str().map(String::from)
}

/// The version a registry reports in its `/latest` document: its `version` member.
pub fn remote_version_from_body(body: &str) -> (r: Option<String>)
    ensures
        opt_string_view(r) == json_string_member(body@, "version"@),
{
    json_string_field(body, "version")
}

// ---------------------------------------------------------------------------
// The worker
// ---------------------------------------------------------------------------

/// How `Debug` prints an exit code: `Some(N)` or `None`.
pub open spec fn exit_code_debug(code: Option<i32>) -> Seq<char> {
    match code {
        None => "None"@,
        Some(n) => "Some("@ + (if n < 0 {
            seq!['-'] + decimal((-n) as nat)
        } else {
            decimal(n as nat)
        }) + ")"@,
    }
}

/// `format!("{code:?}")` for an exit code.
pub fn exit_code_text(code: Option<i32>) -> (r: String)
    ensures
        r@ == exit_code_debug(code),
{
    match code {
        None => string_of("None"),
        Some(n) => {
            let mut s = string_of("Some(");
            if n < 0 {
                push_char(&mut s, '-');
                let m: i64 = -(n as i64);
                push_decimal(&mut s, m as u64);
            } else {
                push_decimal(&mut s, n as u64);
            }
            push_str(&mut s, ")");
            assert(s@ =~= exit_code_debug(code));
            s
        },
    }
}

/// Where the worker stands.
pub enum WorkerStage {
    /// Old sessions are cleaned up; the session of this run is being created.
    Setup,
    /// Waiting for the next intent.
    Idle,
    /// `npm install` runs.
    Installing,
    /// The local harness is being spawned.
    Spawning { port: u16 },
    /// The local harness runs; its exit is being polled.
    Starting { port: u16 },
    /// The local harness runs; its web UI is being probed.
    Probing { port: u16 },
    /// The local harness is ready and watched.
    Monitoring { port: u16 },
    /// A remote service is being probed.
    Connecting { host: String, port: u16 },
    /// The worker has ended.
    Exited,
}

/// What the worker observed.
pub enum WorkerEvent {
    /// The session directory of this run, or `None` when it could not be created.
    SessionCreated(Option<String>),
    /// The next intent, or `None` when the intent channel is closed.
    Received(Option<Intent>),
    /// Whether the install command succeeded.
    InstallFinished(bool),
    /// The spawn of the harness, or the text of its failure.
    Spawned(Result<(), String>),
    /// The exit status of the harness (`Some(code)` once it exited), or the
    /// text of the failure to read it.
    ExitPolled(Result<Option<Option<i32>>, String>),
    /// Whether the local web UI answered, and the time since the spawn.
    LocalProbed { responded: bool, elapsed_nanos: u64 },
    /// The protocol the remote service answered on, if any.
    RemoteProbed(Option<String>),
}

/// What the worker must do, in order.
pub enum WorkerAction {
    /// Remove the log sessions created more than this many seconds ago.
    CleanupOldSessions { older_than_secs: u64 },
    /// Create the log session of this run.
    CreateSession,
    /// Record the session directory of this run.
    AttachSession(String),
    /// Apply the update to the snapshot and send the front end a copy.
    Emit(StateUpdate),
    /// Start a new round of the environment check.
    CheckEnv,
    /// Start a new round of the version check.
    CheckVersion,
    /// Run the install command.
    RunInstall { mirror: bool },
    /// Spawn the local harness on the port.
    Spawn { port: u16 },
    /// Copy the harness's output into the session log.
    ReadPipes,
    /// Read the exit status of the harness.
    PollExit,
    /// Probe the local web UI.
    ProbeLocal { port: u16 },
    /// Probe a remote service.
    ProbeRemote { host: String, port: u16 },
    /// Kill the process tree of the active harness.
    KillActive,
    /// Pause.
    Sleep { ms: u64 },
    /// Show and focus the main window.
    ShowMain,
    /// Quit the application.
    Shutdown,
    /// Wait for the next intent.
    Receive,
    /// End the worker.
    Stop,
}

/// Whether an action emits an update with these fields.
pub open spec fn is_emit(
    a: WorkerAction,
    phase: Phase,
    port: Option<u16>,
    url: Option<Seq<char>>,
    detail: Seq<char>,
    elapsed: Option<u64>,
) -> bool {
    a matches WorkerAction::Emit(u) && u.phase == phase && u.port == port && opt_string_view(
        u.url,
    ) == url && u.detail@ == detail && u.elapsed == elapsed
}

/// Whether the actions are an emit with these fields followed by `rest`.
pub open spec fn emits_then(
    acts: Seq<WorkerAction>,
    phase: Phase,
    port: Option<u16>,
    url: Option<Seq<char>>,
    detail: Seq<char>,
    elapsed: Option<u64>,
    rest: Seq<WorkerAction>,
) -> bool {
    &&& acts.len() == rest.len() + 1
    &&& is_emit(acts[0], phase, port, url, detail, elapsed)
    &&& acts.drop_first() == rest
}

pub open spec fn ready_url(port: u16) -> Seq<char> {
    "http://127.0.0.1:"@ + decimal(port as nat) + "/"@
}

pub open spec fn host_port(host: Seq<char>, port: u16) -> Seq<char> {
    host + ":"@ + decimal(port as nat)
}

/// The detail of a local start in progress.
pub open spec fn starting_detail() -> Seq<char> {
    "正在启动 DeepSeek Harness…"@
}

/// One step of the worker, from the event it observed to its next stage and
/// the actions to perform in order.
pub open spec fn worker_step_post(
    stage: WorkerStage,
    event: WorkerEvent,
    r: (WorkerStage, Seq<WorkerAction>),
) -> bool {
    let acts = r.1;
    match (stage, event) {
        (WorkerStage::Setup, WorkerEvent::SessionCreated(None)) => r.0 is Exited && emits_then(
            acts,
            Phase::Failed,
            None,
            None,
            "无法创建日志目录，请检查磁盘空间或权限。"@,
            None,
            seq![WorkerAction::Stop],
        ),
        (WorkerStage::Setup, WorkerEvent::SessionCreated(Some(dir))) => r.0 is Idle && acts.len()
            == 5 && (acts[0] matches WorkerAction::AttachSession(d) && d@ == dir@) && acts[1]
            is CheckEnv && acts[2] is CheckVersion && is_emit(
            acts[3],
            Phase::Idle,
            None,
            None,
            "就绪"@,
            None,
        ) && acts[4] is Receive,
        (WorkerStage::Idle, WorkerEvent::Received(None)) => r.0 is Exited && acts == seq![
            WorkerAction::Stop,
        ],
        (WorkerStage::Idle, WorkerEvent::Received(Some(Intent::CheckEnv))) => r.0 is Idle
            && acts.len() == 3 && acts[0] is CheckEnv && is_emit(
            acts[1],
            Phase::Idle,
            None,
            None,
            "就绪"@,
            None,
        ) && acts[2] is Receive,
        (WorkerStage::Idle, WorkerEvent::Received(Some(Intent::CheckVersion))) => r.0 is Idle
            && acts.len() == 3 && acts[0] is CheckVersion && is_emit(
            acts[1],
            Phase::Idle,
            None,
            None,
            "就绪"@,
            None,
        ) && acts[2] is Receive,
        (WorkerStage::Idle, WorkerEvent::Received(Some(Intent::Install { mirror }))) => r.0
            is Installing && emits_then(
            acts,
            Phase::Installing,
            None,
            None,
            "正在安装/更新 DeepSeek Harness…"@,
            None,
            seq![WorkerAction::RunInstall { mirror }],
        ),
        (WorkerStage::Idle, WorkerEvent::Received(Some(Intent::Start { host, port }))) => if is_local_host_spec(host@) {
            r.0 == (WorkerStage::Spawning { port }) && acts == seq![WorkerAction::Spawn { port }]
        } else {
            let h = unicode_lowercase(trim(host@));
            (r.0 matches WorkerStage::Connecting { host: rh, port: rp } && rh@ == h && rp == port)
                && acts.len() == 2 && is_emit(
                acts[0],
                Phase::Starting,
                None,
                None,
                "正在连接远程服务 "@ + host_port(h, port) + "…"@,
                Some(0),
            ) && (acts[1] matches WorkerAction::ProbeRemote { host: ph, port: pp } && ph@ == h
                && pp == port)
        },
        (WorkerStage::Installing, WorkerEvent::InstallFinished(ok)) => r.0 is Idle && if ok {
            acts.len() == 3 && acts[0] is CheckVersion && is_emit(
                acts[1],
                Phase::Idle,
                None,
                None,
                "就绪"@,
                None,
            ) && acts[2] is Receive
        } else {
            emits_then(
                acts,
                Phase::Failed,
                None,
                None,
                "安装失败，请查看日志。"@,
                None,
                seq![WorkerAction::Receive],
            )
        },
        (WorkerStage::Spawning { port }, WorkerEvent::Spawned(Err(e))) => r.0 is Idle
            && emits_then(
            acts,
            Phase::Failed,
            Some(port),
            None,
            "启动失败："@ + e@,
            None,
            seq![WorkerAction::Receive],
        ),
        (WorkerStage::Spawning { port }, WorkerEvent::Spawned(Ok(()))) => r.0 == (
        WorkerStage::Starting { port }) && emits_then(
            acts,
            Phase::Starting,
            Some(port),
            None,
            starting_detail(),
            Some(0),
            seq![WorkerAction::ReadPipes, WorkerAction::PollExit],
        ),
        (WorkerStage::Starting { port }, WorkerEvent::ExitPolled(Ok(Some(code)))) => r.0 is Idle
            && acts.len() == 3 && acts[0] is KillActive && is_emit(
            acts[1],
            Phase::Failed,
            Some(port),
            None,
            "进程提前退出（退出码 "@ + exit_code_debug(code) + "），请查看日志。"@,
            None,
        ) && acts[2] is Receive,
        (WorkerStage::Starting { port }, WorkerEvent::ExitPolled(Err(e))) => r.0 is Idle
            && emits_then(
            acts,
            Phase::Failed,
            Some(port),
            None,
            "无法读取进程状态："@ + e@,
            None,
            seq![WorkerAction::Receive],
        ),
        (WorkerStage::Starting { port }, WorkerEvent::ExitPolled(Ok(None))) => r.0 == (
        WorkerStage::Probing { port }) && acts == seq![WorkerAction::ProbeLocal { port }],
        (WorkerStage::Probing { port }, WorkerEvent::LocalProbed { responded, elapsed_nanos }) => if responded {
            r.0 == (WorkerStage::Monitoring { port }) && emits_then(
                acts,
                Phase::Ready,
                Some(port),
                Some(ready_url(port)),
                "服务已就绪"@,
                None,
                seq![WorkerAction::PollExit],
            )
        } else if elapsed_nanos > START_TIMEOUT_MS * 1_000_000 {
            r.0 is Idle && acts.len() == 3 && acts[0] is KillActive && is_emit(
                acts[1],
                Phase::Failed,
                Some(port),
                None,
                "启动超时（120 秒），请查看日志。"@,
                None,
            ) && acts[2] is Receive
        } else {
            r.0 == (WorkerStage::Starting { port }) && emits_then(
                acts,
                Phase::Starting,
                Some(port),
                None,
                starting_detail(),
                Some(elapsed_nanos / 1_000_000_000),
                seq![WorkerAction::Sleep { ms: POLL_INTERVAL_MS }, WorkerAction::PollExit],
            )
        },
        (WorkerStage::Monitoring { port }, WorkerEvent::ExitPolled(Ok(Some(code)))) => if code
            == Some(0i32) {
            r.0 is Exited && acts == seq![WorkerAction::KillActive, WorkerAction::Shutdown]
        } else {
            r.0 is Idle && acts.len() == 4 && acts[0] is KillActive && is_emit(
                acts[1],
                Phase::Failed,
                Some(port),
                None,
                "DeepSeek Harness 已退出（退出码 "@ + exit_code_debug(code) + "）。"@,
                None,
            ) && acts[2] is ShowMain && acts[3] is Receive
        },
        (WorkerStage::Monitoring { port }, WorkerEvent::ExitPolled(_)) => r.0 == (
        WorkerStage::Monitoring { port }) && acts == seq![
            WorkerAction::Sleep { ms: POLL_INTERVAL_MS },
            WorkerAction::PollExit,
        ],
        (WorkerStage::Connecting { host, port }, WorkerEvent::RemoteProbed(Some(proto))) => r.0
            is Idle && emits_then(
            acts,
            Phase::Ready,
            None,
            Some(proto@ + "://"@ + host_port(host@, port) + "/"@),
            "已连接远程服务"@,
            None,
            seq![WorkerAction::Receive],
        ),
        (WorkerStage::Connecting { host, port }, WorkerEvent::RemoteProbed(None)) => r.0 is Idle
            && emits_then(
            acts,
            Phase::Failed,
            None,
            None,
            "无法访问 "@ + host_port(host@, port) + "，请检查服务是否已部署、网络是否可达。"@,
            None,
            seq![WorkerAction::Receive],
        ),
        _ => r.0 == stage && acts.len() == 0,
    }
}

/// Serving an install intent announces the install and then runs it with the
/// intent's own registry choice: the mirror when it asked for the mirror, the
/// official registry otherwise; nothing else is done before the install ends.
pub proof fn law_install_keeps_the_registry_choice(
    mirror: bool,
    r: (WorkerStage, Seq<WorkerAction>),
)
    requires
        worker_step_post(WorkerStage::Idle, WorkerEvent::Received(Some((Intent::Install { mirror }))), r),
    ensures
        r.0 is Installing,
        r.1.len() == 2,
        (r.1[0] matches WorkerAction::Emit(u) && u.phase == Phase::Installing),
        r.1[1] == (WorkerAction::RunInstall { mirror }),
{
    assert(r.1.drop_first()[0] == r.1[1]);
}

/// A check intent starts the check it names and not the other: an
/// environment check issues `CheckEnv` first and never `CheckVersion`; a
/// version check issues `CheckVersion` first and never `CheckEnv`. Either
/// then reports the worker ready and waits for the next intent.
pub proof fn law_check_intents_start_their_own_check(
    intent: Intent,
    r: (WorkerStage, Seq<WorkerAction>),
)
    requires
        intent is CheckEnv || intent is CheckVersion,
        worker_step_post(WorkerStage::Idle, WorkerEvent::Received(Some(intent)), r),
    ensures
        r.0 is Idle,
        r.1.len() == 3,
        intent is CheckEnv ==> r.1[0] is CheckEnv && forall|i: int|
            0 <= i < r.1.len() ==> !(#[trigger] r.1[i] is CheckVersion),
        intent is CheckVersion ==> r.1[0] is CheckVersion && forall|i: int|
            0 <= i < r.1.len() ==> !(#[trigger] r.1[i] is CheckEnv),
        (r.1[1] matches WorkerAction::Emit(u) && u.phase == Phase::Idle),
        r.1[2] is Receive,
{
}

/// How the worker answers the exit of a ready harness: it always kills the
/// harness's process tree first; an exit with code 0 quits the application
/// (and ends the worker); any other exit reports the failure, shows the main
/// window and waits for the next intent, without quitting.
pub proof fn law_harness_exit_handling(port: u16, code: Option<i32>, r: (WorkerStage, Seq<WorkerAction>))
    requires
        worker_step_post((WorkerStage::Monitoring { port }), WorkerEvent::ExitPolled(Ok(Some(code))), r),
    ensures
        r.1.len() >= 2,
        r.1[0] is KillActive,
        code == Some(0i32) ==> r.0 is Exited && r.1[1] is Shutdown && r.1.len() == 2,
        code != Some(0i32) ==> r.0 is Idle && (forall|i: int| 0 <= i < r.1.len() ==> !(#[trigger] r.1[i] is Shutdown)) && (exists|i: int| 0 <= i < r.1.len() && #[trigger] r.1[i] is ShowMain),
        code != Some(0i32) ==> (r.1[1] matches WorkerAction::Emit(u) && u.phase == Phase::Failed && u.port == Some(port)),
{
    if code != Some(0i32) {
        assert(r.1[2] is ShowMain);
    }
}

/// A start goes where its host says: a host naming this machine spawns the
/// harness on the requested port and nothing else; any other host is
/// probed as a remote service on that port, under its trimmed, lower-cased
/// name, and no harness is spawned.
pub proof fn law_start_intent_targets(host: String, port: u16, r: (WorkerStage, Seq<WorkerAction>))
    requires
        worker_step_post(WorkerStage::Idle, WorkerEvent::Received(Some((Intent::Start { host, port }))), r),
    ensures
        is_local_host_spec(host@) ==> r.1.len() == 1 && r.1[0] == (WorkerAction::Spawn { port })
            && r.0 == (WorkerStage::Spawning { port }),
        !is_local_host_spec(host@) ==> (forall|i: int| 0 <= i < r.1.len() ==> !(#[trigger] r.1[i] is Spawn))
            && (r.1[1] matches WorkerAction::ProbeRemote { host: h, port: p } && p == port && h@
            == unicode_lowercase(trim(host@))),
{
    if !is_local_host_spec(host@) {
        assert(r.1.len() == 2);
    }
}

/// The end of an install: a successful one refreshes the versions (a new
/// version check) and reports the worker ready; a failed one reports the
/// failure and starts no check. Either way the worker waits for the next
/// intent.
pub proof fn law_install_end(ok: bool, r: (WorkerStage, Seq<WorkerAction>))
    requires
        worker_step_post(WorkerStage::Installing, WorkerEvent::InstallFinished(ok), r),
    ensures
        r.0 is Idle,
        r.1.len() >= 2,
        r.1[r.1.len() - 1] is Receive,
        ok ==> r.1[0] is CheckVersion && (r.1[1] matches WorkerAction::Emit(u) && u.phase
            == Phase::Idle),
        !ok ==> (r.1[0] matches WorkerAction::Emit(u) && u.phase == Phase::Failed) && (forall|
            i: int,
        | 0 <= i < r.1.len() ==> !(#[trigger] r.1[i] is CheckVersion)),
{
    if !ok {
        assert(r.1.drop_first()[0] == r.1[1]);
    }
}

/// The set-up of the worker: without a log session it reports the failure
/// and ends; with one it records that session, starts both checks (the
/// environment, then the versions), reports ready and waits for intents.
pub proof fn law_worker_setup(dir: Option<String>, r: (WorkerStage, Seq<WorkerAction>))
    requires
        worker_step_post(WorkerStage::Setup, WorkerEvent::SessionCreated(dir), r),
    ensures
        dir is None ==> r.0 is Exited && r.1.len() == 2 && (r.1[0] matches WorkerAction::Emit(u)
            && u.phase == Phase::Failed) && r.1[1] is Stop,
        dir matches Some(d) ==> r.0 is Idle && (r.1[0] matches WorkerAction::AttachSession(a)
            && a@ == d@) && r.1[1] is CheckEnv && r.1[2] is CheckVersion && r.1[r.1.len() - 1]
            is Receive,
{
    if dir is None {
        assert(r.1.drop_first()[0] == r.1[1]);
    }
}

/// Whether an action tells the front end that the service is ready.
pub open spec fn emits_ready(a: WorkerAction) -> bool {
    a matches WorkerAction::Emit(u) && u.phase == Phase::Ready
}

/// The worker reports a ready service only after a probe answered: the local
/// web UI responded to the probe of a running harness, or a remote service
/// answered on some protocol.
pub proof fn law_ready_only_after_a_probe_answered(
    stage: WorkerStage,
    event: WorkerEvent,
    r: (WorkerStage, Seq<WorkerAction>),
    i: int,
)
    requires
        worker_step_post(stage, event, r),
        0 <= i < r.1.len(),
        emits_ready(r.1[i]),
    ensures
        (stage is Probing && event matches WorkerEvent::LocalProbed { responded: true, .. }) || (
        stage is Connecting && event matches WorkerEvent::RemoteProbed(Some(_))),
{
    let acts = r.1;
    match (stage, event) {
        (WorkerStage::Probing { port }, WorkerEvent::LocalProbed { responded, elapsed_nanos }) => {
            if !responded {
                if elapsed_nanos > START_TIMEOUT_MS * 1_000_000 {
                    assert(i == 0 || i == 1 || i == 2);
                } else {
                    assert(acts.drop_first()[i - 1] == acts[i]);
                }
            }
        },
        (WorkerStage::Connecting { host, port }, WorkerEvent::RemoteProbed(None)) => {
            assert(acts.drop_first()[i - 1] == acts[i]);
        },
        _ => {
            if i > 0 && acts.len() > 0 {
                assert(acts.drop_first()[i - 1] == acts[i]);
            }
        },
    }
}

fn emit(phase: Phase, port: Option<u16>, url: Option<String>, detail: String, elapsed: Option<u64>) -> (r: WorkerAction)
    ensures
        is_emit(r, phase, port, opt_string_view(url), detail@, elapsed),
{
    WorkerAction::Emit(StateUpdate { phase, port, url, detail, elapsed })
}

fn host_port_text(host: &str, port: u16) -> (r: String)
    ensures
        r@ == host_port(host@, port),
{
    let mut s = string_of(host);
    push_str(&mut s, ":");
    push_decimal(&mut s, port as u64);
    s
}

/// The start of the worker: before any intent is served, old log sessions
/// are removed, then the session of this run is created (its outcome is the
/// first event of `worker_step`, in `Setup`).
pub fn worker_begin() -> (r: (WorkerStage, Vec<WorkerAction>))
    ensures
        r.0 is Setup,
        r.1@ == seq![
            WorkerAction::CleanupOldSessions { older_than_secs: SESSION_MAX_AGE_SECS },
            WorkerAction::CreateSession,
        ],
{
    let mut acts: Vec<WorkerAction> = Vec::new();
    acts.push(WorkerAction::CleanupOldSessions { older_than_secs: SESSION_MAX_AGE_SECS });
    acts.push(WorkerAction::CreateSession);
    assert(acts@ =~= seq![
        WorkerAction::CleanupOldSessions { older_than_secs: SESSION_MAX_AGE_SECS },
        WorkerAction::CreateSession,
    ]);
    (WorkerStage::Setup, acts)
}

/// One step of the supervisor's worker. At setup the run's log session is
/// attached and both checks begin; then intents are served one at a time: a
/// check, an install, or a start. A local start spawns the harness, polls its
/// exit and probes its web UI until it answers or 120 seconds pass; a ready
/// harness is watched, and its exit with code 0 quits the application. A remote
/// start probes the service once.
pub fn worker_step(stage: WorkerStage, event: WorkerEvent) -> (r: (WorkerStage, Vec<WorkerAction>))
    ensures
        worker_step_post(stage, event, (r.0, r.1@)),
{
    let mut acts: Vec<WorkerAction> = Vec::new();
    match (stage, event) {
        (WorkerStage::Setup, WorkerEvent::SessionCreated(None)) => {
            acts.push(
                emit(
                    Phase::Failed,
                    None,
                    None,
                    string_of("无法创建日志目录，请检查磁盘空间或权限。"),
                    None,
                ),
            );
            acts.push(WorkerAction::Stop);
            assert(acts@.drop_first() =~= seq![WorkerAction::Stop]);
            (WorkerStage::Exited, acts)
        },
        (WorkerStage::Setup, WorkerEvent::SessionCreated(Some(dir))) => {
            acts.push(WorkerAction::AttachSession(dir));
            acts.push(WorkerAction::CheckEnv);
            acts.push(WorkerAction::CheckVersion);
            acts.push(emit(Phase::Idle, None, None, string_of("就绪"), None));
            acts.push(WorkerAction::Receive);
            (WorkerStage::Idle, acts)
        },
        (WorkerStage::Idle, WorkerEvent::Received(None)) => {
            acts.push(WorkerAction::Stop);
            assert(acts@ =~= seq![WorkerAction::Stop]);
            (WorkerStage::Exited, acts)
        },
        (WorkerStage::Idle, WorkerEvent::Received(Some(Intent::CheckEnv))) => {
            acts.push(WorkerAction::CheckEnv);
            acts.push(emit(Phase::Idle, None, None, string_of("就绪"), None));
            acts.push(WorkerAction::Receive);
            (WorkerStage::Idle, acts)
        },
        (WorkerStage::Idle, WorkerEvent::Received(Some(Intent::CheckVersion))) => {
            acts.push(WorkerAction::CheckVersion);
            acts.push(emit(Phase::Idle, None, None, string_of("就绪"), None));
            acts.push(WorkerAction::Receive);
            (WorkerStage::Idle, acts)
        },
        (WorkerStage::Idle, WorkerEvent::Received(Some(Intent::Install { mirror }))) => {
            acts.push(
                emit(Phase::Installing, None, None, string_of("正在安装/更新 DeepSeek Harness…"), None),
            );
            acts.push(WorkerAction::RunInstall { mirror });
            assert(acts@.drop_first() =~= seq![WorkerAction::RunInstall { mirror }]);
            (WorkerStage::Installing, acts)
        },
        (WorkerStage::Idle, WorkerEvent::Received(Some(Intent::Start { host, port }))) => {
            match parse_target(host.as_str(), port) {
                StartTarget::Local { port } => {
                    acts.push(WorkerAction::Spawn { port });
                    assert(acts@ =~= seq![WorkerAction::Spawn { port }]);
                    (WorkerStage::Spawning { port }, acts)
                },
                StartTarget::Remote { host, port } => {
                    let mut detail = string_of("正在连接远程服务 ");
                    let hp = host_port_text(host.as_str(), port);
                    push_str(&mut detail, hp.as_str());
                    push_str(&mut detail, "…");
                    acts.push(emit(Phase::Starting, None, None, detail, Some(0)));
                    acts.push(WorkerAction::ProbeRemote { host: clone_string(&host), port });
                    (WorkerStage::Connecting { host, port }, acts)
                },
            }
        },
        (WorkerStage::Installing, WorkerEvent::InstallFinished(ok)) => {
            if ok {
                acts.push(WorkerAction::CheckVersion);
                acts.push(emit(Phase::Idle, None, None, string_of("就绪"), None));
                acts.push(WorkerAction::Receive);
            } else {
                acts.push(emit(Phase::Failed, None, None, string_of("安装失败，请查看日志。"), None));
                acts.push(WorkerAction::Receive);
                assert(acts@.drop_first() =~= seq![WorkerAction::Receive]);
            }
            (WorkerStage::Idle, acts)
        },
        (WorkerStage::Spawning { port }, WorkerEvent::Spawned(Err(e))) => {
            let mut detail = string_of("启动失败：");
            push_str(&mut detail, e.as_str());
            acts.push(emit(Phase::Failed, Some(port), None, detail, None));
            acts.push(WorkerAction::Receive);
            assert(acts@.drop_first() =~= seq![WorkerAction::Receive]);
            (WorkerStage::Idle, acts)
        },
        (WorkerStage::Spawning { port }, WorkerEvent::Spawned(Ok(()))) => {
            acts.push(
                emit(
                    Phase::Starting,
                    Some(port),
                    None,
                    string_of("正在启动 DeepSeek Harness…"),
                    Some(0),
                ),
            );
            acts.push(WorkerAction::ReadPipes);
            acts.push(WorkerAction::PollExit);
            assert(acts@.drop_first() =~= seq![WorkerAction::ReadPipes, WorkerAction::PollExit]);
            (WorkerStage::Starting { port }, acts)
        },
        (WorkerStage::Starting { port }, WorkerEvent::ExitPolled(Ok(Some(code)))) => {
            let mut detail = string_of("进程提前退出（退出码 ");
            let c = exit_code_text(code);
            push_str(&mut detail, c.as_str());
            push_str(&mut detail, "），请查看日志。");
            acts.push(WorkerAction::KillActive);
            acts.push(emit(Phase::Failed, Some(port), None, detail, None));
            acts.push(WorkerAction::Receive);
            (WorkerStage::Idle, acts)
        },
        (WorkerStage::Starting { port }, WorkerEvent::ExitPolled(Err(e))) => {
            let mut detail = string_of("无法读取进程状态：");
            push_str(&mut detail, e.as_str());
            acts.push(emit(Phase::Failed, Some(port), None, detail, None));
            acts.push(WorkerAction::Receive);
            assert(acts@.drop_first() =~= seq![WorkerAction::Receive]);
            (WorkerStage::Idle, acts)
        },
        (WorkerStage::Starting { port }, WorkerEvent::ExitPolled(Ok(None))) => {
            acts.push(WorkerAction::ProbeLocal { port });
            assert(acts@ =~= seq![WorkerAction::ProbeLocal { port }]);
            (WorkerStage::Probing { port }, acts)
        },
        (WorkerStage::Probing { port }, WorkerEvent::LocalProbed { responded, elapsed_nanos }) => {
            if responded {
                let mut url = string_of("http://127.0.0.1:");
                push_decimal(&mut url, port as u64);
                push_str(&mut url, "/");
                assert(url@ =~= ready_url(port));
                acts.push(emit(Phase::Ready, Some(port), Some(url), string_of("服务已就绪"), None));
                acts.push(WorkerAction::PollExit);
                assert(acts@.drop_first() =~= seq![WorkerAction::PollExit]);
                (WorkerStage::Monitoring { port }, acts)
            } else if elapsed_nanos > START_TIMEOUT_MS * 1_000_000 {
                acts.push(WorkerAction::KillActive);
                acts.push(
                    emit(
                        Phase::Failed,
                        Some(port),
                        None,
                        string_of("启动超时（120 秒），请查看日志。"),
                        None,
                    ),
                );
                acts.push(WorkerAction::Receive);
                (WorkerStage::Idle, acts)
            } else {
                acts.push(
                    emit(
                        Phase::Starting,
                        Some(port),
                        None,
                        string_of("正在启动 DeepSeek Harness…"),
                        Some(elapsed_nanos / 1_000_000_000),
                    ),
                );
                acts.push(WorkerAction::Sleep { ms: POLL_INTERVAL_MS });
                acts.push(WorkerAction::PollExit);
                assert(acts@.drop_first() =~= seq![
                    WorkerAction::Sleep { ms: POLL_INTERVAL_MS },
                    WorkerAction::PollExit,
                ]);
                (WorkerStage::Starting { port }, acts)
            }
        },
        (WorkerStage::Monitoring { port }, WorkerEvent::ExitPolled(Ok(Some(code)))) => {
            acts.push(WorkerAction::KillActive);
            if code == Some(0i32) {
                acts.push(WorkerAction::Shutdown);
                assert(acts@ =~= seq![WorkerAction::KillActive, WorkerAction::Shutdown]);
                (WorkerStage::Exited, acts)
            } else {
                let mut detail = string_of("DeepSeek Harness 已退出（退出码 ");
                let c = exit_code_text(code);
                push_str(&mut detail, c.as_str());
                push_str(&mut detail, "）。");
                acts.push(emit(Phase::Failed, Some(port), None, detail, None));
                acts.push(WorkerAction::ShowMain);
                acts.push(WorkerAction::Receive);
                (WorkerStage::Idle, acts)
            }
        },
        (WorkerStage::Monitoring { port }, WorkerEvent::ExitPolled(_)) => {
            acts.push(WorkerAction::Sleep { ms: POLL_INTERVAL_MS });
            acts.push(WorkerAction::PollExit);
            assert(acts@ =~= seq![
                WorkerAction::Sleep { ms: POLL_INTERVAL_MS },
                WorkerAction::PollExit,
            ]);
            (WorkerStage::Monitoring { port }, acts)
        },
        (WorkerStage::Connecting { host, port }, WorkerEvent::RemoteProbed(Some(proto))) => {
            let mut url = clone_string(&proto);
            push_str(&mut url, "://");
            let hp = host_port_text(host.as_str(), port);
            push_str(&mut url, hp.as_str());
            push_str(&mut url, "/");
            acts.push(emit(Phase::Ready, None, Some(url), string_of("已连接远程服务"), None));
            acts.push(WorkerAction::Receive);
            assert(acts@.drop_first() =~= seq![WorkerAction::Receive]);
            (WorkerStage::Idle, acts)
        },
        (WorkerStage::Connecting { host, port }, WorkerEvent::RemoteProbed(None)) => {
            let mut detail = string_of("无法访问 ");
            let hp = host_port_text(host.as_str(), port);
            push_str(&mut detail, hp.as_str());
            push_str(&mut detail, "，请检查服务是否已部署、网络是否可达。");
            acts.push(emit(Phase::Failed, None, None, detail, None));
            acts.push(WorkerAction::Receive);
            assert(acts@.drop_first() =~= seq![WorkerAction::Receive]);
            (WorkerStage::Idle, acts)
        },
        (stage, _) => (stage, acts),
    }
}

/// What the reader of a command's output does with one line: the line logged
/// (the prefix and the line without its control characters), and the text
/// collected from it (the clean line and a newline; nothing for an empty line).
pub fn pipe_reader_line(prefix: &str, line: &str, collect: bool) -> (r: (String, Option<String>))
    ensures
        r.0@ == prefix@ + sanitized(line@),
        (collect && sanitized(line@).len() > 0) ==> (r.1 matches Some(c) && c@ == sanitized(
            line@,
        ).push('\n')),
        !(collect && sanitized(line@).len() > 0) ==> r.1 is None,
{
    let clean = sanitize(line);
    let mut logged = string_of(prefix);
    push_str(&mut logged, clean.as_str());
    if collect && clean.as_str().unicode_len() > 0 {
        let mut c = clean;
        push_char(&mut c, '\n');
        (logged, Some(c))
    } else {
        (logged, None)
    }
}

/// The line the worker logs before it runs a command: `[cmd] DISPLAY`.
pub fn command_log_line(display: &str) -> (r: String)
    ensures
        r@ == "[cmd] "@ + display@,
{
    let mut s = string_of("[cmd] ");
    push_str(&mut s, display);
    s
}

} // verus!
