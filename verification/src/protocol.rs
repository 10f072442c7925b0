//! The contract between the web front end and the supervisor: the state
//! snapshot it renders, and the names of the events that carry it.

use vstd::prelude::*;

verus! {

/// The phase of the runtime: what the status page and the front end render.
#[derive(Debug, Clone, Copy, PartialEq, Eq, Structural)]
pub enum Phase {
    Idle,
    Installing,
    Starting,
    Ready,
    Failed,
}

/// The full state the front end sees: the three panels and the terminal.
pub struct Snapshot {
    pub phase: Phase,
    pub port: Option<u16>,
    /// The address of the running web UI, once it is ready.
    pub url: Option<String>,
    pub detail: String,
    pub elapsed: Option<u64>,
    /// Panel one: the node and npm versions (`None`: not found).
    pub node: Option<String>,
    pub npm: Option<String>,
    /// Panel two: the remote and local `dsh` versions (local `None`: not
    /// installed or incomplete; remote `None`: the query failed).
    pub remote: Option<String>,
    /// The remote version the mirror registry reports (shown only).
    pub remote_mirror: Option<String>,
    pub local: Option<String>,
    pub version_error: bool,
    /// Whether the version check has completed.
    pub version_checked: bool,
}

impl Default for Snapshot {
    /// The snapshot before anything happened: idle, every field empty.
    fn default() -> (r: Snapshot)
        ensures
            r.phase == Phase::Idle,
            r.port is None,
            r.url is None,
            r.detail@ == Seq::<char>::empty(),
            r.elapsed is None,
            r.node is None,
            r.npm is None,
            r.remote is None,
            r.remote_mirror is None,
            r.local is None,
            !r.version_error,
            !r.version_checked,
    {
        Snapshot {
            phase: Phase::Idle,
            port: None,
            url: None,
            detail: String::new(),
            elapsed: None,
            node: None,
            npm: None,
            remote: None,
            remote_mirror: None,
            local: None,
            version_error: false,
            version_checked: false,
        }
    }
}

/// The event that pushes a state change.
pub const EVENT_RUNTIME_STATE: &'static str = "runtime-state";

/// The event that tells the front end a window close was intercepted.
pub const EVENT_CLOSE_REQUESTED: &'static str = "close-requested";

} // verus!
