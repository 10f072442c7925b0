//! The structured error that crosses the boundary to the web front end.

use vstd::prelude::*;

use crate::backend::error::{backend_message, BackendError};
use crate::text::string_of;

verus! {

/// The stable error the front end receives.
pub struct IpcError {
    /// A stable code the front end branches on.
    pub code: String,
    /// A message the front end can show as it is.
    pub message: String,
}

/// Whether an error is internal: its details go to the log, never to the user.
pub open spec fn is_internal(e: BackendError) -> bool {
    e is InvalidTimeout || e is Platform || e is Window || e is WindowStatePoisoned
}

/// The stable code of each error.
pub open spec fn ipc_code(e: BackendError) -> Seq<char> {
    match e {
        BackendError::InvalidTimeout => "internal_error"@,
        BackendError::Platform(_) => "internal_error"@,
        BackendError::Window(_) => "internal_error"@,
        BackendError::WindowStatePoisoned => "internal_error"@,
        BackendError::Tray(_) => "tray_error"@,
        BackendError::InvalidHost => "invalid_host"@,
        BackendError::InvalidProtocol => "invalid_protocol"@,
        BackendError::InvalidPort => "invalid_port"@,
        BackendError::ServiceUnavailable => "service_unavailable"@,
        BackendError::PortOccupied => "port_occupied"@,
        BackendError::OperationInProgress => "operation_in_progress"@,
        BackendError::DshAlreadyRunning => "dsh_already_running"@,
        BackendError::ProcessNotRunning => "process_not_running"@,
        BackendError::DshSpawnFailed => "dsh_spawn_failed"@,
        BackendError::DshStartTimeout => "dsh_start_timeout"@,
        BackendError::DshExitedEarly => "dsh_exited_early"@,
        BackendError::OpenLogsFailed => "open_logs_failed"@,
        BackendError::LogDirCreateFailed => "log_dir_create_failed"@,
        BackendError::WindowResourceMissing => "window_resource_missing"@,
        BackendError::InvalidWindowUrl => "invalid_window_url"@,
        BackendError::ChildWebviewNotFound => "child_webview_not_found"@,
    }
}

/// The message the front end receives: a fixed hint for internal errors, the
/// error's own text for the others.
pub open spec fn ipc_message(e: BackendError) -> Seq<char> {
    if is_internal(e) {
        "内部错误，请查看日志"@
    } else {
        backend_message(e)
    }
}

impl IpcError {
    /// Converts a business error into the error the front end receives.
    pub fn from_backend(error: BackendError) -> (r: IpcError)
        ensures
            r.code@ == ipc_code(error),
            r.message@ == ipc_message(error),
    {
        let internal = match &error {
            BackendError::InvalidTimeout => true,
            BackendError::Platform(_) => true,
            BackendError::Window(_) => true,
            BackendError::WindowStatePoisoned => true,
            _ => false,
        };
        let message = if internal {
            string_of("内部错误，请查看日志")
        } else {
            error.message()
        };
        let code = match error {
            BackendError::InvalidTimeout => string_of("internal_error"),
            BackendError::Platform(_) => string_of("internal_error"),
            BackendError::Window(_) => string_of("internal_error"),
            BackendError::WindowStatePoisoned => string_of("internal_error"),
            BackendError::Tray(_) => string_of("tray_error"),
            BackendError::InvalidHost => string_of("invalid_host"),
            BackendError::InvalidProtocol => string_of("invalid_protocol"),
            BackendError::InvalidPort => string_of("invalid_port"),
            BackendError::ServiceUnavailable => string_of("service_unavailable"),
            BackendError::PortOccupied => string_of("port_occupied"),
            BackendError::OperationInProgress => string_of("operation_in_progress"),
            BackendError::DshAlreadyRunning => string_of("dsh_already_running"),
            BackendError::ProcessNotRunning => string_of("process_not_running"),
            BackendError::DshSpawnFailed => string_of("dsh_spawn_failed"),
            BackendError::DshStartTimeout => string_of("dsh_start_timeout"),
            BackendError::DshExitedEarly => string_of("dsh_exited_early"),
            BackendError::OpenLogsFailed => string_of("open_logs_failed"),
            BackendError::LogDirCreateFailed => string_of("log_dir_create_failed"),
            BackendError::WindowResourceMissing => string_of("window_resource_missing"),
            BackendError::InvalidWindowUrl => string_of("invalid_window_url"),
            BackendError::ChildWebviewNotFound => string_of("child_webview_not_found"),
        };
        IpcError { code, message }
    }
}

/// Codes are stable: two errors of the same kind receive the same code,
/// whatever details they carry.
pub proof fn law_codes_ignore_details(a: BackendError, b: BackendError)
    requires
        (a is Tray && b is Tray) || (a is Window && b is Window) || (a is Platform
            && b is Platform),
    ensures
        ipc_code(a) == ipc_code(b),
{
}

/// Internal errors never show their details: every internal error receives
/// the same code and the same message.
pub proof fn law_internal_errors_hide_details(a: BackendError, b: BackendError)
    requires
        is_internal(a),
        is_internal(b),
    ensures
        ipc_code(a) == ipc_code(b),
        ipc_message(a) == ipc_message(b),
{
}

} // verus!
