use deepseek_harness_gui::backend::error::BackendError;
use deepseek_harness_gui::ipc::IpcError;
use deepseek_harness_gui::platform::{IoFailure, PlatformError, ProcessKind};

fn code_and_message(e: BackendError) -> (String, String) {
    let r = IpcError::from_backend(e);
    (r.code, r.message)
}

#[test]
fn stable_codes_and_messages() {
    let cases = [
        (BackendError::InvalidHost, "invalid_host", "主机地址无效"),
        (BackendError::InvalidProtocol, "invalid_protocol", "协议无效"),
        (BackendError::InvalidPort, "invalid_port", "端口无效"),
        (BackendError::ServiceUnavailable, "service_unavailable", "服务不可用"),
        (BackendError::PortOccupied, "port_occupied", "端口已被占用"),
        (BackendError::OperationInProgress, "operation_in_progress", "另一个生命周期操作正在进行"),
        (BackendError::DshAlreadyRunning, "dsh_already_running", "DSH 已经在运行"),
        (BackendError::ProcessNotRunning, "process_not_running", "DSH 当前未运行"),
        (BackendError::DshSpawnFailed, "dsh_spawn_failed", "无法启动 DSH 进程"),
        (BackendError::DshStartTimeout, "dsh_start_timeout", "DSH 启动超时"),
        (BackendError::DshExitedEarly, "dsh_exited_early", "DSH 在就绪前退出"),
        (BackendError::OpenLogsFailed, "open_logs_failed", "无法打开日志目录"),
        (BackendError::LogDirCreateFailed, "log_dir_create_failed", "无法创建日志目录"),
        (BackendError::WindowResourceMissing, "window_resource_missing", "主窗口或默认图标不可用"),
        (BackendError::InvalidWindowUrl, "invalid_window_url", "URL 无效"),
        (BackendError::ChildWebviewNotFound, "child_webview_not_found", "找不到子 WebView"),
    ];
    for (e, code, message) in cases {
        let (c, m) = code_and_message(e);
        assert_eq!(c, code);
        assert_eq!(m, message);
    }
}

#[test]
fn tray_errors_show_their_detail() {
    let (c, m) = code_and_message(BackendError::Tray("menu failed".to_string()));
    assert_eq!(c, "tray_error");
    assert_eq!(m, "托盘或窗口操作失败: menu failed");
}

#[test]
fn internal_errors_hide_their_detail() {
    let platform = BackendError::Platform(PlatformError::Control {
        kind: ProcessKind::Dsh,
        source: IoFailure {
            kind: std::io::ErrorKind::PermissionDenied,
            message: "denied".to_string(),
            raw_os_error: Some(1),
        },
    });
    for e in [
        BackendError::InvalidTimeout,
        platform,
        BackendError::Window("x".to_string()),
        BackendError::WindowStatePoisoned,
    ] {
        let (c, m) = code_and_message(e);
        assert_eq!(c, "internal_error");
        assert_eq!(m, "内部错误，请查看日志");
    }
}

#[test]
fn error_texts() {
    let e = BackendError::Platform(PlatformError::Spawn {
        kind: ProcessKind::Dsh,
        source: IoFailure {
            kind: std::io::ErrorKind::NotFound,
            message: "program not found".to_string(),
            raw_os_error: Some(2),
        },
    });
    assert_eq!(e.message(), "启动 Dsh 进程失败: program not found");
    assert_eq!(BackendError::InvalidTimeout.message(), "超时时间必须大于零");
    assert_eq!(BackendError::Window("w".to_string()).message(), "URL 窗口操作失败: w");
}
