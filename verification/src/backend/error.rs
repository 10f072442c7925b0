//! The errors of the business layer and the text each of them shows.

use vstd::prelude::*;

use crate::platform::{platform_message, PlatformError};
use crate::text::{push_str, string_of};

verus! {

/// An error of the business layer.
#[derive(Debug)]
pub enum BackendError {
    /// The requested timeout is not greater than zero.
    InvalidTimeout,
    /// The remote host has an unsupported form.
    InvalidHost,
    /// The requested protocol is not supported.
    InvalidProtocol,
    /// The requested port is out of range.
    InvalidPort,
    /// The target service failed the availability probe.
    ServiceUnavailable,
    /// The local port for `dsh` is already taken.
    PortOccupied,
    /// Another lifecycle change is in progress.
    OperationInProgress,
    /// A running `dsh` instance is already maintained.
    DshAlreadyRunning,
    /// There is no `dsh` instance to stop.
    ProcessNotRunning,
    /// The `dsh` process could not be created.
    DshSpawnFailed,
    /// `dsh` did not become ready in time.
    DshStartTimeout,
    /// `dsh` exited before it became ready.
    DshExitedEarly,
    /// The log directory of this launch could not be opened.
    OpenLogsFailed,
    /// The log directory of this launch could not be created.
    LogDirCreateFailed,
    /// The tray, its menu or the main window failed; the text of the failure.
    Tray(String),
    /// A dynamic URL window failed; the text of the failure.
    Window(String),
    /// The state of the dynamic URL windows is unusable.
    WindowStatePoisoned,
    /// The dynamic URL is invalid or breaks the external page policy.
    InvalidWindowUrl,
    /// The main window or the default icon is missing.
    WindowResourceMissing,
    /// No child web view carries the requested label.
    ChildWebviewNotFound,
    /// A failure of the platform process layer.
    Platform(PlatformError),
}

/// The text that each error shows (its `Display`).
pub open spec fn backend_message(e: BackendError) -> Seq<char> {
    match e {
        BackendError::InvalidTimeout => "超时时间必须大于零"@,
        BackendError::InvalidHost => "主机地址无效"@,
        BackendError::InvalidProtocol => "协议无效"@,
        BackendError::InvalidPort => "端口无效"@,
        BackendError::ServiceUnavailable => "服务不可用"@,
        BackendError::PortOccupied => "端口已被占用"@,
        BackendError::OperationInProgress => "另一个生命周期操作正在进行"@,
        BackendError::DshAlreadyRunning => "DSH 已经在运行"@,
        BackendError::ProcessNotRunning => "DSH 当前未运行"@,
        BackendError::DshSpawnFailed => "无法启动 DSH 进程"@,
        BackendError::DshStartTimeout => "DSH 启动超时"@,
        BackendError::DshExitedEarly => "DSH 在就绪前退出"@,
        BackendError::OpenLogsFailed => "无法打开日志目录"@,
        BackendError::LogDirCreateFailed => "无法创建日志目录"@,
        BackendError::Tray(detail) => "托盘或窗口操作失败: "@ + detail@,
        BackendError::Window(detail) => "URL 窗口操作失败: "@ + detail@,
        BackendError::WindowStatePoisoned => "URL 窗口状态不可用"@,
        BackendError::InvalidWindowUrl => "URL 无效"@,
        BackendError::WindowResourceMissing => "主窗口或默认图标不可用"@,
        BackendError::ChildWebviewNotFound => "找不到子 WebView"@,
        BackendError::Platform(p) => platform_message(p),
    }
}

impl BackendError {
    /// The text this error shows (what `to_string` gives).
    pub fn message(&self) -> (r: String)
        ensures
            r@ == backend_message(*self),
    {
        match self {
            BackendError::InvalidTimeout => string_of("超时时间必须大于零"),
            BackendError::InvalidHost => string_of("主机地址无效"),
            BackendError::InvalidProtocol => string_of("协议无效"),
            BackendError::InvalidPort => string_of("端口无效"),
            BackendError::ServiceUnavailable => string_of("服务不可用"),
            BackendError::PortOccupied => string_of("端口已被占用"),
            BackendError::OperationInProgress => string_of("另一个生命周期操作正在进行"),
            BackendError::DshAlreadyRunning => string_of("DSH 已经在运行"),
            BackendError::ProcessNotRunning => string_of("DSH 当前未运行"),
            BackendError::DshSpawnFailed => string_of("无法启动 DSH 进程"),
            BackendError::DshStartTimeout => string_of("DSH 启动超时"),
            BackendError::DshExitedEarly => string_of("DSH 在就绪前退出"),
            BackendError::OpenLogsFailed => string_of("无法打开日志目录"),
            BackendError::LogDirCreateFailed => string_of("无法创建日志目录"),
            BackendError::Tray(detail) => {
                let mut s = string_of("托盘或窗口操作失败: ");
                push_str(&mut s, detail.as_str());
                s
            },
            BackendError::Window(detail) => {
                let mut s = string_of("URL 窗口操作失败: ");
                push_str(&mut s, detail.as_str());
                s
            },
            BackendError::WindowStatePoisoned => string_of("URL 窗口状态不可用"),
            BackendError::InvalidWindowUrl => string_of("URL 无效"),
            BackendError::WindowResourceMissing => string_of("主窗口或默认图标不可用"),
            BackendError::ChildWebviewNotFound => string_of("找不到子 WebView"),
            BackendError::Platform(p) => p.message(),
        }
    }
}

} // verus!
