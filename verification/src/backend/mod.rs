//! The business layer: errors, the `dsh` lifecycle, network probes, log
//! directories, the tray and the embedded web views.

pub mod error;
pub mod harness;
pub mod network;
pub mod logs;
pub mod tray;
pub mod webview;
