//! Verified core of the DeepSeek Harness desktop shell: the decisions that the
//! shell makes around the `dsh` process, the remote connection form, the log
//! directories and the embedded web views, each stated as a contract.

pub mod text;
pub mod url_parts;
pub mod platform;
pub mod backend;
pub mod ipc;
pub mod protocol;
pub mod runtime;
pub mod logs;
pub mod os;
pub mod process;
