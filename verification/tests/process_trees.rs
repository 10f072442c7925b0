use deepseek_harness_gui::platform::unix::{
    check_spawned_child, map_signal_result, process_group_target, rollback_spawn,
    spawn_dsh_command as unix_command, terminate_step as unix_step, ESRCH, SIGKILL, SIGTERM,
};
use deepseek_harness_gui::platform::windows::{
    resume_outcome, spawn_dsh_command as windows_command, terminate_job_result,
    terminate_step as windows_step, threads_to_resume, ThreadEntry, ERROR_INVALID_HANDLE,
    JOB_TERMINATION_EXIT_CODE,
};
use deepseek_harness_gui::platform::{
    other_failure, port_text, try_wait, IoFailure, PlatformError, ProcessExit, ProcessKind,
    TerminateAction, TerminateEvent, TerminateStage, WaitFailure,
};

fn os_error(code: i32) -> IoFailure {
    IoFailure { kind: std::io::ErrorKind::Other, message: format!("os error {code}"), raw_os_error: Some(code) }
}

fn exit(code: i32) -> ProcessExit {
    ProcessExit { exit_code: Some(code) }
}

fn control(e: &IoFailure) -> PlatformError {
    PlatformError::Control { kind: ProcessKind::Dsh, source: IoFailure { kind: e.kind, message: e.message.clone(), raw_os_error: e.raw_os_error } }
}

#[test]
fn dsh_command_lines() {
    let c = unix_command("/usr/local/bin/dsh", 8080);
    assert_eq!(c.program, "/usr/local/bin/dsh");
    assert_eq!(c.args, vec!["--profile", "web", "--port", "8080"]);

    let c = windows_command("dsh", 1);
    assert_eq!(c.program, "cmd.exe");
    assert_eq!(c.args, vec!["/D", "/S", "/C", "dsh --profile web --port 1"]);

    assert_eq!(port_text(0), "0");
    assert_eq!(port_text(65535), "65535");
}

#[test]
fn spawn_checks_in_order() {
    assert_eq!(check_spawned_child(Some(4242), true, true), Ok(4242));
    assert_eq!(check_spawned_child(None, false, false).unwrap_err().message, "子进程没有可用 PID");
    assert_eq!(
        check_spawned_child(Some(0x8000_0000), false, true).unwrap_err().message,
        "子进程 PID 超出平台范围"
    );
    assert_eq!(check_spawned_child(Some(0x7fff_ffff), true, true), Ok(0x7fff_ffff));
    assert_eq!(check_spawned_child(Some(7), false, false).unwrap_err().message, "子进程 stdout 管道不可用");
    assert_eq!(check_spawned_child(Some(7), true, false).unwrap_err().message, "子进程 stderr 管道不可用");
}

#[test]
fn spawn_rollback_keeps_the_right_failure() {
    let first = other_failure("子进程 stderr 管道不可用");
    match rollback_spawn(Ok(()), ProcessKind::Dsh, first) {
        PlatformError::Spawn { source, .. } => assert_eq!(source.message, "子进程 stderr 管道不可用"),
        other => panic!("unexpected {other:?}"),
    }
    match rollback_spawn(Err(os_error(1)), ProcessKind::Dsh, other_failure("x")) {
        PlatformError::Spawn { source, .. } => assert_eq!(source, os_error(1)),
        other => panic!("unexpected {other:?}"),
    }
}

#[test]
fn signal_results() {
    assert_eq!(process_group_target(1234), -1234);
    assert!(map_signal_result(0, os_error(1), ProcessKind::Dsh).is_ok());
    assert!(map_signal_result(-1, os_error(ESRCH), ProcessKind::Dsh).is_ok());
    match map_signal_result(-1, os_error(1), ProcessKind::Dsh) {
        Err(PlatformError::Control { source, .. }) => assert_eq!(source, os_error(1)),
        other => panic!("unexpected {other:?}"),
    }
    let no_code = IoFailure { kind: std::io::ErrorKind::Other, message: "x".to_string(), raw_os_error: None };
    assert!(map_signal_result(-1, no_code, ProcessKind::Dsh).is_err());
}

#[test]
fn job_results() {
    assert!(terminate_job_result(true, os_error(5), ProcessKind::Dsh).is_ok());
    assert!(terminate_job_result(false, os_error(ERROR_INVALID_HANDLE), ProcessKind::Dsh).is_ok());
    assert!(matches!(
        terminate_job_result(false, os_error(5), ProcessKind::Dsh),
        Err(PlatformError::Control { .. })
    ));
    assert!(resume_outcome(true, ProcessKind::Dsh).is_ok());
    match resume_outcome(false, ProcessKind::Dsh) {
        Err(PlatformError::Control { source, .. }) => assert_eq!(source.message, "未找到挂起的初始线程"),
        other => panic!("unexpected {other:?}"),
    }
    assert_eq!(JOB_TERMINATION_EXIT_CODE, 1);
}

#[test]
fn threads_of_the_process() {
    let entries = vec![
        ThreadEntry { owner_process_id: 10, thread_id: 1 },
        ThreadEntry { owner_process_id: 11, thread_id: 2 },
        ThreadEntry { owner_process_id: 10, thread_id: 3 },
    ];
    assert_eq!(threads_to_resume(&entries, 10), vec![1, 3]);
    assert_eq!(threads_to_resume(&entries, 11), vec![2]);
    assert!(threads_to_resume(&entries, 12).is_empty());
    assert!(threads_to_resume(&Vec::new(), 10).is_empty());
}

#[test]
fn try_wait_reads_the_cache() {
    assert_eq!(try_wait(&None, false, ProcessKind::Dsh).unwrap(), None);
    assert_eq!(try_wait(&Some(Ok(exit(3))), false, ProcessKind::Dsh).unwrap(), Some(exit(3)));
    let cached = WaitFailure::from_io(os_error(10));
    assert_eq!(cached.message, "os error 10");
    match try_wait(&Some(Err(cached)), false, ProcessKind::Dsh) {
        Err(PlatformError::Wait { source, .. }) => {
            assert_eq!(source.message, "os error 10");
            assert_eq!(source.raw_os_error, None);
        }
        other => panic!("unexpected {other:?}"),
    }
    match try_wait(&Some(Ok(exit(0))), true, ProcessKind::Dsh) {
        Err(PlatformError::Wait { source, .. }) => assert_eq!(source.message, "进程退出状态锁已损坏"),
        other => panic!("unexpected {other:?}"),
    }
}

#[test]
fn wait_failure_round_trip_keeps_kind_and_text() {
    let first = IoFailure { kind: std::io::ErrorKind::Interrupted, message: "interrupted".to_string(), raw_os_error: Some(4) };
    let again = WaitFailure::from_io(first).to_io();
    assert_eq!(again.kind, std::io::ErrorKind::Interrupted);
    assert_eq!(again.message, "interrupted");
    assert_eq!(again.raw_os_error, None);
}

#[test]
fn platform_error_texts() {
    let e = PlatformError::Spawn { kind: ProcessKind::Dsh, source: other_failure("boom") };
    assert_eq!(e.message(), "启动 Dsh 进程失败: boom");
    assert_eq!(control(&other_failure("x")).message(), "控制 Dsh 进程树失败: x");
    let e = PlatformError::Wait { kind: ProcessKind::Dsh, source: other_failure("w") };
    assert_eq!(e.message(), "等待 Dsh 进程失败: w");
    let e = PlatformError::BuildCommand { kind: ProcessKind::Dsh, source: other_failure("b") };
    assert_eq!(e.message(), "构建 Dsh 命令失败: b");
}

fn returned(a: &TerminateAction) -> Option<Result<ProcessExit, String>> {
    match a {
        TerminateAction::Return(Ok(e)) => Some(Ok(*e)),
        TerminateAction::Return(Err(e)) => Some(Err(e.message())),
        _ => None,
    }
}

#[test]
fn unix_termination_with_grace_then_kill() {
    let pgid = 500;
    let (s, a) = unix_step(TerminateStage::CheckBeforeLock, TerminateEvent::Start, pgid, 3000);
    assert!(matches!(a, TerminateAction::ReadCache));
    let (s, a) = unix_step(s, TerminateEvent::Cache(Ok(None)), pgid, 3000);
    assert!(matches!(a, TerminateAction::Lock));
    let (s, a) = unix_step(s, TerminateEvent::Locked, pgid, 3000);
    assert!(matches!(a, TerminateAction::ReadCache));
    let (s, a) = unix_step(s, TerminateEvent::Cache(Ok(None)), pgid, 3000);
    assert!(matches!(a, TerminateAction::Signal { target: -500, signal } if signal == SIGTERM));
    let (s, a) = unix_step(s, TerminateEvent::Signaled(Ok(())), pgid, 3000);
    assert!(matches!(a, TerminateAction::WaitWithin { grace_ms: 3000 }));
    let (s, a) = unix_step(s, TerminateEvent::Waited(None), pgid, 3000);
    assert!(matches!(a, TerminateAction::ReadCache));
    let (s, a) = unix_step(s, TerminateEvent::Cache(Ok(None)), pgid, 3000);
    assert!(matches!(a, TerminateAction::Signal { target: -500, signal } if signal == SIGKILL));
    let (s, a) = unix_step(s, TerminateEvent::Signaled(Ok(())), pgid, 3000);
    assert!(matches!(a, TerminateAction::WaitForever));
    let (s, a) = unix_step(s, TerminateEvent::Waited(Some(Ok(ProcessExit { exit_code: None }))), pgid, 3000);
    assert!(matches!(s, TerminateStage::Done));
    assert_eq!(returned(&a), Some(Ok(ProcessExit { exit_code: None })));
}

#[test]
fn unix_termination_short_paths() {
    // Already exited before the lock.
    let (s, a) = unix_step(TerminateStage::CheckBeforeLock, TerminateEvent::Cache(Ok(Some(exit(0)))), 9, 10);
    assert!(matches!(s, TerminateStage::Done));
    assert_eq!(returned(&a), Some(Ok(exit(0))));
    // Exited while the lock was taken.
    let (s, a) = unix_step(TerminateStage::CheckUnderLock, TerminateEvent::Cache(Ok(Some(exit(2)))), 9, 10);
    assert!(matches!(s, TerminateStage::Done));
    assert_eq!(returned(&a), Some(Ok(exit(2))));
    // Exited within the grace period.
    let (s, a) = unix_step(TerminateStage::Grace, TerminateEvent::Waited(Some(Ok(exit(143)))), 9, 10);
    assert!(matches!(s, TerminateStage::Done));
    assert_eq!(returned(&a), Some(Ok(exit(143))));
    // Exited between the grace period and the kill: no kill, only the wait.
    let (s, a) = unix_step(TerminateStage::CheckAfterGrace, TerminateEvent::Cache(Ok(Some(exit(1)))), 9, 10);
    assert!(matches!(s, TerminateStage::Final));
    assert!(matches!(a, TerminateAction::WaitForever));
    // A failed signal ends the call with its error.
    let (s, a) = unix_step(TerminateStage::Terminating, TerminateEvent::Signaled(Err(control(&os_error(1)))), 9, 10);
    assert!(matches!(s, TerminateStage::Done));
    assert_eq!(returned(&a), Some(Err("控制 Dsh 进程树失败: os error 1".to_string())));
    // Events that cannot occur are ignored.
    let (_, a) = unix_step(TerminateStage::Grace, TerminateEvent::Locked, 9, 10);
    assert!(matches!(a, TerminateAction::Ignore));
}

#[test]
fn windows_termination_of_a_job() {
    let (s, a) = windows_step(TerminateStage::CheckBeforeLock, TerminateEvent::Start);
    assert!(matches!(a, TerminateAction::ReadCache));
    let (s, a) = windows_step(s, TerminateEvent::Cache(Ok(None)));
    assert!(matches!(a, TerminateAction::Lock));
    let (s, a) = windows_step(s, TerminateEvent::Locked);
    assert!(matches!(a, TerminateAction::ReadCache));
    let (s, a) = windows_step(s, TerminateEvent::Cache(Ok(None)));
    assert!(matches!(a, TerminateAction::TerminateJob { exit_code: 1 }));
    let (s, a) = windows_step(s, TerminateEvent::Signaled(Ok(())));
    assert!(matches!(a, TerminateAction::WaitForever));
    let (s, a) = windows_step(s, TerminateEvent::Waited(Some(Ok(exit(1)))));
    assert!(matches!(s, TerminateStage::Done));
    assert_eq!(returned(&a), Some(Ok(exit(1))));
}
