use deepseek_harness_gui::backend::error::BackendError;
use deepseek_harness_gui::backend::harness::{
    begin_start, create_harness_state, mark_running, record_exit, reset_if_current,
    start_dsh_begin, start_dsh_step, stop_dsh_begin, stop_dsh_finish, stream_log, HarnessPhase,
    HarnessState, StartAction, StartEvent, StartRun, StopAction,
};
use deepseek_harness_gui::backend::tray::{quit_app, tray_menu_action, QuitPlan, TrayMenuAction};
use deepseek_harness_gui::logs::Level;
use deepseek_harness_gui::platform::{IoFailure, PlatformError, ProcessExit, ProcessKind};

fn failure(message: &str) -> IoFailure {
    IoFailure {
        kind: std::io::ErrorKind::NotFound,
        message: message.to_string(),
        raw_os_error: None,
    }
}

fn step(
    state: &mut HarnessState<u32>,
    run: StartRun,
    event: StartEvent<u32>,
) -> (StartRun, StartAction) {
    start_dsh_step(state, run, event)
}

fn begin(state: &mut HarnessState<u32>, port: u16) -> StartRun {
    let (run, action) = start_dsh_begin(state, port);
    assert!(matches!(action, StartAction::ProbePort { port: p, timeout_ms: 500 } if p == port));
    run.unwrap()
}

fn assert_stopped(state: &HarnessState<u32>) {
    assert_eq!(state.lifecycle.phase, HarnessPhase::Stopped);
    assert!(state.lifecycle.process.is_none());
    assert!(!state.operation_held);
}

/// Start and stop in the order the lifecycle is used: a failed spawn, a busy
/// port, a start, a stop, another start, and an exit from outside.
#[test]
fn lifecycle_in_required_order() {
    let mut state: HarnessState<u32> = create_harness_state();

    // dsh is not installed: the spawn fails.
    let run = begin(&mut state, 4100);
    let (run, action) = step(&mut state, run, StartEvent::PortProbed(Ok(false)));
    assert!(matches!(action, StartAction::Spawn { port: 4100 }));
    let (_, action) = step(
        &mut state,
        run,
        StartEvent::Spawned(Err(PlatformError::Spawn { kind: ProcessKind::Dsh, source: failure("no dsh") })),
    );
    assert!(matches!(action, StartAction::Finish(Err(BackendError::DshSpawnFailed))));
    assert_stopped(&state);

    // The port is taken.
    let run = begin(&mut state, 4101);
    let (_, action) = step(&mut state, run, StartEvent::PortProbed(Ok(true)));
    assert!(matches!(action, StartAction::Finish(Err(BackendError::PortOccupied))));
    assert_stopped(&state);

    // A normal start: not ready at first, then ready.
    let run = begin(&mut state, 4101);
    let (run, _) = step(&mut state, run, StartEvent::PortProbed(Ok(false)));
    let (run, action) = step(&mut state, run, StartEvent::Spawned(Ok(77)));
    assert!(matches!(action, StartAction::MonitorThenPollExit { generation: 3 }));
    assert_eq!(state.lifecycle.process, Some(77));
    let (run, action) = step(&mut state, run, StartEvent::ExitPolled(Ok(None)));
    assert!(matches!(action, StartAction::ProbeReady { port: 4101, timeout_ms: 500 }));
    let (run, action) = step(&mut state, run, StartEvent::ReadyProbed(Ok(false)));
    assert!(matches!(action, StartAction::CheckDeadline));
    let (run, action) = step(&mut state, run, StartEvent::DeadlineChecked(false));
    assert!(matches!(action, StartAction::Sleep { ms: 200 }));
    let (run, action) = step(&mut state, run, StartEvent::Slept);
    assert!(matches!(action, StartAction::PollExit));
    let (run, _) = step(&mut state, run, StartEvent::ExitPolled(Ok(None)));
    let (_, action) = step(&mut state, run, StartEvent::ReadyProbed(Ok(true)));
    match action {
        StartAction::Finish(Ok(address)) => assert_eq!(address, "http://127.0.0.1:4101"),
        _ => panic!("expected the address"),
    }
    assert_eq!(state.lifecycle.phase, HarnessPhase::Running);
    assert!(!state.operation_held);

    // A second start is refused while running.
    let (run, action) = start_dsh_begin(&mut state, 4101);
    assert!(run.is_none());
    assert!(matches!(action, StartAction::Finish(Err(BackendError::DshAlreadyRunning))));

    // Stop it.
    let (generation, action) = stop_dsh_begin(&mut state);
    let generation = generation.unwrap();
    assert!(matches!(action, StopAction::Terminate { process: 77, grace_ms: 5000 }));
    assert_eq!(state.lifecycle.phase, HarnessPhase::Stopping);
    let result = stop_dsh_finish(&mut state, generation, Ok(ProcessExit { exit_code: Some(0) }));
    assert!(result.is_ok());
    assert_stopped(&state);

    // Stopping again: nothing runs.
    let (_, action) = stop_dsh_begin(&mut state);
    assert!(matches!(action, StopAction::Finish(Err(BackendError::ProcessNotRunning))));
    assert_stopped(&state);

    // Start again, then the process is killed from outside: the monitor resets.
    let run = begin(&mut state, 4101);
    let (run, _) = step(&mut state, run, StartEvent::PortProbed(Ok(false)));
    let (run, _) = step(&mut state, run, StartEvent::Spawned(Ok(78)));
    let (run, _) = step(&mut state, run, StartEvent::ExitPolled(Ok(None)));
    let (_, action) = step(&mut state, run, StartEvent::ReadyProbed(Ok(true)));
    assert!(matches!(action, StartAction::Finish(Ok(_))));
    let current = state.lifecycle.generation;
    record_exit(&mut state.lifecycle, current - 1);
    assert_eq!(state.lifecycle.phase, HarnessPhase::Running);
    record_exit(&mut state.lifecycle, current);
    assert_stopped(&state);
}

#[test]
fn start_refusals() {
    let mut state: HarnessState<u32> = create_harness_state();
    let (run, action) = start_dsh_begin(&mut state, 0);
    assert!(run.is_none());
    assert!(matches!(action, StartAction::Finish(Err(BackendError::InvalidPort))));
    state.operation_held = true;
    let (run, action) = start_dsh_begin(&mut state, 3080);
    assert!(run.is_none());
    assert!(matches!(action, StartAction::Finish(Err(BackendError::OperationInProgress))));
    assert!(state.operation_held);
    let (_, action) = stop_dsh_begin(&mut state);
    assert!(matches!(action, StopAction::Finish(Err(BackendError::OperationInProgress))));
}

#[test]
fn start_timeout_and_early_exit() {
    let mut state: HarnessState<u32> = create_harness_state();
    let run = begin(&mut state, 5000);
    let (run, _) = step(&mut state, run, StartEvent::PortProbed(Ok(false)));
    let (run, _) = step(&mut state, run, StartEvent::Spawned(Ok(1)));
    let (run, _) = step(&mut state, run, StartEvent::ExitPolled(Ok(None)));
    let (run, _) = step(&mut state, run, StartEvent::ReadyProbed(Ok(false)));
    let (run, action) = step(&mut state, run, StartEvent::DeadlineChecked(true));
    assert!(matches!(action, StartAction::Terminate { grace_ms: 5000 }));
    let (_, action) = step(&mut state, run, StartEvent::Terminated(Ok(ProcessExit { exit_code: None })));
    assert!(matches!(action, StartAction::Finish(Err(BackendError::DshStartTimeout))));
    assert_stopped(&state);

    let run = begin(&mut state, 5000);
    let (run, _) = step(&mut state, run, StartEvent::PortProbed(Ok(false)));
    let (run, _) = step(&mut state, run, StartEvent::Spawned(Ok(2)));
    let (_, action) = step(&mut state, run, StartEvent::ExitPolled(Ok(Some(ProcessExit { exit_code: Some(1) }))));
    assert!(matches!(action, StartAction::Finish(Err(BackendError::DshExitedEarly))));
    assert_stopped(&state);
}

#[test]
fn stale_generation_cannot_reset_new_instance() {
    let mut state: HarnessState<u32> = create_harness_state();
    let first = begin_start(&mut state.lifecycle).ok().unwrap();
    reset_if_current(&mut state.lifecycle, first);
    let second = begin_start(&mut state.lifecycle).ok().unwrap();
    assert_ne!(first, second);
    state.lifecycle.process = Some(9);
    reset_if_current(&mut state.lifecycle, first);
    assert_eq!(state.lifecycle.phase, HarnessPhase::Starting);
    assert!(mark_running(&mut state.lifecycle, first).is_err());
    assert!(mark_running(&mut state.lifecycle, second).is_ok());
    assert_eq!(state.lifecycle.phase, HarnessPhase::Running);
}

#[test]
fn generation_wraps() {
    let mut state: HarnessState<u32> = create_harness_state();
    state.lifecycle.generation = u64::MAX;
    assert_eq!(begin_start(&mut state.lifecycle).ok(), Some(0));
}

#[test]
fn stream_log_levels() {
    let (level, line) = stream_log("stderr", "boom");
    assert!(level == Level::Error);
    assert_eq!(line, "[dsh][stderr] boom");
    let (level, line) = stream_log("stdout", "ok");
    assert!(level == Level::Info);
    assert_eq!(line, "[dsh][stdout] ok");
}

#[test]
fn tray_menu_and_quit() {
    assert!(tray_menu_action("show") == TrayMenuAction::Show);
    assert!(tray_menu_action("quit") == TrayMenuAction::Quit);
    assert!(tray_menu_action("other") == TrayMenuAction::Nothing);
    let mut state: HarnessState<u32> = create_harness_state();
    let mut exiting = false;
    assert!(quit_app(&mut exiting, &state.lifecycle) == QuitPlan::Exit);
    assert!(exiting);
    assert!(quit_app(&mut exiting, &state.lifecycle) == QuitPlan::AlreadyExiting);
    let mut exiting = false;
    state.lifecycle.phase = HarnessPhase::Starting;
    assert!(quit_app(&mut exiting, &state.lifecycle) == QuitPlan::StopThenExit);
}

#[test]
fn failed_probes_and_exit_reads_return_to_stopped() {
    let mut state: HarnessState<u32> = create_harness_state();

    // The port probe reports a caller error.
    let run = begin(&mut state, 6000);
    let (_, action) = step(&mut state, run, StartEvent::PortProbed(Err(BackendError::InvalidTimeout)));
    assert!(matches!(action, StartAction::Finish(Err(BackendError::InvalidTimeout))));
    assert_stopped(&state);

    // Reading the exit status fails after the spawn.
    let run = begin(&mut state, 6000);
    let (run, _) = step(&mut state, run, StartEvent::PortProbed(Ok(false)));
    let (run, _) = step(&mut state, run, StartEvent::Spawned(Ok(9)));
    let (_, action) = step(
        &mut state,
        run,
        StartEvent::ExitPolled(Err(PlatformError::Wait { kind: ProcessKind::Dsh, source: failure("poisoned") })),
    );
    assert!(matches!(action, StartAction::Finish(Err(BackendError::Platform(_)))));
    assert_stopped(&state);

    // The readiness probe fails.
    let run = begin(&mut state, 6000);
    let (run, _) = step(&mut state, run, StartEvent::PortProbed(Ok(false)));
    let (run, _) = step(&mut state, run, StartEvent::Spawned(Ok(10)));
    let (run, _) = step(&mut state, run, StartEvent::ExitPolled(Ok(None)));
    let (_, action) = step(&mut state, run, StartEvent::ReadyProbed(Err(BackendError::InvalidProtocol)));
    assert!(matches!(action, StartAction::Finish(Err(BackendError::InvalidProtocol))));
    assert_stopped(&state);

    // The next start is not refused.
    let run = begin(&mut state, 6000);
    assert_eq!(state.lifecycle.phase, HarnessPhase::Starting);
    assert_eq!(run.port, 6000);
}
