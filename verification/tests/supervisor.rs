use deepseek_harness_gui::protocol::{Phase, Snapshot, EVENT_CLOSE_REQUESTED, EVENT_RUNTIME_STATE};
use deepseek_harness_gui::runtime::{
    apply_env_result, apply_version_result, begin_env_check, begin_version_check, command_log_line,
    emit_fail, emit_state, exit_code_text, install_command, is_local_host, latest_version_url,
    parse_local_version, parse_target, pipe_reader_line, probe_plan, remote_version_from_body,
    sanitize, stream_capture, version_command, worker_step, EnvTool, Intent, StartTarget,
    StateUpdate, Supervisor, VersionSource, WorkerAction, WorkerEvent, WorkerStage,
};

#[test]
fn local_version_forms() {
    assert_eq!(parse_local_version("v0.1.0-rc.6").as_deref(), Some("0.1.0-rc.6"));
    assert_eq!(parse_local_version("0.1.0-rc.6").as_deref(), Some("0.1.0-rc.6"));
    assert_eq!(parse_local_version("  v1.2.3\n").as_deref(), Some("1.2.3"));
    assert_eq!(parse_local_version("vv1").as_deref(), Some("v1"));
    assert_eq!(parse_local_version("v"), None);
    assert_eq!(parse_local_version("   "), None);
}

#[test]
fn sanitize_drops_control_characters() {
    assert_eq!(sanitize("a\u{1b}[31mred\u{7}\tok\n"), "a[31mred\tok\n");
    assert_eq!(sanitize("\r\u{0}"), "");
    assert_eq!(sanitize("中文 ✓"), "中文 ✓");
    let once = sanitize("x\u{8}y\u{1f}z");
    assert_eq!(sanitize(&once), once);
}

#[test]
fn local_hosts() {
    assert!(is_local_host("localhost"));
    assert!(is_local_host(" LocalHost "));
    assert!(is_local_host("127.0.0.1"));
    assert!(is_local_host("::1"));
    assert!(!is_local_host("127.0.0.2"));
    assert!(!is_local_host("10.0.0.1"));
    assert!(matches!(parse_target("LOCALHOST", 3080), StartTarget::Local { port: 3080 }));
    match parse_target(" Example.COM ", 80) {
        StartTarget::Remote { host, port } => {
            assert_eq!(host, "example.com");
            assert_eq!(port, 80);
        }
        _ => panic!("expected a remote target"),
    }
}

#[test]
fn commands() {
    let c = install_command(false);
    assert_eq!(c.program, "npm");
    assert_eq!(c.display, "npm install --verbose -g @deepseek-ai/dsh --registry=https://registry.npmjs.org");
    assert_eq!(c.args, vec!["install", "--verbose", "-g", "@deepseek-ai/dsh", "--registry", "https://registry.npmjs.org"]);
    let c = install_command(true);
    assert_eq!(c.args[5], "https://registry.npmmirror.com");
    let c = version_command("node -v", "node", "-v");
    assert_eq!((c.display.as_str(), c.program.as_str(), c.args.clone()), ("node -v", "node", vec!["-v".to_string()]));
    assert_eq!(command_log_line("dsh -V"), "[cmd] dsh -V");
}

#[test]
fn capture_and_reader_lines() {
    assert_eq!(stream_capture(true, "  v22.1.0\n").as_deref(), Some("v22.1.0"));
    assert_eq!(stream_capture(false, "v22.1.0"), None);
    let (logged, collected) = pipe_reader_line("[stdout] ", "1.2\u{7}", true);
    assert_eq!(logged, "[stdout] 1.2");
    assert_eq!(collected.as_deref(), Some("1.2\n"));
    let (logged, collected) = pipe_reader_line("[stderr] ", "\u{7}", true);
    assert_eq!(logged, "[stderr] ");
    assert_eq!(collected, None);
    let (_, collected) = pipe_reader_line("[stderr] ", "warn", false);
    assert_eq!(collected, None);
}

#[test]
fn probe_plans() {
    assert!(probe_plan("127.0.0.1", 0).is_none());
    assert!(probe_plan("localhost", 3000).is_none());
    assert!(probe_plan("example.com", 3000).is_none());
    let p = probe_plan("127.0.0.1", 3000).unwrap();
    assert_eq!(p.ip, (127, 0, 0, 1));
    assert_eq!(p.candidates.len(), 1);
    assert_eq!(p.candidates[0].protocol, "http");
    assert_eq!(p.candidates[0].url, "http://127.0.0.1:3000/");
    let p = probe_plan(" 10.0.0.5 ", 8080).unwrap();
    assert_eq!(p.candidates.len(), 2);
    assert_eq!(p.candidates[0].protocol, "https");
    assert_eq!(p.candidates[0].url, "https:// 10.0.0.5 :8080/");
    assert_eq!(p.candidates[1].protocol, "http");
}

#[test]
fn remote_version_queries() {
    assert_eq!(latest_version_url("https://registry.npmjs.org"), "https://registry.npmjs.org/@deepseek-ai/dsh/latest");
    assert_eq!(remote_version_from_body(r#"{"name":"@deepseek-ai/dsh","version":"0.2.1"}"#).as_deref(), Some("0.2.1"));
    assert_eq!(remote_version_from_body(r#"{"version":3}"#), None);
    assert_eq!(remote_version_from_body("not json"), None);
}

#[test]
fn exit_code_texts() {
    assert_eq!(exit_code_text(None), "None");
    assert_eq!(exit_code_text(Some(0)), "Some(0)");
    assert_eq!(exit_code_text(Some(-1073741510)), "Some(-1073741510)");
    assert_eq!(exit_code_text(Some(i32::MIN)), format!("{:?}", Some(i32::MIN)));
}

#[test]
fn supervisor_queue_and_snapshot() {
    let mut s = Supervisor::new();
    assert!(s.log_dir().is_none());
    s.check_env();
    s.install(true);
    s.start("localhost".to_string(), 3080);
    assert!(matches!(s.next_intent(), Some(Intent::CheckEnv)));
    assert!(matches!(s.next_intent(), Some(Intent::Install { mirror: true })));
    assert!(matches!(s.next_intent(), Some(Intent::Start { ref host, port: 3080 }) if host == "localhost"));
    assert!(s.next_intent().is_none());
    s.spawn_worker();
    assert!(s.worker_started);
    let snap = s.snapshot();
    assert!(snap.phase == Phase::Idle);
    assert_eq!(EVENT_RUNTIME_STATE, "runtime-state");
    assert_eq!(EVENT_CLOSE_REQUESTED, "close-requested");
}

#[test]
fn snapshot_updates() {
    let mut snap = Snapshot::default();
    snap.node = Some("v22".to_string());
    emit_state(
        &mut snap,
        StateUpdate { port: Some(3080), elapsed: Some(4), ..StateUpdate::new(Phase::Starting, "正在启动".to_string()) },
    );
    assert!(snap.phase == Phase::Starting);
    assert_eq!(snap.port, Some(3080));
    assert_eq!(snap.elapsed, Some(4));
    assert_eq!(snap.node.as_deref(), Some("v22"));
    emit_fail(&mut snap, None, "失败".to_string());
    assert!(snap.phase == Phase::Failed);
    assert_eq!(snap.port, None);
    assert_eq!(snap.elapsed, None);
    assert_eq!(snap.detail, "失败");
}

#[test]
fn check_rounds_drop_stale_results() {
    let mut s = Supervisor::new();
    s.shared.snapshot.node = Some("old".to_string());
    let first = begin_env_check(&mut s.shared);
    assert_eq!(s.shared.snapshot.node, None);
    let second = begin_env_check(&mut s.shared);
    apply_env_result(&mut s.shared, first, EnvTool::Node, Some("v1".to_string()));
    assert_eq!(s.shared.snapshot.node, None);
    apply_env_result(&mut s.shared, second, EnvTool::Npm, Some("10.0".to_string()));
    assert_eq!(s.shared.snapshot.npm.as_deref(), Some("10.0"));

    let round = begin_version_check(&mut s.shared);
    assert!(!s.shared.snapshot.version_checked);
    apply_version_result(&mut s.shared, round, VersionSource::Official, None);
    assert!(s.shared.snapshot.version_error);
    assert!(s.shared.snapshot.version_checked);
    apply_version_result(&mut s.shared, round, VersionSource::Local, Some("0.1.0".to_string()));
    assert_eq!(s.shared.snapshot.local.as_deref(), Some("0.1.0"));
    let round2 = begin_version_check(&mut s.shared);
    apply_version_result(&mut s.shared, round, VersionSource::Mirror, Some("9".to_string()));
    assert_eq!(s.shared.snapshot.remote_mirror, None);
    apply_version_result(&mut s.shared, round2, VersionSource::Official, Some("0.2.0".to_string()));
    assert!(!s.shared.snapshot.version_error);
    assert_eq!(s.shared.snapshot.remote.as_deref(), Some("0.2.0"));
}

fn emitted(a: &WorkerAction) -> (Phase, Option<u16>, Option<String>, String, Option<u64>) {
    match a {
        WorkerAction::Emit(u) => (u.phase, u.port, u.url.clone(), u.detail.clone(), u.elapsed),
        _ => panic!("expected an emit"),
    }
}

#[test]
fn worker_local_start_to_ready_and_exit() {
    let (stage, acts) = worker_step(WorkerStage::Setup, WorkerEvent::SessionCreated(Some("/logs/1".to_string())));
    assert!(matches!(stage, WorkerStage::Idle));
    assert_eq!(acts.len(), 5);
    assert!(matches!(acts[0], WorkerAction::AttachSession(ref d) if d == "/logs/1"));
    assert_eq!(emitted(&acts[3]).3, "就绪");

    let (stage, acts) = worker_step(stage, WorkerEvent::Received(Some(Intent::Start { host: "localhost".to_string(), port: 3080 })));
    assert!(matches!(stage, WorkerStage::Spawning { port: 3080 }));
    assert!(matches!(acts[0], WorkerAction::Spawn { port: 3080 }));

    let (stage, acts) = worker_step(stage, WorkerEvent::Spawned(Ok(())));
    assert!(matches!(stage, WorkerStage::Starting { port: 3080 }));
    let e = emitted(&acts[0]);
    assert!(e.0 == Phase::Starting && e.1 == Some(3080) && e.4 == Some(0));

    let (stage, acts) = worker_step(stage, WorkerEvent::ExitPolled(Ok(None)));
    assert!(matches!(stage, WorkerStage::Probing { port: 3080 }));
    assert!(matches!(acts[0], WorkerAction::ProbeLocal { port: 3080 }));

    let (stage, acts) = worker_step(stage, WorkerEvent::LocalProbed { responded: false, elapsed_nanos: 2_500_000_000 });
    assert!(matches!(stage, WorkerStage::Starting { port: 3080 }));
    assert_eq!(emitted(&acts[0]).4, Some(2));
    assert!(matches!(acts[1], WorkerAction::Sleep { ms: 500 }));

    let (stage, _) = worker_step(stage, WorkerEvent::ExitPolled(Ok(None)));
    let (stage, acts) = worker_step(stage, WorkerEvent::LocalProbed { responded: true, elapsed_nanos: 3_000_000_000 });
    assert!(matches!(stage, WorkerStage::Monitoring { port: 3080 }));
    let e = emitted(&acts[0]);
    assert!(e.0 == Phase::Ready);
    assert_eq!(e.2.as_deref(), Some("http://127.0.0.1:3080/"));
    assert_eq!(e.3, "服务已就绪");

    let (stage, acts) = worker_step(stage, WorkerEvent::ExitPolled(Ok(None)));
    assert!(matches!(stage, WorkerStage::Monitoring { port: 3080 }));
    assert!(matches!(acts[1], WorkerAction::PollExit));

    let (stage, acts) = worker_step(stage, WorkerEvent::ExitPolled(Ok(Some(Some(2)))));
    assert!(matches!(stage, WorkerStage::Idle));
    assert!(matches!(acts[0], WorkerAction::KillActive));
    assert_eq!(emitted(&acts[1]).3, "DeepSeek Harness 已退出（退出码 Some(2)）。");
    assert!(matches!(acts[2], WorkerAction::ShowMain));
}

#[test]
fn worker_exit_code_zero_quits() {
    let (stage, acts) = worker_step(WorkerStage::Monitoring { port: 1 }, WorkerEvent::ExitPolled(Ok(Some(Some(0)))));
    assert!(matches!(stage, WorkerStage::Exited));
    assert!(matches!(acts[0], WorkerAction::KillActive));
    assert!(matches!(acts[1], WorkerAction::Shutdown));
}

#[test]
fn worker_failures() {
    let (stage, acts) = worker_step(WorkerStage::Setup, WorkerEvent::SessionCreated(None));
    assert!(matches!(stage, WorkerStage::Exited));
    assert_eq!(emitted(&acts[0]).3, "无法创建日志目录，请检查磁盘空间或权限。");

    let (_, acts) = worker_step(WorkerStage::Spawning { port: 9 }, WorkerEvent::Spawned(Err("not found".to_string())));
    assert_eq!(emitted(&acts[0]).3, "启动失败：not found");

    let (_, acts) = worker_step(WorkerStage::Starting { port: 9 }, WorkerEvent::ExitPolled(Ok(Some(None))));
    assert!(matches!(acts[0], WorkerAction::KillActive));
    assert_eq!(emitted(&acts[1]).3, "进程提前退出（退出码 None），请查看日志。");

    let (_, acts) = worker_step(WorkerStage::Starting { port: 9 }, WorkerEvent::ExitPolled(Err("io".to_string())));
    assert_eq!(emitted(&acts[0]).3, "无法读取进程状态：io");

    let (stage, acts) = worker_step(WorkerStage::Probing { port: 9 }, WorkerEvent::LocalProbed { responded: false, elapsed_nanos: 120_000_000_001 });
    assert!(matches!(stage, WorkerStage::Idle));
    assert_eq!(emitted(&acts[1]).3, "启动超时（120 秒），请查看日志。");

    let (stage, _) = worker_step(WorkerStage::Probing { port: 9 }, WorkerEvent::LocalProbed { responded: false, elapsed_nanos: 120_000_000_000 });
    assert!(matches!(stage, WorkerStage::Starting { port: 9 }));

    let (stage, acts) = worker_step(WorkerStage::Idle, WorkerEvent::Received(Some(Intent::Install { mirror: false })));
    assert!(matches!(stage, WorkerStage::Installing));
    assert_eq!(emitted(&acts[0]).3, "正在安装/更新 DeepSeek Harness…");
    let (_, acts) = worker_step(WorkerStage::Installing, WorkerEvent::InstallFinished(false));
    assert_eq!(emitted(&acts[0]).3, "安装失败，请查看日志。");
    let (_, acts) = worker_step(WorkerStage::Installing, WorkerEvent::InstallFinished(true));
    assert!(matches!(acts[0], WorkerAction::CheckVersion));

    let (stage, acts) = worker_step(WorkerStage::Idle, WorkerEvent::Received(None));
    assert!(matches!(stage, WorkerStage::Exited));
    assert!(matches!(acts[0], WorkerAction::Stop));
}

#[test]
fn worker_remote_connection() {
    let (stage, acts) = worker_step(WorkerStage::Idle, WorkerEvent::Received(Some(Intent::Start { host: " 10.0.0.8 ".to_string(), port: 8080 })));
    assert!(matches!(stage, WorkerStage::Connecting { ref host, port: 8080 } if host == "10.0.0.8"));
    assert_eq!(emitted(&acts[0]).3, "正在连接远程服务 10.0.0.8:8080…");
    assert!(matches!(acts[1], WorkerAction::ProbeRemote { ref host, port: 8080 } if host == "10.0.0.8"));
    let (stage2, acts) = worker_step(stage, WorkerEvent::RemoteProbed(Some("https".to_string())));
    assert!(matches!(stage2, WorkerStage::Idle));
    let e = emitted(&acts[0]);
    assert_eq!(e.2.as_deref(), Some("https://10.0.0.8:8080/"));
    assert_eq!(e.3, "已连接远程服务");
    let (_, acts) = worker_step(WorkerStage::Connecting { host: "1.2.3.4".to_string(), port: 1 }, WorkerEvent::RemoteProbed(None));
    assert_eq!(emitted(&acts[0]).3, "无法访问 1.2.3.4:1，请检查服务是否已部署、网络是否可达。");
}
