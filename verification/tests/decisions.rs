use deepseek_harness_gui::backend::error::BackendError;
use deepseek_harness_gui::backend::network::{probe_from_parse, ready_probe_result, UrlProbe};
use deepseek_harness_gui::backend::webview::{
    handle_download_step, open_url_begin, open_url_step, DownloadStep, OpenAction, OpenEvent,
    OpenRun, OpenStage, complete_tab, create_webview_state, display_name_from, finish_reserved_tab, loadable_url,
    parse_webview_url, reserve_tab, webview_target, ChildTab, WebviewOrigin,
};
use deepseek_harness_gui::logs::session_layout;
use deepseek_harness_gui::platform::{store_exit, ExitCache, ProcessExit, WaitFailure};
use deepseek_harness_gui::runtime::{
    is_local_name, sanitize, worker_begin, WorkerAction, WorkerStage, SESSION_MAX_AGE_SECS,
};
use deepseek_harness_gui::url_parts::ParsedUrl;

fn parsed(serialized: &str, scheme: &str, host: Option<&str>, port: Option<u16>) -> ParsedUrl {
    ParsedUrl {
        serialized: serialized.to_string(),
        scheme: scheme.to_string(),
        username: String::new(),
        password: None,
        host: host.map(|h| h.to_string()),
        port,
        last_segment: None,
    }
}

#[test]
fn sanitize_drops_every_control_character() {
    assert_eq!(sanitize("a\u{1b}[31mb\u{7f}\t"), "a[31mb\t");
    assert_eq!(sanitize("\u{7f}"), "");
    assert_eq!(sanitize("x\u{80}y\u{9f}z\u{a0}"), "xyz\u{a0}");
    assert_eq!(sanitize("line\n"), "line\n");
}

#[test]
fn readiness_needs_a_2xx() {
    assert!(ready_probe_result(200));
    assert!(ready_probe_result(204));
    assert!(ready_probe_result(299));
    assert!(!ready_probe_result(401));
    assert!(!ready_probe_result(301));
    assert!(!ready_probe_result(500));
    assert!(!ready_probe_result(199));
}

#[test]
fn probe_decided_from_the_parse() {
    assert!(matches!(probe_from_parse("http", None), UrlProbe::Fail));
    let p = parsed("https://h:1/", "https", Some("h"), Some(1));
    assert!(matches!(probe_from_parse("http", Some(p)), UrlProbe::Fail));
    let p = parsed("http://h:1/", "http", Some("h"), Some(1));
    match probe_from_parse("http", Some(p)) {
        UrlProbe::Get(url) => assert_eq!(url, "http://h:1/"),
        UrlProbe::Fail => panic!("expected a request"),
    }
}

#[test]
fn local_names() {
    assert!(is_local_name("localhost"));
    assert!(is_local_name("127.0.0.1"));
    assert!(is_local_name("::1"));
    assert!(!is_local_name("LOCALHOST"));
    assert!(!is_local_name(" localhost"));
}

#[test]
fn loading_policy_on_a_parse() {
    assert!(matches!(loadable_url(None), Err(BackendError::InvalidWindowUrl)));
    let ok = loadable_url(Some(parsed("https://a.com/", "https", Some("a.com"), Some(443)))).unwrap();
    assert_eq!(ok.serialized, "https://a.com/");
    assert!(matches!(
        loadable_url(Some(parsed("ftp://a.com/", "ftp", Some("a.com"), Some(21)))),
        Err(BackendError::InvalidWindowUrl)
    ));
    let mut with_user = parsed("https://u@a.com/", "https", Some("a.com"), Some(443));
    with_user.username = "u".to_string();
    assert!(matches!(loadable_url(Some(with_user)), Err(BackendError::InvalidWindowUrl)));
    assert!(matches!(
        loadable_url(Some(parsed("https:///", "https", None, Some(443)))),
        Err(BackendError::InvalidWindowUrl)
    ));
}

#[test]
fn display_names_from_a_parse() {
    assert_eq!(display_name_from("x", Some(parsed("x", "https", Some("a.com"), Some(443)))), "a.com:443");
    assert_eq!(display_name_from("raw", Some(parsed("raw", "mailto", None, None))), "raw");
    assert_eq!(display_name_from("raw", None), "raw");
}

#[test]
fn completing_a_tab_keeps_the_other_tabs() {
    let mut state = create_webview_state();
    finish_reserved_tab(
        &mut state,
        WebviewOrigin { scheme: "https".to_string(), host: "a.com".to_string(), port: 443 },
        ChildTab { label: "url-window-7".to_string(), url: "https://a.com/".to_string() },
    );
    let (url, origin) = webview_target("https://b.com/x").unwrap();
    let label = reserve_tab(
        &mut state,
        WebviewOrigin { scheme: "https".to_string(), host: "b.com".to_string(), port: 443 },
    )
    .unwrap();
    let next = state.next_id;
    let info = complete_tab(&mut state, origin, label, &url);
    assert_eq!(info.label, "url-window-0");
    assert_eq!(state.next_id, next);
    let labels: Vec<(String, String)> =
        state.tabs.iter().map(|(o, t)| (o.host.clone(), t.label.clone())).collect();
    assert_eq!(
        labels,
        vec![
            ("a.com".to_string(), "url-window-7".to_string()),
            ("b.com".to_string(), "url-window-0".to_string()),
        ]
    );
    assert!(parse_webview_url("https://b.com/x").is_ok());
}

#[test]
fn worker_starts_by_removing_old_sessions() {
    assert_eq!(SESSION_MAX_AGE_SECS, 14 * 86_400);
    let (stage, acts) = worker_begin();
    assert!(matches!(stage, WorkerStage::Setup));
    assert_eq!(acts.len(), 2);
    assert!(matches!(acts[0], WorkerAction::CleanupOldSessions { older_than_secs: 1_209_600 }));
    assert!(matches!(acts[1], WorkerAction::CreateSession));
}

#[test]
fn session_files() {
    let layout = session_layout(1_700_000_000);
    assert_eq!(layout.dir, vec!["logs", "1700000000"]);
    assert_eq!(layout.files, vec!["harness.log", "gui.log"]);
    assert!(layout.create);
    assert!(layout.append);
}

#[test]
fn exit_is_stored_once() {
    let mut cache: ExitCache = None;
    store_exit(&mut cache, Ok(ProcessExit { exit_code: Some(3) }));
    store_exit(&mut cache, Ok(ProcessExit { exit_code: Some(9) }));
    let failure = WaitFailure { kind: std::io::ErrorKind::Other, message: "late".to_string() };
    store_exit(&mut cache, Err(failure));
    assert!(matches!(cache, Some(Ok(ProcessExit { exit_code: Some(3) }))));
}

#[test]
fn downloads_follow_the_dialog() {
    let mut dest = "old".to_string();
    assert!(handle_download_step(DownloadStep::Requested { chosen: Some("/tmp/a.txt".to_string()) }, &mut dest));
    assert_eq!(dest, "/tmp/a.txt");
    assert!(!handle_download_step(DownloadStep::Requested { chosen: None }, &mut dest));
    assert_eq!(dest, "/tmp/a.txt");
    assert!(handle_download_step(DownloadStep::Finished { success: false }, &mut dest));
    assert!(handle_download_step(DownloadStep::Other, &mut dest));
    assert_eq!(dest, "/tmp/a.txt");
}

fn step(state: &mut deepseek_harness_gui::backend::webview::WebviewState, run: OpenRun, event: OpenEvent) -> (OpenRun, OpenAction) {
    open_url_step(state, run, event)
}

#[test]
fn opening_a_url_twice_reuses_the_tab() {
    let mut state = create_webview_state();

    // First opening: no tab yet, so the origin is reserved and created.
    let (run, action) = open_url_begin(&state, "https://example.com/a");
    assert!(matches!(action, OpenAction::FindStale { ref labels } if labels.is_empty()));
    let (run, action) = step(&mut state, run.unwrap(), OpenEvent::Stale(vec![]));
    assert!(run.stage == OpenStage::Creating);
    assert!(matches!(action, OpenAction::Create { ref label, ref url } if label == "url-window-0" && url == "https://example.com/a"));
    let (run, action) = step(&mut state, run, OpenEvent::Created(Ok(())));
    assert!(matches!(action, OpenAction::Activate { ref label } if label == "url-window-0"));
    let (_, action) = step(&mut state, run, OpenEvent::Activated(Ok(())));
    let first = match action {
        OpenAction::Finish(Ok(t)) => t,
        _ => panic!("expected a tab"),
    };
    assert_eq!(first.display_name, "example.com:443");
    assert_eq!(state.tabs.len(), 1);
    assert!(state.creating.is_empty());

    // Second opening of the same origin: the tab is reused.
    let (run, action) = open_url_begin(&state, "https://example.com:443/other");
    assert!(matches!(action, OpenAction::FindStale { ref labels } if labels == &vec!["url-window-0".to_string()]));
    let (run, action) = step(&mut state, run.unwrap(), OpenEvent::Stale(vec![]));
    assert!(matches!(action, OpenAction::CheckLive { ref label } if label == "url-window-0"));
    let (run, action) = step(&mut state, run, OpenEvent::Live(true));
    assert!(matches!(action, OpenAction::Activate { ref label } if label == "url-window-0"));
    let (_, action) = step(&mut state, run, OpenEvent::Activated(Ok(())));
    match action {
        OpenAction::Finish(Ok(t)) => {
            assert_eq!(t.label, first.label);
            assert_eq!(t.url, first.url);
        }
        _ => panic!("expected the same tab"),
    }
    assert_eq!(state.tabs.len(), 1);
    assert_eq!(state.next_id, 1);
}

#[test]
fn opening_after_the_web_view_died_creates_a_new_tab() {
    let mut state = create_webview_state();
    finish_reserved_tab(
        &mut state,
        WebviewOrigin { scheme: "http".to_string(), host: "localhost".to_string(), port: 3000 },
        ChildTab { label: "url-window-5".to_string(), url: "http://localhost:3000/".to_string() },
    );
    let (run, _) = open_url_begin(&state, "http://localhost:3000/x");
    let (run, action) = step(&mut state, run.unwrap(), OpenEvent::Stale(vec!["url-window-5".to_string()]));
    assert!(state.tabs.is_empty());
    assert!(matches!(action, OpenAction::Create { .. }));
    let (_, action) = step(&mut state, run, OpenEvent::Created(Err(BackendError::WindowResourceMissing)));
    assert!(matches!(action, OpenAction::Finish(Err(BackendError::WindowResourceMissing))));
    assert!(state.creating.is_empty());
    assert!(state.tabs.is_empty());

    let (run, action) = open_url_begin(&state, "ftp://x/");
    assert!(run.is_none());
    assert!(matches!(action, OpenAction::Finish(Err(BackendError::InvalidWindowUrl))));
}
