use deepseek_harness_gui::backend::error::BackendError;
use deepseek_harness_gui::backend::logs::{
    cleanup_cutoff as launch_cutoff, cleanup_old_logs, create_session_log_dir, MAX_AGE_DAYS,
};
use deepseek_harness_gui::logs::{
    attach_session, cleanup_cutoff, cleanup_plan, cleanup_result, enabled, init_logging,
    log_line, session_dir_name, should_remove, timestamp, Level, LevelFilter, LogDirEntry,
};
use deepseek_harness_gui::platform::IoFailure;

fn entry(is_dir: bool, name: Option<&str>) -> LogDirEntry {
    LogDirEntry { is_dir, name: name.map(|n| n.to_string()) }
}

fn failure(message: &str) -> IoFailure {
    IoFailure {
        kind: std::io::ErrorKind::PermissionDenied,
        message: message.to_string(),
        raw_os_error: Some(13),
    }
}

#[test]
fn timestamps_and_directory_names() {
    assert_eq!(timestamp(Some(1_700_000_000)), 1_700_000_000);
    assert_eq!(timestamp(None), 0);
    assert_eq!(session_dir_name(0), "0");
    assert_eq!(session_dir_name(1_700_000_000), "1700000000");
    assert_eq!(session_dir_name(u64::MAX), "18446744073709551615");
}

#[test]
fn level_filter_by_build() {
    assert!(init_logging(true) == LevelFilter::Debug);
    assert!(init_logging(false) == LevelFilter::Info);
}

#[test]
fn records_pass_the_filter_by_severity() {
    assert!(enabled(Level::Error, LevelFilter::Info));
    assert!(enabled(Level::Info, LevelFilter::Info));
    assert!(!enabled(Level::Debug, LevelFilter::Info));
    assert!(enabled(Level::Debug, LevelFilter::Debug));
    assert!(!enabled(Level::Trace, LevelFilter::Debug));
    assert!(!enabled(Level::Error, LevelFilter::Off));
    assert!(enabled(Level::Trace, LevelFilter::Trace));
}

#[test]
fn log_line_format() {
    assert_eq!(
        log_line("2024-01-02T03:04:05.006+08:00", Level::Warn, "gui::runtime", "probe failed"),
        "2024-01-02T03:04:05.006+08:00 [WARN] gui::runtime: probe failed"
    );
    assert_eq!(log_line("t", Level::Error, "x", ""), "t [ERROR] x: ");
    assert_eq!(log_line("t", Level::Trace, "", "m"), "t [TRACE] : m");
}

#[test]
fn later_session_replaces_earlier() {
    let mut slot: Option<u32> = None;
    attach_session(&mut slot, 1);
    assert_eq!(slot, Some(1));
    attach_session(&mut slot, 2);
    assert_eq!(slot, Some(2));
}

#[test]
fn supervisor_cleanup_cutoff_saturates() {
    assert_eq!(cleanup_cutoff(1000, 100), 900);
    assert_eq!(cleanup_cutoff(100, 1000), 0);
    assert_eq!(cleanup_cutoff(100, 100), 0);
}

#[test]
fn supervisor_cleanup_removes_only_old_timestamp_dirs() {
    let cut = 1000;
    assert!(should_remove(&entry(true, Some("999")), cut));
    assert!(!should_remove(&entry(true, Some("1000")), cut));
    assert!(!should_remove(&entry(true, Some("1001")), cut));
    assert!(!should_remove(&entry(false, Some("5")), cut));
    assert!(!should_remove(&entry(true, None), cut));
    assert!(!should_remove(&entry(true, Some("notes")), cut));
    assert!(!should_remove(&entry(true, Some("-5")), cut));
    assert!(should_remove(&entry(true, Some("+5")), cut));
    assert!(!should_remove(&entry(true, Some(" 5")), cut));

    let entries = vec![
        entry(true, Some("10")),
        entry(false, Some("10")),
        entry(true, Some("abc")),
        entry(true, Some("2000")),
        entry(true, Some("0")),
    ];
    assert_eq!(cleanup_plan(&entries, cut), vec![true, false, false, false, true]);
    assert_eq!(cleanup_plan(&Vec::new(), cut), Vec::<bool>::new());
}

#[test]
fn supervisor_cleanup_result() {
    assert_eq!(cleanup_result(vec![]), Ok(0));
    assert_eq!(cleanup_result(vec![Ok(()), Ok(()), Ok(())]), Ok(3));
    let r = cleanup_result(vec![Ok(()), Err(failure("first")), Ok(()), Err(failure("second"))]);
    assert_eq!(r, Err(failure("first")));
}

#[test]
fn launch_log_cutoff_saturates() {
    assert_eq!(MAX_AGE_DAYS, 7);
    assert_eq!(launch_cutoff(1_000_000, 7), 1_000_000 - 7 * 86_400);
    assert_eq!(launch_cutoff(100, 7), 0);
    assert_eq!(launch_cutoff(u64::MAX, u64::MAX), 0);
    assert_eq!(launch_cutoff(500, 0), 500);
}

#[test]
fn launch_cleanup_removes_only_old_timestamp_dirs() {
    assert!(cleanup_old_logs(true, "1699999999", 1_700_000_000));
    assert!(!cleanup_old_logs(true, "1700000000", 1_700_000_000));
    assert!(!cleanup_old_logs(false, "1", 1_700_000_000));
    assert!(!cleanup_old_logs(true, "app.log", 1_700_000_000));
    assert!(cleanup_old_logs(true, "+123", 1_700_000_000));
    assert!(!cleanup_old_logs(true, "", 1_700_000_000));
    assert!(!cleanup_old_logs(true, "18446744073709551616", u64::MAX));
}

#[test]
fn launch_log_dir_names() {
    assert_eq!(create_session_log_dir(Some(1_700_000_000)).unwrap(), "1700000000");
    assert!(matches!(create_session_log_dir(None), Err(BackendError::LogDirCreateFailed)));
}

#[test]
fn fresh_log_dir_survives_cleanup_example() {
    let now = 1_700_000_000;
    let name = create_session_log_dir(Some(now)).unwrap();
    assert!(!cleanup_old_logs(true, &name, launch_cutoff(now, MAX_AGE_DAYS)));
}
