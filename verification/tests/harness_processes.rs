use deepseek_harness_gui::os::unix::{
    build_command as unix_build, harness_command as unix_harness, kill_active as unix_kill_active,
    ActiveHarness, KillStep, TERM_GRACE_MS,
};
use deepseek_harness_gui::os::windows::{
    build_command as windows_build, harness_command as windows_harness, job_kill_steps,
    kill_active as windows_kill_active, JobStep,
};
use deepseek_harness_gui::os::{empty_slot, replace_active, take_active};
use deepseek_harness_gui::platform::unix::{SIGKILL, SIGTERM};
use deepseek_harness_gui::process::{harness_command as first_harness, kill_active as first_kill_active};

fn strings(v: &[&str]) -> Vec<String> {
    v.iter().map(|s| s.to_string()).collect()
}

#[test]
fn unix_commands() {
    let c = unix_build("dsh", &strings(&["-v"]));
    assert_eq!(c.program, "dsh");
    assert_eq!(c.args, vec!["-v"]);
    let c = unix_harness(3000);
    assert_eq!(c.program, "dsh");
    assert_eq!(c.args, vec!["--profile", "web", "--host", "127.0.0.1", "--port", "3000"]);
}

#[test]
fn windows_commands() {
    let c = windows_build("dsh", &strings(&["--version"]));
    assert_eq!(c.program, "cmd");
    assert_eq!(c.args, vec!["/C", "dsh", "--version"]);
    let c = windows_build("npm", &Vec::new());
    assert_eq!(c.args, vec!["/C", "npm"]);
    let c = windows_harness(65535);
    assert_eq!(c.program, "cmd");
    assert_eq!(c.args, vec!["/C", "dsh", "--profile", "web", "--host", "127.0.0.1", "--port", "65535"]);
    let c = first_harness(1);
    assert_eq!(c.program, "cmd");
    assert_eq!(c.args, vec!["/C", "dsh", "--profile", "web", "--host", "127.0.0.1", "--port", "1"]);
}

#[test]
fn group_kill_sequence() {
    assert_eq!(TERM_GRACE_MS, 500);
    let steps = ActiveHarness { pgid: 4321 }.kill();
    assert!(
        steps
            == vec![
                KillStep::Signal { target: -4321, signal: SIGTERM },
                KillStep::Sleep { ms: 500 },
                KillStep::Signal { target: -4321, signal: SIGKILL },
            ]
    );
}

#[test]
fn one_active_harness_at_a_time() {
    let mut slot = empty_slot();
    assert_eq!(replace_active(&mut slot, 1), None);
    assert_eq!(replace_active(&mut slot, 2), Some(1));
    assert_eq!(slot.current, Some(2));
    assert_eq!(take_active(&mut slot), Some(2));
    assert_eq!(take_active(&mut slot), None);

    let mut unix_slot = empty_slot();
    replace_active(&mut unix_slot, ActiveHarness { pgid: 77 });
    assert!(unix_kill_active(&mut unix_slot) == Some(ActiveHarness { pgid: 77 }));
    assert!(unix_kill_active(&mut unix_slot).is_none());

    let mut job_slot = empty_slot();
    replace_active(&mut job_slot, "job");
    let (job, steps) = windows_kill_active(&mut job_slot);
    assert_eq!(job, Some("job"));
    assert!(steps == vec![JobStep::Terminate { exit_code: 1 }, JobStep::CloseHandle]);
    assert!(steps == job_kill_steps());
    let (none, steps) = first_kill_active(&mut job_slot);
    assert_eq!(none, None);
    assert!(steps.is_empty());
    replace_active(&mut job_slot, "second");
    let (job, steps) = first_kill_active(&mut job_slot);
    assert_eq!(job, Some("second"));
    assert!(steps == vec![JobStep::Terminate { exit_code: 1 }, JobStep::CloseHandle]);
}
