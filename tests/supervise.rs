use std::sync::Mutex;

use python_in_tauri::fspath::{FsPath, FsSnapshot};
use python_in_tauri::launch::{
    plan_python_server, prepare_launch, interpreter_file, Platform, StartError, CREATE_NO_WINDOW,
};
use python_in_tauri::locator::HostPaths;
use python_in_tauri::supervisor::{pid_text, stop_actions, tree_kill_command, StopAction, Supervisor};

fn path(parts: &[&str]) -> FsPath {
    FsPath::new(parts.iter().map(|s| s.to_string()).collect())
}

fn names(p: &FsPath) -> Vec<&str> {
    p.parts.iter().map(|s| s.as_str()).collect()
}

/// A stand-in for a child process that records what is done to it.
#[derive(Debug, Default)]
struct FakeChild {
    log: Vec<String>,
}

fn perform(child: &mut FakeChild, actions: &[StopAction]) {
    for a in actions {
        match a {
            StopAction::TreeKill { pid } => {
                let (prog, args) = tree_kill_command(*pid);
                child.log.push(format!("{} {}", prog, args.join(" ")));
            }
            StopAction::Kill => child.log.push("kill".to_string()),
            StopAction::Wait => child.log.push("wait".to_string()),
        }
    }
}

fn full_layout(platform: Platform) -> FsSnapshot {
    let mut fs = FsSnapshot::new();
    fs.add(path(&["/", "app", "resources"]), true);
    fs.add(path(&["/", "app", "resources", "python"]), true);
    fs.add(path(&["/", "app", "resources", "backend"]), true);
    fs.add(path(&["/", "app", "resources", "python", interpreter_file(platform)]), false);
    fs.add(path(&["/", "app", "resources", "backend", "main.py"]), false);
    fs
}

fn host() -> HostPaths {
    HostPaths { exe: Some(path(&["/", "app", "app"])), resource_dir: None, cwd: None }
}

#[test]
fn start_then_stop_scenario() {
    let fs = full_layout(Platform::Unix);
    let plan = plan_python_server(&host(), Platform::Unix, &fs).unwrap();
    assert_eq!(names(&plan.program), vec!["/", "app", "resources", "python", "python3"]);
    assert_eq!(names(&plan.script), vec!["/", "app", "resources", "backend", "main.py"]);
    assert_eq!(names(&plan.working_dir), vec!["/", "app", "resources", "backend"]);
    assert_eq!(plan.creation_flags, 0);

    let mut sup: Supervisor<FakeChild> = Supervisor::new();
    assert!(!sup.is_running());
    assert!(sup.record_spawn(&plan, Ok((4321, FakeChild::default()))).is_ok());
    assert!(sup.is_running());
    assert_eq!(sup.running_pid(), Some(4321));
    assert_eq!(names(sup.running_working_dir().unwrap()), vec!["/", "app", "resources", "backend"]);

    let (mut h, actions) = sup.stop_python_server(Platform::Unix).unwrap();
    assert_eq!(h.pid, 4321);
    perform(&mut h.child, &actions);
    assert_eq!(h.child.log, vec!["kill", "wait"]);
    assert!(!sup.is_running());
    assert_eq!(sup.running_pid(), None);
}

#[test]
fn windows_plan_hides_console() {
    let fs = full_layout(Platform::Windows);
    let plan = plan_python_server(&host(), Platform::Windows, &fs).unwrap();
    assert_eq!(names(&plan.program), vec!["/", "app", "resources", "python", "python.exe"]);
    assert_eq!(plan.creation_flags, CREATE_NO_WINDOW);
    assert_eq!(CREATE_NO_WINDOW, 0x08000000);
}

#[test]
fn missing_script_is_configuration_error() {
    let mut fs = FsSnapshot::new();
    fs.add(path(&["/", "app", "resources"]), true);
    fs.add(path(&["/", "app", "resources", "python"]), true);
    fs.add(path(&["/", "app", "resources", "backend"]), true);
    fs.add(path(&["/", "app", "resources", "python", "python3"]), false);
    let sup: Supervisor<FakeChild> = Supervisor::new();
    let r = plan_python_server(&host(), Platform::Unix, &fs);
    assert!(matches!(r, Err(StartError::ConfigurationError)));
    assert!(!sup.is_running());
}

#[test]
fn missing_interpreter_is_configuration_error() {
    let mut fs = full_layout(Platform::Unix);
    fs.entries.retain(|e| e.path.parts.last().map(|s| s.as_str()) != Some("python3"));
    let r = prepare_launch(&path(&["/", "app", "resources"]), Platform::Unix, &fs);
    assert!(matches!(r, Err(StartError::ConfigurationError)));
    let fs_win = full_layout(Platform::Unix);
    let r2 = prepare_launch(&path(&["/", "app", "resources"]), Platform::Windows, &fs_win);
    assert!(matches!(r2, Err(StartError::ConfigurationError)));
}

#[test]
fn nothing_located_is_configuration_error() {
    let h = HostPaths { exe: None, resource_dir: None, cwd: None };
    let r = plan_python_server(&h, Platform::Unix, &FsSnapshot::new());
    assert!(matches!(r, Err(StartError::ConfigurationError)));
}

#[test]
fn spawn_failure_keeps_slot() {
    let fs = full_layout(Platform::Unix);
    let plan = plan_python_server(&host(), Platform::Unix, &fs).unwrap();
    let mut sup: Supervisor<FakeChild> = Supervisor::new();
    let r = sup.record_spawn(&plan, Err("permission denied".to_string()));
    match r {
        Err(StartError::SpawnError(m)) => assert_eq!(m, "permission denied"),
        _ => panic!("expected a spawn error"),
    }
    assert!(!sup.is_running());
}

#[test]
fn second_start_replaces_tracked_handle() {
    let fs = full_layout(Platform::Unix);
    let plan = plan_python_server(&host(), Platform::Unix, &fs).unwrap();
    let mut sup: Supervisor<FakeChild> = Supervisor::new();
    assert!(sup.record_spawn(&plan, Ok((1, FakeChild::default()))).is_ok());
    assert!(sup.record_spawn(&plan, Ok((2, FakeChild::default()))).is_ok());
    assert_eq!(sup.running_pid(), Some(2));
}

#[test]
fn stop_twice_is_noop() {
    let fs = full_layout(Platform::Unix);
    let plan = plan_python_server(&host(), Platform::Unix, &fs).unwrap();
    let mut sup: Supervisor<FakeChild> = Supervisor::new();
    sup.record_spawn(&plan, Ok((7, FakeChild::default()))).ok();
    assert!(sup.stop_python_server(Platform::Unix).is_some());
    assert!(sup.stop_python_server(Platform::Unix).is_none());
    assert!(!sup.is_running());
}

#[test]
fn stop_on_empty_does_nothing() {
    let mut sup: Supervisor<FakeChild> = Supervisor::new();
    assert!(sup.stop_python_server(Platform::Windows).is_none());
}

#[test]
fn windows_stop_kills_tree_by_pid() {
    let fs = full_layout(Platform::Windows);
    let plan = plan_python_server(&host(), Platform::Windows, &fs).unwrap();
    let mut sup: Supervisor<FakeChild> = Supervisor::new();
    sup.record_spawn(&plan, Ok((9876, FakeChild::default()))).ok();
    let (mut h, actions) = sup.stop_python_server(Platform::Windows).unwrap();
    assert_eq!(
        actions,
        vec![StopAction::TreeKill { pid: 9876 }, StopAction::Kill, StopAction::Wait]
    );
    perform(&mut h.child, &actions);
    assert_eq!(h.child.log, vec!["taskkill /F /T /PID 9876", "kill", "wait"]);
}

#[test]
fn unix_stop_signals_child_only() {
    let actions = stop_actions(Platform::Unix, 55);
    assert_eq!(actions, vec![StopAction::Kill, StopAction::Wait]);
    assert!(!actions.iter().any(|a| matches!(a, StopAction::TreeKill { .. })));
}

#[test]
fn tree_kill_command_line() {
    let (prog, args) = tree_kill_command(1234);
    assert_eq!(prog, "taskkill");
    assert_eq!(args, vec!["/F", "/T", "/PID", "1234"]);
}

#[test]
fn pid_in_decimal() {
    assert_eq!(pid_text(0), "0");
    assert_eq!(pid_text(7), "7");
    assert_eq!(pid_text(10), "10");
    assert_eq!(pid_text(90210), "90210");
    assert_eq!(pid_text(u32::MAX), "4294967295");
}

#[test]
fn concurrent_stops_take_handle_once() {
    let fs = full_layout(Platform::Unix);
    let plan = plan_python_server(&host(), Platform::Unix, &fs).unwrap();
    let mut sup: Supervisor<FakeChild> = Supervisor::new();
    sup.record_spawn(&plan, Ok((31, FakeChild::default()))).ok();
    let slot = Mutex::new(sup);
    let first = slot.lock().unwrap().stop_python_server(Platform::Unix);
    let second = slot.lock().unwrap().stop_python_server(Platform::Unix);
    assert_eq!([first.is_some(), second.is_some()].iter().filter(|b| **b).count(), 1);
    let (mut h, actions) = first.unwrap();
    perform(&mut h.child, &actions);
    assert_eq!(h.child.log, vec!["kill", "wait"]);
    assert!(!slot.lock().unwrap().is_running());
}
