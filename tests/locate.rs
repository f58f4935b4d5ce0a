use python_in_tauri::fspath::{FsPath, FsSnapshot};
use python_in_tauri::locator::{get_resource_dir, is_valid_resource_dir, HostPaths};
use python_in_tauri::launch::Platform;
use python_in_tauri::probe::probe_targets;

fn path(parts: &[&str]) -> FsPath {
    FsPath::new(parts.iter().map(|s| s.to_string()).collect())
}

fn names(p: &FsPath) -> Vec<&str> {
    p.parts.iter().map(|s| s.as_str()).collect()
}

fn add_dir(fs: &mut FsSnapshot, parts: &[&str]) {
    fs.add(path(parts), true);
}

fn add_valid_root(fs: &mut FsSnapshot, parts: &[&str]) {
    add_dir(fs, parts);
    let mut py: Vec<&str> = parts.to_vec();
    py.push("python");
    add_dir(fs, &py);
    let mut be: Vec<&str> = parts.to_vec();
    be.push("backend");
    add_dir(fs, &be);
}

fn host() -> HostPaths {
    HostPaths {
        exe: Some(path(&["/", "opt", "app", "app.exe"])),
        resource_dir: Some(path(&["/", "usr", "share", "app"])),
        cwd: Some(path(&["/", "home", "u", "proj", "src-tauri"])),
    }
}

fn with_marker() -> FsSnapshot {
    let mut fs = FsSnapshot::new();
    add_dir(&mut fs, &["/", "home", "u", "proj", "src-tauri"]);
    fs
}

#[test]
fn valid_resource_dir_needs_both_subdirectories() {
    let mut fs = FsSnapshot::new();
    add_dir(&mut fs, &["/", "r"]);
    add_dir(&mut fs, &["/", "r", "python"]);
    assert!(!is_valid_resource_dir(&path(&["/", "r"]), &fs));
    add_dir(&mut fs, &["/", "r", "backend"]);
    assert!(is_valid_resource_dir(&path(&["/", "r"]), &fs));
    assert!(!is_valid_resource_dir(&path(&["/", "s"]), &fs));
}

#[test]
fn only_exe_candidate_valid() {
    let mut fs = with_marker();
    add_valid_root(&mut fs, &["/", "opt", "app", "resources"]);
    let r = get_resource_dir(&host(), &fs).unwrap();
    assert_eq!(names(&r), vec!["/", "opt", "app", "resources"]);
}

#[test]
fn only_platform_candidate_valid() {
    let mut fs = with_marker();
    add_valid_root(&mut fs, &["/", "usr", "share", "app"]);
    let r = get_resource_dir(&host(), &fs).unwrap();
    assert_eq!(names(&r), vec!["/", "usr", "share", "app"]);
}

#[test]
fn only_marker_candidate_valid() {
    let mut fs = with_marker();
    add_valid_root(&mut fs, &["/", "home", "u", "proj", "resources"]);
    let r = get_resource_dir(&host(), &fs).unwrap();
    assert_eq!(names(&r), vec!["/", "home", "u", "proj", "resources"]);
}

#[test]
fn only_cwd_candidate_valid() {
    let mut fs = with_marker();
    add_valid_root(&mut fs, &["/", "home", "u", "proj", "src-tauri", "resources"]);
    let r = get_resource_dir(&host(), &fs).unwrap();
    assert_eq!(names(&r), vec!["/", "home", "u", "proj", "src-tauri", "resources"]);
}

#[test]
fn earlier_strategy_wins_when_several_are_valid() {
    let mut fs = with_marker();
    add_valid_root(&mut fs, &["/", "usr", "share", "app"]);
    add_valid_root(&mut fs, &["/", "home", "u", "proj", "src-tauri", "resources"]);
    let r = get_resource_dir(&host(), &fs).unwrap();
    assert_eq!(names(&r), vec!["/", "usr", "share", "app"]);
}

#[test]
fn none_valid_gives_last_candidate() {
    let fs = with_marker();
    let r = get_resource_dir(&host(), &fs).unwrap();
    assert_eq!(names(&r), vec!["/", "home", "u", "proj", "src-tauri", "resources"]);
}

#[test]
fn none_valid_without_cwd_gives_marker_or_platform() {
    let fs = FsSnapshot::new();
    let h = HostPaths { exe: Some(path(&["/", "opt", "app", "app.exe"])), resource_dir: None, cwd: None };
    let r = get_resource_dir(&h, &fs).unwrap();
    assert_eq!(names(&r), vec!["/", "opt", "app", "resources"]);
    let h2 = HostPaths { exe: None, resource_dir: None, cwd: None };
    assert!(get_resource_dir(&h2, &fs).is_none());
}

#[test]
fn marker_in_working_directory_itself() {
    let mut fs = FsSnapshot::new();
    add_dir(&mut fs, &["/", "w", "src-tauri"]);
    add_valid_root(&mut fs, &["/", "w", "resources"]);
    let h = HostPaths { exe: None, resource_dir: None, cwd: Some(path(&["/", "w"])) };
    let r = get_resource_dir(&h, &fs).unwrap();
    assert_eq!(names(&r), vec!["/", "w", "resources"]);
}

#[test]
fn marker_that_is_a_file_is_ignored() {
    let mut fs = FsSnapshot::new();
    fs.add(path(&["/", "a", "b", "src-tauri"]), false);
    add_dir(&mut fs, &["/", "a", "src-tauri"]);
    add_valid_root(&mut fs, &["/", "a", "resources"]);
    let h = HostPaths { exe: None, resource_dir: None, cwd: Some(path(&["/", "a", "b"])) };
    let r = get_resource_dir(&h, &fs).unwrap();
    assert_eq!(names(&r), vec!["/", "a", "resources"]);
}

#[test]
fn probe_targets_cover_candidates() {
    let h = HostPaths {
        exe: Some(path(&["/", "bin", "app"])),
        resource_dir: None,
        cwd: Some(path(&["/", "w"])),
    };
    let t = probe_targets(&h, Platform::Unix);
    let all: Vec<Vec<&str>> = t.iter().map(names).collect();
    assert_eq!(all.len(), 5 + 2 * 6 + 5);
    assert_eq!(all[17], vec!["/", "w", "resources"]);
    assert_eq!(all[0], vec!["/", "bin", "resources"]);
    assert_eq!(all[3], vec!["/", "bin", "resources", "python", "python3"]);
    assert_eq!(all[4], vec!["/", "bin", "resources", "backend", "main.py"]);
    assert_eq!(all[5], vec!["/", "src-tauri"]);
    assert_eq!(all[11], vec!["/", "w", "src-tauri"]);
    assert_eq!(all[12], vec!["/", "w", "resources"]);
}

#[test]
fn join_and_parent() {
    let p = path(&["/", "a"]);
    assert_eq!(names(&p.join("b")), vec!["/", "a", "b"]);
    assert_eq!(names(&p.parent().unwrap()), vec!["/"]);
    assert!(path(&["/"]).parent().is_none());
    assert!(p.same_as(&path(&["/", "a"])));
    assert!(!p.same_as(&path(&["/", "b"])));
}
