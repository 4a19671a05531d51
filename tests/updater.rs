use rmm_agent::config::Platform;
use rmm_agent::updater::{
    backup_path, download_size_ok, evaluate_release, is_newer, pending_decision, version_string, PendingDecision,
    PendingUpdate, ReleaseAsset, ReleaseError, Swap, SwapAction, UpdateInfo, UpdatePaths, UpdateState,
    VersionNumbers,
};

#[test]
fn version_ordering() {
    assert!(is_newer("1.0.1", "1.0.0"));
    assert!(is_newer("1.1.0", "1.0.9"));
    assert!(is_newer("2.0.0", "1.9.9"));
    assert!(!is_newer("1.0.0", "1.0.0"));
    assert!(!is_newer("0.9.0", "1.0.0"));
    assert!(is_newer("1.10.0", "1.9.0"));
    assert!(!is_newer("garbage", "1.0.0"));
    assert!(!is_newer("1.0.1", "not a version"));
}

fn assets() -> Vec<ReleaseAsset> {
    vec![
        ReleaseAsset { name: "checksums.txt".to_string(), browser_download_url: "https://r/c".to_string(), size: 10 },
        ReleaseAsset { name: "rmm.exe".to_string(), browser_download_url: "https://r/rmm.exe".to_string(), size: 4096 },
        ReleaseAsset { name: "rmm.exe".to_string(), browser_download_url: "https://r/second".to_string(), size: 1 },
    ]
}

#[test]
fn newer_release_yields_update() {
    let info = evaluate_release("0.3.0", "v0.4.0", &assets(), "rmm.exe").unwrap().unwrap();
    assert_eq!(info.version, "0.4.0");
    assert_eq!(info.download_url, "https://r/rmm.exe");
    assert_eq!(info.size, Some(4096));
}

#[test]
fn same_or_older_release_yields_nothing() {
    assert!(evaluate_release("0.4.0", "v0.4.0", &assets(), "rmm.exe").unwrap().is_none());
    assert!(evaluate_release("0.4.0", "0.3.9", &assets(), "rmm.exe").unwrap().is_none());
    assert!(evaluate_release("0.4.0", "release-x", &assets(), "rmm.exe").unwrap().is_none());
}

#[test]
fn release_errors() {
    assert_eq!(evaluate_release("0.3.0", "v0.4.0", &assets(), "agent").err(), Some(ReleaseError::NoAsset));
    assert_eq!(evaluate_release("bad", "v0.4.0", &assets(), "rmm.exe").err(), Some(ReleaseError::InvalidCurrentVersion));
}

#[test]
fn version_text() {
    assert_eq!(version_string(VersionNumbers { major: 10, minor: 0, patch: 7 }), "10.0.7");
}

#[test]
fn download_size_check() {
    assert!(download_size_ok(Some(10), 10));
    assert!(!download_size_ok(Some(10), 9));
    assert!(download_size_ok(None, 0));
}

#[test]
fn updater_paths() {
    let p = UpdatePaths::new("/var/lib/rmm", "rmm", Platform::Linux);
    assert_eq!(p.update_dir, "/var/lib/rmm/update");
    assert_eq!(p.pending_marker, "/var/lib/rmm/update/pending.json");
    assert_eq!(p.staged_exe, "/var/lib/rmm/update/rmm.new");
    let p = UpdatePaths::new("C:\\ProgramData\\RMM", "rmm.exe", Platform::Windows);
    assert_eq!(p.staged_exe, "C:\\ProgramData\\RMM\\update\\rmm.exe.new");
    assert_eq!(backup_path("C:\\bin\\rmm.exe"), "C:\\bin\\rmm.exe.bak");
}

#[test]
fn pending_marker_content() {
    let info = UpdateInfo { version: "0.4.0".to_string(), download_url: "u".to_string(), size: None };
    let m = PendingUpdate::new(&info, "/d/update/rmm.new", "2025-01-01T00:00:00Z".to_string());
    assert_eq!(m.version, "0.4.0");
    assert_eq!(m.exe_path, "/d/update/rmm.new");
    let st = UpdateState::default();
    assert!(st.available.is_none() && st.downloaded_path.is_none());
}

#[test]
fn pending_decisions() {
    assert_eq!(pending_decision(false, true), PendingDecision::NothingPending);
    assert_eq!(pending_decision(true, false), PendingDecision::DropMarker);
    assert_eq!(pending_decision(true, true), PendingDecision::Swap);
}

fn remove_of(a: &SwapAction) -> String {
    match a {
        SwapAction::Remove(p) => p.clone(),
        other => panic!("expected removal, got {:?}", other),
    }
}

fn rename_of(a: &SwapAction) -> (String, String) {
    match a {
        SwapAction::Rename(f, t) => (f.clone(), t.clone()),
        other => panic!("expected rename, got {:?}", other),
    }
}

#[test]
fn successful_swap() {
    let (mut s, a) = Swap::start("/bin/rmm", "/d/update/rmm.new", "/d/update/pending.json");
    assert_eq!(remove_of(&a), "/bin/rmm.bak");
    let a = s.next(false);
    assert_eq!(rename_of(&a), ("/bin/rmm".to_string(), "/bin/rmm.bak".to_string()));
    let a = s.next(true);
    assert_eq!(rename_of(&a), ("/d/update/rmm.new".to_string(), "/bin/rmm".to_string()));
    let a = s.next(true);
    assert_eq!(remove_of(&a), "/d/update/pending.json");
    assert!(matches!(s.next(true), SwapAction::Finish(true)));
}

#[test]
fn backup_failure_aborts_swap() {
    let (mut s, _) = Swap::start("/bin/rmm", "/s", "/m");
    let _ = s.next(true);
    assert_eq!(remove_of(&s.next(false)), "/m");
    assert_eq!(remove_of(&s.next(true)), "/s");
    assert!(matches!(s.next(true), SwapAction::Finish(false)));
}

#[test]
fn install_failure_restores_backup() {
    let (mut s, _) = Swap::start("/bin/rmm", "/s", "/m");
    let _ = s.next(true);
    let _ = s.next(true);
    assert_eq!(rename_of(&s.next(false)), ("/bin/rmm.bak".to_string(), "/bin/rmm".to_string()));
    assert_eq!(remove_of(&s.next(true)), "/m");
    assert!(matches!(s.next(true), SwapAction::Finish(false)));
}

#[test]
fn failed_restore_is_fatal() {
    let (mut s, _) = Swap::start("/bin/rmm", "/s", "/m");
    let _ = s.next(true);
    let _ = s.next(true);
    let _ = s.next(false);
    assert!(matches!(s.next(false), SwapAction::Fatal));
}
