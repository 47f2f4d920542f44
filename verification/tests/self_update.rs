use era_launcher::argus::state::{AppState, LogLevel};
use era_launcher::argus::update::{
    create_update_helper, create_windows_update_helper, update_startup, UpdateAction, UpdateCheckResult,
};
use era_launcher::paths::set_file_name;

#[test]
fn test_helper_marker_is_shared_marker() {
    let h = create_update_helper("/opt/era/era-launcher.AppImage", "/opt/era/era-launcher.new");
    assert_eq!(h.path, "/opt/era/era-launcher.update.sh");
    assert!(h.script.contains("\nMARKER=/opt/era/era-launcher.AppImage.update-result\n"));
    assert!(h.script.contains("\nCURRENT=/opt/era/era-launcher.AppImage\n"));
    assert!(h.script.contains("\nNEW=/opt/era/era-launcher.new\n"));
}

#[test]
fn test_update_startup() {
    let s = update_startup(Some("/opt/era/era-launcher.update-result".to_string()), None);
    assert_eq!(s.clear_marker.as_deref(), Some("/opt/era/era-launcher.update-result"));
    assert!(s.result.is_none());
    let s = update_startup(None, Some(10));
    assert!(s.clear_marker.is_none());
    assert!(matches!(s.result, Some(UpdateCheckResult::UpToDate)));
    let s = update_startup(None, Some(3600));
    assert!(s.result.is_none());
}

#[test]
fn test_on_update_check_up_to_date() {
    let mut st = AppState::new();
    let a = st.on_update_check(UpdateCheckResult::UpToDate, Ok("/opt/era/era-launcher".to_string()));
    assert!(matches!(a, UpdateAction::Nothing));
    assert!(matches!(st.update_check, UpdateCheckResult::UpToDate));
    assert_eq!(st.logs.len(), 0);
}

#[test]
fn test_on_update_check_failed() {
    let mut st = AppState::new();
    let a = st.on_update_check(UpdateCheckResult::CheckFailed("offline".to_string()), Ok("/x".to_string()));
    assert!(matches!(a, UpdateAction::Nothing));
    assert!(matches!(&st.update_check, UpdateCheckResult::CheckFailed(e) if e == "offline"));
    let last = st.logs.back().unwrap();
    assert_eq!(last.level, LogLevel::Warn);
    assert_eq!(last.message, "Update check failed: offline");
    assert!(!st.loading);
}

#[test]
fn test_on_update_check_available() {
    let mut st = AppState::new();
    let a = st.on_update_check(
        UpdateCheckResult::UpdateAvailable("v0.2.0".to_string()),
        Ok("/opt/era/era-launcher".to_string()),
    );
    match a {
        UpdateAction::Stage { tag, exe, dest } => {
            assert_eq!(tag, "v0.2.0");
            assert_eq!(exe, "/opt/era/era-launcher");
            assert_eq!(dest, "/opt/era/era-launcher.new");
        }
        UpdateAction::Nothing => panic!("expected staging"),
    }
    assert!(st.loading);
    assert_eq!(st.loading_message.as_deref(), Some("Downloading update vv0.2.0..."));
    assert_eq!(st.logs.len(), 2);
    assert_eq!(st.logs[0].message, "Update available: v0.2.0 (running v0.1.12) — downloading...");
    assert_eq!(st.logs[1].message, "Update available: v0.2.0 -- installing and restarting");
    assert!(st.error_message.is_none());
}

#[test]
fn test_on_update_check_without_exe() {
    let mut st = AppState::new();
    let a = st.on_update_check(UpdateCheckResult::UpdateAvailable("v0.2.0".to_string()), Err("gone".to_string()));
    assert!(matches!(a, UpdateAction::Nothing));
    assert!(!st.loading);
    assert!(st.loading_message.is_none());
    assert_eq!(st.error_message.as_deref(), Some("Cannot locate launcher path: gone"));
    assert_eq!(st.logs.len(), 3);
    assert_eq!(st.logs[2].level, LogLevel::Error);
}

#[test]
fn test_on_update_downloaded_and_staged() {
    let mut st = AppState::new();
    let h = st.on_update_downloaded(Ok(()), "/opt/era/era-launcher", "/opt/era/era-launcher.new", false).unwrap();
    assert_eq!(h.path, "/opt/era/era-launcher.update.sh");
    assert!(h.script.contains("MARKER=/opt/era/era-launcher.update-result\n"));
    assert!(!st.should_quit);
    st.on_update_staged(Ok(()));
    assert!(st.should_quit);
}

#[test]
fn test_update_failures() {
    let mut st = AppState::new();
    st.set_loading(true, Some("Downloading update v1...".to_string()));
    assert!(st.on_update_downloaded(Err("Download HTTP 404".to_string()), "/a/b", "/a/era-launcher.new", false).is_none());
    assert!(!st.loading);
    assert_eq!(st.error_message.as_deref(), Some("Update failed: Download HTTP 404"));
    assert_eq!(st.logs.back().unwrap().message, "Error: Update failed: Download HTTP 404");
    let mut st = AppState::new();
    st.on_update_staged(Err("permission denied".to_string()));
    assert!(!st.should_quit);
    assert_eq!(st.error_message.as_deref(), Some("Update failed: permission denied"));
}

#[test]
fn test_set_file_name() {
    assert_eq!(set_file_name("/opt/era/era-launcher", "era-launcher.new"), "/opt/era/era-launcher.new");
    assert_eq!(set_file_name("era-launcher", "x"), "x");
    assert_eq!(set_file_name("/", "x"), "/x");
}

#[test]
fn test_windows_update_helper() {
    let h = create_windows_update_helper("C:\\Games\\era-launcher.exe", "C:\\Games\\era-launcher.new");
    assert_eq!(h.path, "C:\\Games\\era-launcher.bat");
    assert!(h.script.starts_with("@echo off\nsetlocal EnableExtensions\n"));
    assert!(h.script.contains("set \"CURRENT=C:/Games/era-launcher.exe\"\n"));
    assert!(h.script.contains("set \"NEW=C:/Games/era-launcher.new\"\n"));
    assert!(h.script.contains("set \"HELPER=C:/Games/era-launcher.bat\"\n"));
    assert!(h.script.contains("set \"MARKER=C:/Games/era-launcher.exe.update-result\"\n"));
    assert!(h.script.contains("echo applied ^> \"%MARKER%\"\n"));
    assert!(h.script.ends_with("exit /b 1\n"));
    let mut st = AppState::new();
    let h2 = st.on_update_downloaded(Ok(()), "C:\\Games\\era-launcher.exe", "C:\\Games\\era-launcher.new", true).unwrap();
    assert_eq!(h2.path, h.path);
    assert_eq!(h2.script, h.script);
}
