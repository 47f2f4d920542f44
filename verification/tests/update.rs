use era_launcher::argus::update::{
    after_fetch, check_is_due, fetch_latest_asset_url, shell_quote, tag_from_body,
    tag_from_final_url, update_marker_path, RetryStep, UpdateCheckResult,
};

#[test]
fn test_update_marker_path() {
    assert_eq!(update_marker_path("/opt/era/era-launcher"), "/opt/era/era-launcher.update-result");
}

#[test]
fn test_check_is_due() {
    assert!(check_is_due(None));
    assert!(!check_is_due(Some(0)));
}

#[test]
fn test_after_fetch_outcomes() {
    match after_fetch(1, 500, Ok(Some("v9.9.9".to_string())), "0.1.12") {
        RetryStep::Done(UpdateCheckResult::UpdateAvailable(t)) => assert_eq!(t, "v9.9.9"),
        _ => panic!("a newer tag must offer an update"),
    }
    assert!(matches!(
        after_fetch(1, 500, Ok(Some("v0.1.12".to_string())), "0.1.12"),
        RetryStep::Done(UpdateCheckResult::UpToDate)
    ));
    assert!(matches!(
        after_fetch(1, 500, Ok(None), "0.1.12"),
        RetryStep::Done(UpdateCheckResult::UpToDate)
    ));
    assert!(matches!(
        after_fetch(1, 500, Err("timeout".to_string()), "0.1.12"),
        RetryStep::Retry { wait_ms: 500, next_delay_ms: 1000 }
    ));
    match after_fetch(3, 2000, Err("timeout".to_string()), "0.1.12") {
        RetryStep::Done(UpdateCheckResult::CheckFailed(m)) => {
            assert_eq!(m, "Update check failed after 3 attempts: timeout")
        }
        _ => panic!("the third failure ends the check"),
    }
}

#[test]
fn test_tag_from_final_url() {
    assert_eq!(
        tag_from_final_url("https://github.com/o/r/releases/tag/v0.2.0"),
        Some("v0.2.0".to_string())
    );
    assert_eq!(tag_from_final_url("https://github.com/o/r/releases/latest"), None);
    assert_eq!(tag_from_final_url("https://github.com/o/r/releases/"), None);
}

#[test]
fn test_tag_from_body() {
    assert_eq!(
        tag_from_body("<a href=\"/o/r/releases/tag/v1.2.3\">v1.2.3</a>"),
        Some("v1.2.3".to_string())
    );
    assert_eq!(tag_from_body("no tags here"), None);
}

#[test]
fn test_fetch_latest_asset_url() {
    assert_eq!(
        fetch_latest_asset_url(Ok("v1.0.0".to_string())),
        Ok("https://github.com/AngKool-Dev/argus-releases/releases/download/v1.0.0/era-launcher.exe"
            .to_string())
    );
    assert_eq!(fetch_latest_asset_url(Err("down".to_string())), Err("down".to_string()));
}

#[test]
fn test_shell_quote() {
    assert_eq!(shell_quote("/usr/bin/era"), "/usr/bin/era");
    assert_eq!(shell_quote("/tmp/my file"), "'/tmp/my file'");
    assert_eq!(shell_quote("it's"), "'it'\\''s'");
}
