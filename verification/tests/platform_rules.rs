use era_launcher::argus::backend::BackendBridge;
use era_launcher::argus::launching::LaunchUpdate;
use era_launcher::argus::state::{AppState, LogLevel};
use era_launcher::argus::theme::prefers_light;
use era_launcher::auth::{offline_uuid, Account};
use era_launcher::instances::InstanceConfig;
use era_launcher::minecraft::java::{JavaManager, JavaProbe};
use era_launcher::minecraft::manifest::{ArgValue, Arguments, AssetIndexRef, ManifestVersionInfo};
use era_launcher::minecraft::optimization::OptimizationProfile;

fn manifest() -> ManifestVersionInfo {
    ManifestVersionInfo {
        id: "1.21.1".to_string(),
        version_type: "release".to_string(),
        main_class: Some("net.minecraft.client.main.Main".to_string()),
        arguments: Some(Arguments {
            game: vec![
                ArgValue::Plain("--uuid".to_string()),
                ArgValue::Plain("${auth_uuid}".to_string()),
            ],
            jvm: vec![
                ArgValue::Plain("-Dsep=${classpath_separator}".to_string()),
                ArgValue::Plain("-cp".to_string()),
                ArgValue::Plain("${classpath}".to_string()),
            ],
        }),
        asset_index: AssetIndexRef {
            id: "1.21.1".to_string(),
            url: "https://example.com/asset".to_string(),
            sha1: "abc".to_string(),
            size: 100,
        },
        libraries: Vec::new(),
        downloads: None,
    }
}

fn instance() -> InstanceConfig {
    InstanceConfig {
        id: "p".to_string(),
        name: "P".to_string(),
        game_version: "1.21.1".to_string(),
        loader: "vanilla".to_string(),
        loader_version: None,
        memory: 2048,
        java: None,
        game_dir: None,
        resolution_width: None,
        resolution_height: None,
        account_uuid: None,
        minecraft_dir: None,
        custom_jvm_args: Vec::new(),
    }
}

#[test]
fn test_offline_uuid_is_the_game_scheme() {
    assert_eq!(offline_uuid("Notch"), "b50ad385-829d-3141-a216-7e7d7539ba7f");
    assert_eq!(offline_uuid("Steve"), "5627dd98-e6be-3c21-b8a8-e92344183641");
}

#[test]
fn test_launch_uses_offline_uuid_and_platform_separator() {
    let account = Account::new_offline("Notch".to_string());
    let (jvm, game, _) = BackendBridge::build_launch_command(
        &manifest(),
        &instance(),
        "/tmp/era-p",
        "a.jar;b.jar",
        OptimizationProfile::Mid,
        Some(account),
        "windows",
    );
    let u = game.iter().position(|a| a == "--uuid").unwrap();
    assert_eq!(game[u + 1], "b50ad385-829d-3141-a216-7e7d7539ba7f");
    assert!(jvm.iter().any(|a| a == "-Dsep=;"));
    let (jvm, _, _) = BackendBridge::build_launch_command(
        &manifest(),
        &instance(),
        "/tmp/era-p",
        "a.jar:b.jar",
        OptimizationProfile::Mid,
        None,
        "linux",
    );
    assert!(jvm.iter().any(|a| a == "-Dsep=:"));
}

#[test]
fn test_windows_classpath() {
    let libs = vec!["C:/l/a.jar".to_string(), "C:/l/b.jar".to_string()];
    assert_eq!(BackendBridge::build_classpath("C:/c.jar", &libs, true), "C:/c.jar;C:/l/a.jar;C:/l/b.jar");
    assert_eq!(BackendBridge::build_classpath("/c.jar", &libs, false), "/c.jar:C:/l/a.jar:C:/l/b.jar");
}

#[test]
fn test_launched_update_logs_the_pid() {
    let mut st = AppState::new();
    assert!(st.apply_launch_update(LaunchUpdate::Launched(77)));
    let last = st.logs.back().unwrap();
    assert_eq!(last.level, LogLevel::Info);
    assert_eq!(last.source, "BACKEND");
    assert_eq!(last.message, "Minecraft launched (PID: 77) \u{2014} window may take a minute on first run");
}

#[test]
fn test_log_timestamp_shape() {
    let mut st = AppState::new();
    st.log(LogLevel::Info, "ARGUS", "x");
    let ts: Vec<char> = st.logs[0].timestamp.chars().collect();
    assert_eq!(ts.len(), 8);
    assert_eq!(ts[2], ':');
    assert_eq!(ts[5], ':');
    for (i, c) in ts.iter().enumerate() {
        if i != 2 && i != 5 {
            assert!(c.is_ascii_digit());
        }
    }
}

#[test]
fn test_detected_java_fields() {
    let probes = vec![JavaProbe {
        path: "/usr/lib/jvm/21/bin/java".to_string(),
        output: Some("openjdk version \"21.0.2\" 2024-01-16".to_string()),
    }];
    let found = JavaManager::find_compatible(&probes, 17).unwrap();
    let v = found.version.unwrap();
    assert_eq!(v.major, 21);
    assert_eq!(v.minor, 0);
    assert_eq!(v.path, "/usr/lib/jvm/21/bin/java");
}

#[test]
fn test_prefers_light() {
    assert!(prefers_light("\r\nHKEY_CURRENT_USER\\...\\Personalize\r\n    AppsUseLightTheme    REG_DWORD    0x1\r\n"));
    assert!(!prefers_light("    AppsUseLightTheme    REG_DWORD    0x0\r\n"));
    assert!(!prefers_light("ERROR: not found"));
}
