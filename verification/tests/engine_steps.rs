use era_launcher::argus::backend::BackendBridge;
use era_launcher::argus::navigation::home_focus_index;
use era_launcher::argus::state::AppState;
use era_launcher::argus::theme::{Theme, ThemeRegistry};
use era_launcher::auth::Account;
use era_launcher::config::Config;
use era_launcher::errors::LauncherError;
use era_launcher::instances::InstanceConfig;
use era_launcher::launch::{EngineJava, EngineLoader, LaunchEngine};
use era_launcher::servers::parse_address;

fn instance(id: &str, java: Option<&str>) -> InstanceConfig {
    InstanceConfig {
        id: id.to_string(),
        name: format!("Inst {}", id),
        game_version: "1.21.1".to_string(),
        loader: "vanilla".to_string(),
        loader_version: None,
        memory: 2048,
        java: java.map(|j| j.to_string()),
        game_dir: None,
        resolution_width: None,
        resolution_height: None,
        account_uuid: None,
        minecraft_dir: None,
        custom_jvm_args: Vec::new(),
    }
}

#[test]
fn test_parse_address_empty_bracketed_host() {
    assert!(parse_address("[]:5").is_err());
    assert!(parse_address("  []  :5").is_err());
    assert!(parse_address(" :25565").is_err());
    let (h, p) = parse_address("[::1]:25565").ok().unwrap();
    assert_eq!(h, "::1");
    assert_eq!(p, 25565);
}

#[test]
fn test_first_offline_account_is_created() {
    let mut b = BackendBridge::new(Config::default(), "/tmp/era".to_string());
    let a = b.create_offline_account("  Steve ").unwrap();
    assert_eq!(a.name, "Steve");
    assert_eq!(b.config.accounts.len(), 1);
    assert_eq!(b.config.default_account.as_deref(), Some(a.id.as_str()));
}

#[test]
fn test_offline_uuid_shape() {
    let a = Account::new_offline("Alex".to_string());
    let cs: Vec<char> = a.uuid.chars().collect();
    assert_eq!(cs.len(), 36);
    for (i, c) in cs.iter().enumerate() {
        if i == 8 || i == 13 || i == 18 || i == 23 {
            assert_eq!(*c, '-');
        } else {
            assert!(c.is_ascii_digit() || ('a'..='f').contains(c));
        }
    }
    assert_eq!(cs[14], '4');
}

#[test]
fn test_engine_loader_branch() {
    assert!(matches!(LaunchEngine::loader_branch("fabric"), EngineLoader::Fabric));
    assert!(matches!(LaunchEngine::loader_branch("forge"), EngineLoader::Forge));
    assert!(matches!(LaunchEngine::loader_branch("quilt"), EngineLoader::Vanilla));
    assert!(matches!(LaunchEngine::loader_branch("Fabric"), EngineLoader::Vanilla));
}

#[test]
fn test_engine_java_plan() {
    match LaunchEngine::java_plan(Some("/opt/jdk".to_string()), true, false, None, "1.21.1") {
        EngineJava::Configured(p) => assert_eq!(p, "/opt/jdk/bin/java"),
        EngineJava::Search(_) => panic!("expected the configured Java"),
    }
    assert!(matches!(LaunchEngine::java_plan(None, false, false, Some(17), "1.21.1"), EngineJava::Search(17)));
    assert!(matches!(LaunchEngine::java_plan(None, false, false, None, "1.16.5"), EngineJava::Search(8)));
    assert_eq!(LaunchEngine::java_missing_status(21), "Java 21 not found. Downloading...");
}

#[test]
fn test_engine_searched_java() {
    assert_eq!(LaunchEngine::searched_java(Some("/j".to_string()), None).ok(), Some("/j".to_string()));
    assert_eq!(LaunchEngine::searched_java(None, Some(Ok(Some("/rt".to_string())))).ok(), Some("/rt".to_string()));
    match LaunchEngine::searched_java(None, Some(Ok(None))) {
        Err(LauncherError::Java(m)) => assert_eq!(m, "Java installation failed"),
        _ => panic!("expected a Java error"),
    }
    match LaunchEngine::searched_java(None, Some(Err("disk full".to_string()))) {
        Err(LauncherError::Java(m)) => assert_eq!(m, "Java install failed: disk full"),
        _ => panic!("expected a Java error"),
    }
}

#[test]
fn test_engine_client_check_and_command() {
    assert!(LaunchEngine::check_client_present(true).is_ok());
    match LaunchEngine::check_client_present(false) {
        Err(LauncherError::Minecraft(m)) => assert_eq!(m, "Client JAR missing after download"),
        _ => panic!("expected a Minecraft error"),
    }
    let cmd = LaunchEngine::game_command(
        "/usr/bin/java",
        &vec!["-Xmx2G".to_string()],
        "a.jar:b.jar",
        "net.minecraft.client.main.Main",
        &vec!["--version".to_string(), "1.21.1".to_string()],
        "/i/Vanilla",
    );
    assert_eq!(cmd.program, "/usr/bin/java");
    assert_eq!(
        cmd.args,
        vec!["-Xmx2G", "-cp", "a.jar:b.jar", "net.minecraft.client.main.Main", "--version", "1.21.1"]
    );
    assert_eq!(cmd.working_dir, "/i/Vanilla/game");
    let r = LaunchEngine::launched("1.21.1", 4242, "/usr/bin/java".to_string());
    assert!(r.success);
    assert_eq!(r.message, "Minecraft 1.21.1 launched (PID 4242)");
}

#[test]
fn test_toggle_installed_reveal_status() {
    let mut st = AppState::new();
    st.discover_hidden_count = 3;
    st.toggle_installed_reveal();
    assert!(st.show_installed_discover);
    assert_eq!(st.status_message.as_deref(), Some("Showing installed projects too (3 marked ✓)"));
    st.toggle_installed_reveal();
    assert!(!st.show_installed_discover);
    assert_eq!(st.status_message.as_deref(), Some("Installed projects hidden again (3)"));
}

#[test]
fn test_home_focus_index() {
    assert_eq!(home_focus_index(0), 0);
    assert_eq!(home_focus_index(10), 9);
    assert_eq!(home_focus_index(13), 10);
}

#[test]
fn test_remember_provisioned_java() {
    let mut b = BackendBridge::new(Config::default(), "/tmp/era".to_string());
    b.create_instance(instance("A", None));
    b.create_instance(instance("B", Some("/own/java")));
    assert!(b.remember_provisioned_java(instance("A", None), "/rt/java21/bin/java".to_string()));
    assert_eq!(b.list_instances()[0].java.as_deref(), Some("/rt/java21/bin/java"));
    assert!(!b.remember_provisioned_java(instance("B", Some("/own/java")), "/rt/x".to_string()));
    assert_eq!(b.list_instances()[1].java.as_deref(), Some("/own/java"));
}

#[test]
fn test_theme_colours_follow_setting() {
    let mut r = ThemeRegistry::new();
    r.apply("dracula", false);
    let t = r.current();
    let d = Theme::dracula();
    assert_eq!(t.name, d.name);
    assert_eq!(t.bg, d.bg);
    assert_eq!(t.accent, d.accent);
}
