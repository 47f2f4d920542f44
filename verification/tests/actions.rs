use era_launcher::argus::backend::BackendBridge;
use era_launcher::argus::state::{AppState, RuntimeState, UpdatableMod};
use era_launcher::config::Config;
use era_launcher::instances::InstanceConfig;
use era_launcher::servers::{PingInfo, ServerEntry};

fn instance(id: &str) -> InstanceConfig {
    InstanceConfig {
        id: id.to_string(),
        name: format!("Inst {}", id),
        game_version: "1.21.1".to_string(),
        loader: "fabric".to_string(),
        loader_version: None,
        memory: 2048,
        java: None,
        game_dir: None,
        resolution_width: None,
        resolution_height: None,
        account_uuid: None,
        minecraft_dir: None,
        custom_jvm_args: Vec::new(),
    }
}

#[test]
fn deleting_the_selected_instance() {
    let mut st = AppState::new();
    let mut b = BackendBridge::new(Config::default(), "/tmp/era".to_string());
    assert!(!st.delete_selected_instance(&mut b));
    assert_eq!(st.status_message.as_deref(), Some("No instance selected \u{2014} \u{2191}\u{2193} to pick one"));
    b.create_instance(instance("a"));
    st.selected_instance = Some(instance("a"));
    assert!(st.delete_selected_instance(&mut b));
    assert!(st.selected_instance.is_none());
    assert_eq!(st.status_message.as_deref(), Some("Deleted 'Inst a'"));
    assert!(b.list_instances().is_empty());
    st.selected_instance = Some(instance("zz"));
    assert!(!st.delete_selected_instance(&mut b));
    assert_eq!(st.error_message.as_deref(), Some("Failed to delete instance 'Inst zz'"));
}

#[test]
fn stopping_the_game() {
    let mut st = AppState::new();
    st.begin_stop(true);
    assert!(matches!(st.runtime_state, RuntimeState::Stopping));
    assert_eq!(st.logs.back().unwrap().message, "Stopping Minecraft...");
    st.finish_stop(true);
    assert!(matches!(st.runtime_state, RuntimeState::Stopped));
    st.begin_stop(false);
    assert_eq!(st.logs.back().unwrap().message, "Minecraft is not running");
    st.finish_stop(false);
    assert!(matches!(&st.runtime_state, RuntimeState::Error(m) if m == "Failed to stop process"));
    assert_eq!(st.error_message.as_deref(), Some("Failed to stop Minecraft process"));
}

#[test]
fn worlds_are_found_by_focus_id() {
    let mut st = AppState::new();
    st.worlds = vec!["Alpha".to_string(), "Beta".to_string()];
    assert_eq!(st.focused_world("world_1").as_deref(), Some("Beta"));
    assert_eq!(st.focused_world("world_world_0").as_deref(), Some("Alpha"));
    assert!(st.focused_world("world_2").is_none());
    assert!(st.focused_world("server_0").is_none());
    assert!(st.backup_target("world_0").is_none());
    assert_eq!(st.status_message.as_deref(), Some("Select an instance first (\u{2191}\u{2193} on INSTANCES)"));
    st.selected_instance = Some(instance("a"));
    assert!(st.backup_target("nav_home").is_none());
    assert_eq!(st.status_message.as_deref(), Some("No world focused"));
    assert_eq!(st.backup_target("world_0"), Some(("a".to_string(), "Alpha".to_string())));
    st.backup_finished("Alpha", Ok("/b/Alpha.zip".to_string()));
    assert_eq!(st.status_message.as_deref(), Some("Backed up to /b/Alpha.zip"));
    assert_eq!(st.logs.back().unwrap().message, "Backed up 'Alpha' to /b/Alpha.zip");
    st.backup_finished("Alpha", Err("disk full".to_string()));
    assert_eq!(st.error_message.as_deref(), Some("Backup failed: disk full"));
    st.world_deleted("Beta", Ok(()));
    assert_eq!(st.logs.back().unwrap().message, "Deleted 'Beta'");
}

#[test]
fn pinging_a_server_records_the_result() {
    let mut st = AppState::new();
    assert!(st.begin_ping(0).is_none());
    st.servers = vec![ServerEntry {
        id: "s1".to_string(),
        name: "Hub".to_string(),
        address: "mc.example.org:25565".to_string(),
        instance_id: None,
    }];
    let (id, addr) = st.begin_ping(0).unwrap();
    assert_eq!(addr, "mc.example.org:25565");
    assert!(st.server_pinging);
    assert!(st.begin_ping(0).is_none());
    let info = PingInfo {
        description: "Hello".to_string(),
        players_online: 3,
        players_max: 20,
        version_name: "1.21.1".to_string(),
        latency_ms: 42,
    };
    st.finish_ping(id, Ok(info));
    assert!(!st.server_pinging);
    assert_eq!(st.server_pings.len(), 1);
    assert_eq!(st.server_pings[0].1.players_online, 3);
    st.begin_ping(0);
    st.finish_ping("s1".to_string(), Err("refused".to_string()));
    assert_eq!(st.error_message.as_deref(), Some("Ping failed: refused"));
}

#[test]
fn folder_crash_and_server_form_reports() {
    let mut st = AppState::new();
    st.folder_opened("/x", false, false);
    assert_eq!(st.error_message.as_deref(), Some("Folder not found: /x"));
    st.folder_opened("/x", true, true);
    assert_eq!(st.status_message.as_deref(), Some("Opened folder: /x"));
    st.crash_copied(false, "/d/.crash-clipboard.txt");
    assert_eq!(st.status_message.as_deref(), Some("Clipboard unavailable \u{2014} wrote to /d/.crash-clipboard.txt"));
    st.crash_copied(true, "");
    assert_eq!(st.status_message.as_deref(), Some("Copied crash report to clipboard"));
    st.crash_deleted("/tmp/hs_err_pid1.log", false);
    assert_eq!(st.error_message.as_deref(), Some("Failed to delete /tmp/hs_err_pid1.log"));
    st.server_add_name = "x".to_string();
    st.open_server_add();
    assert!(st.server_add_open);
    assert!(st.server_add_name.is_empty());
}

#[test]
fn updating_a_mod_pins_its_latest_version() {
    let mut st = AppState::new();
    st.updatable_mods = vec![UpdatableMod {
        project_id: "p".to_string(),
        title: "sodium.jar".to_string(),
        installed_version: "v1".to_string(),
        latest_version: "0.6.0".to_string(),
        latest_version_id: "v2".to_string(),
        content_type: "weird".to_string(),
        filename: "sodium.jar".to_string(),
    }];
    assert!(st.update_mod_at_index(0).is_none());
    assert_eq!(st.status_message.as_deref(), Some("No instance selected"));
    st.selected_instance = Some(instance("a"));
    let (pi, vid) = st.update_mod_at_index(0).unwrap();
    assert_eq!(vid, "v2");
    assert_eq!(pi.content_type, "mod");
    assert_eq!(pi.rows, vec![("v2".to_string(), "0.6.0".to_string())]);
    assert_eq!(st.loading_message.as_deref(), Some("Updating sodium.jar..."));
    assert!(st.update_mod_at_index(5).is_none());
}
