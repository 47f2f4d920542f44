use era_launcher::argus::state::{AppState, DiscoverTab, LogLevel, RuntimeState, Section};
use era_launcher::instances::InstanceConfig;

#[test]
fn test_is_newer_version() {
    assert!(AppState::is_newer_version("v0.1.2", "0.1.1"));
    assert!(AppState::is_newer_version("0.2.0", "v0.1.9"));
    assert!(AppState::is_newer_version("1.0", "0.9.9"));
    assert!(AppState::is_newer_version("v1.0.0", "0.99.99"));
    assert!(!AppState::is_newer_version("v0.1.1", "0.1.1"));
    assert!(!AppState::is_newer_version("0.1.0", "0.1.1"));
    assert!(!AppState::is_newer_version("0.1", "0.1.1"));
    assert!(!AppState::is_newer_version("", "0.1.1"));
    assert!(!AppState::is_newer_version("garbage", "0.1.1"));
}

#[test]
fn test_newer_version_is_a_strict_order() {
    assert!(!AppState::is_newer_version("2.0.0", "2.0.0"));
    assert!(AppState::is_newer_version("2.1", "2.0.5"));
    assert!(!AppState::is_newer_version("2.0.5", "2.1"));
}

#[test]
fn test_section_labels() {
    assert_eq!(Section::Home.label(), "HOME");
    assert_eq!(Section::Discover.label(), "DISCOVER");
    assert_eq!(Section::Instances.label(), "INSTANCES");
    assert_eq!(Section::Mods.label(), "MODS");
    assert_eq!(Section::Worlds.label(), "WORLDS");
    assert_eq!(Section::Logs.label(), "LOGS");
    assert_eq!(Section::Settings.label(), "SETTINGS");
}

#[test]
fn test_runtime_state_indicators() {
    assert_eq!(RuntimeState::Stopped.status_indicator(), " ");
    assert_eq!(RuntimeState::Starting.status_indicator(), "\u{21bb}");
    assert_eq!(RuntimeState::Running.status_indicator(), "\u{25cf}");
    assert_eq!(RuntimeState::Stopping.status_indicator(), "\u{21ba}");
    assert_eq!(RuntimeState::Error("test".to_string()).status_indicator(), "\u{2717}");
}

#[test]
fn test_command_history() {
    let mut state = AppState::new();
    state.add_to_history("launch");
    state.add_to_history("status");
    assert_eq!(state.command_history.len(), 2);
    assert_eq!(state.history_position, 0);
}

#[test]
fn test_command_history_previous_next() {
    let mut state = AppState::new();
    state.add_to_history("first");
    state.add_to_history("second");
    state.add_to_history("third");

    state.previous_command();
    assert_eq!(state.command_input, "third");
    assert_eq!(state.history_position, 1);

    state.previous_command();
    assert_eq!(state.command_input, "second");
    assert_eq!(state.history_position, 2);

    state.previous_command();
    assert_eq!(state.command_input, "first");
    assert_eq!(state.history_position, 3);

    state.previous_command();
    assert_eq!(state.command_input, "first");
    assert_eq!(state.history_position, 3);

    state.next_command();
    assert_eq!(state.command_input, "second");
    assert_eq!(state.history_position, 2);

    state.next_command();
    assert_eq!(state.command_input, "third");
    assert_eq!(state.history_position, 1);

    state.next_command();
    assert!(state.command_input.is_empty());
    assert_eq!(state.history_position, 0);
}

#[test]
fn test_log_entries() {
    let mut state = AppState::new();
    state.log(LogLevel::Info, "TestSource", "Test message");
    assert_eq!(state.logs.len(), 1);
    let entry = state.logs.back().unwrap();
    assert_eq!(entry.level, LogLevel::Info);
    assert_eq!(entry.source, "TestSource");
    assert_eq!(entry.message, "Test message");
}

#[test]
fn test_log_truncation() {
    let mut state = AppState::new();
    for i in 0..1100 {
        state.log(LogLevel::Info, "Test", &format!("Message {}", i));
    }
    assert_eq!(state.logs.len(), 1000);
    assert_eq!(state.logs.back().unwrap().message, "Message 1099");
    assert_eq!(state.logs.front().unwrap().message, "Message 100");
}

#[test]
fn test_set_error() {
    let mut state = AppState::new();
    state.set_error("Test error".to_string());
    assert_eq!(state.error_message, Some("Test error".to_string()));
    state.clear_error();
    assert_eq!(state.error_message, None);
}

#[test]
fn test_select_instance() {
    let mut state = AppState::new();
    state.instances.push(InstanceConfig {
        id: "test-id".to_string(),
        name: "Test Instance".to_string(),
        game_version: "1.21.1".to_string(),
        loader: "fabric".to_string(),
        loader_version: Some("0.16.14".to_string()),
        memory: 4096,
        java: None,
        game_dir: None,
        resolution_width: None,
        resolution_height: None,
        account_uuid: None,
        minecraft_dir: None,
        custom_jvm_args: Vec::new(),
    });
    state.select_instance(0);
    assert!(state.selected_instance.is_some());
    assert_eq!(state.selected_instance.as_ref().unwrap().name, "Test Instance");
}

#[test]
fn test_empty_command_history_no_panic() {
    let mut state = AppState::new();
    state.previous_command();
    state.next_command();
    assert!(state.command_input.is_empty());
}

#[test]
fn test_add_empty_to_history() {
    let mut state = AppState::new();
    state.add_to_history("");
    state.add_to_history("   ");
    assert_eq!(state.command_history.len(), 0);
    state.add_to_history("valid");
    assert_eq!(state.command_history.len(), 1);
}

#[test]
fn test_sections_count() {
    let sections = AppState::sections();
    assert_eq!(sections.len(), 10);
}

#[test]
fn test_discover_tab_labels() {
    assert_eq!(DiscoverTab::default().label(), "Mods");
    assert_eq!(DiscoverTab::Modpacks.label(), "Modpacks");
    assert_eq!(DiscoverTab::Shaders.label(), "Shaders");
    assert_eq!(DiscoverTab::ResourcePacks.label(), "Resource Packs");
    assert_eq!(DiscoverTab::all().len(), 4);
}

#[test]
fn test_navigate_to_sets_section() {
    let mut state = AppState::new();
    state.navigate_to(Section::Crashes);
    assert_eq!(state.current_section, Section::Crashes);
}
