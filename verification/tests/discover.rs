use era_launcher::argus::backend::BackendBridge;
use era_launcher::argus::discover::{active_category_id, CategorySwitch};
use era_launcher::argus::state::{AppState, DiscoverPane, DiscoverTab, InstalledContent, Section};
use era_launcher::config::Config;
use era_launcher::instances::InstanceConfig;
use era_launcher::modrinth::Project;

fn project(id: &str, title: &str) -> Project {
    Project {
        id: id.to_string(),
        slug: id.to_string(),
        title: title.to_string(),
        description: String::new(),
        project_type: "mod".to_string(),
        downloads: 0,
    }
}

fn instance(id: &str, loader: &str, gv: &str) -> InstanceConfig {
    InstanceConfig {
        id: id.to_string(),
        name: format!("Inst {}", id),
        game_version: gv.to_string(),
        loader: loader.to_string(),
        loader_version: None,
        memory: 4096,
        java: None,
        game_dir: None,
        resolution_width: None,
        resolution_height: None,
        account_uuid: None,
        minecraft_dir: None,
        custom_jvm_args: Vec::new(),
    }
}

#[test]
fn classify_flags_recorded_and_matching_files() {
    let mut st = AppState::new();
    st.modrinth_results = vec![project("AANobbMI", "Sodium"), project("gvQqBUqZ", "Lithium"), project("x", "Iris Shaders")];
    st.installed_content = vec![InstalledContent {
        name: "lithium-fabric-0.11.2".to_string(),
        kind: "MOD",
        path: "/i/mods/lithium-fabric-0.11.2.jar".to_string(),
        size_bytes: 1,
    }];
    st.classify_installed_results(&["AANobbMI".to_string()]);
    assert_eq!(st.result_installed, vec![true, true, false]);
    assert_eq!(st.discover_hidden_count, 2);
    st.show_installed_discover = true;
    st.classify_installed_results(&["AANobbMI".to_string()]);
    assert_eq!(st.discover_hidden_count, 0);
}

#[test]
fn category_ids_and_results_pane() {
    assert_eq!(active_category_id(DiscoverTab::Shaders), "disc_cat_2");
    let mut st = AppState::new();
    assert_eq!(st.enter_results_pane(), "disc_cat_0");
    assert_eq!(st.discover_pane, DiscoverPane::Categories);
    st.modrinth_results = vec![project("a", "A"), project("b", "B")];
    st.result_installed = vec![true, false];
    assert_eq!(st.enter_results_pane(), "project_1");
    assert_eq!(st.discover_pane, DiscoverPane::Results);
}

#[test]
fn discover_step_wraps_inside_the_pane() {
    let mut st = AppState::new();
    assert_eq!(st.discover_step(Some("disc_search".to_string()), 1).as_deref(), Some("disc_cat_0"));
    assert_eq!(st.discover_step(Some("disc_cat_0".to_string()), -1).as_deref(), Some("disc_search"));
    assert_eq!(st.discover_step(Some("nav_home".to_string()), -1).as_deref(), Some("disc_search"));
    assert_eq!(st.discover_step(None, 1).as_deref(), Some("disc_cat_0"));
    st.discover_pane = DiscoverPane::Results;
    assert!(st.discover_step(None, 1).is_none());
    assert_eq!(st.status_message.as_deref(), Some("No results \u{2014} pick another category (ESC)"));
    st.modrinth_results = vec![project("a", "A"), project("b", "B"), project("c", "C")];
    st.result_installed = vec![false, true, false];
    assert_eq!(st.discover_step(Some("project_0".to_string()), 1).as_deref(), Some("project_2"));
    assert_eq!(st.discover_step(Some("project_2".to_string()), 1).as_deref(), Some("project_0"));
}

#[test]
fn switching_category_drops_or_keeps_results() {
    let mut st = AppState::new();
    assert_eq!(st.switch_discover_category(7), CategorySwitch::Ignored);
    st.modrinth_results = vec![project("a", "A")];
    assert_eq!(st.switch_discover_category(0), CategorySwitch::EnterResults);
    assert_eq!(st.modrinth_results.len(), 1);
    assert_eq!(st.switch_discover_category(3), CategorySwitch::Fetch);
    assert_eq!(st.discover_tab, DiscoverTab::ResourcePacks);
    assert!(st.modrinth_results.is_empty());
}

#[test]
fn discover_staleness_follows_the_selected_instance() {
    let mut st = AppState::new();
    st.current_section = Section::Discover;
    st.selected_instance = Some(instance("a", "fabric", "1.21.1"));
    assert!(st.discover_is_stale());
    st.discover_scoped_instance = Some("a".to_string());
    st.discover_game_version = "1.21.1".to_string();
    assert!(!st.discover_is_stale());
    st.discover_game_version = "1.20.1".to_string();
    assert!(st.discover_is_stale());
    st.current_section = Section::Home;
    assert!(!st.discover_is_stale());
    st.discover_search = "x".to_string();
    st.modrinth_results = vec![project("a", "A")];
    st.reset_discover();
    assert!(st.discover_search.is_empty() && st.modrinth_results.is_empty());
}

#[test]
fn begin_fetch_scopes_to_the_instance() {
    let mut st = AppState::new();
    assert!(st.begin_discover_fetch("").is_none());
    assert_eq!(
        st.status_message.as_deref(),
        Some("No instances yet \u{2014} create one on HOME to browse content")
    );
    st.selected_instance = Some(instance("v", "vanilla", "1.21.1"));
    assert!(st.begin_discover_fetch("").is_none());
    assert_eq!(
        st.status_message.as_deref(),
        Some("Mods require a Fabric/Quilt instance \u{2014} 'Inst v' is vanilla")
    );
    st.selected_instance = Some(instance("f", "fabric", "1.21.1"));
    let s = st.begin_discover_fetch("sodium").unwrap();
    assert_eq!(s.content_type, "mod");
    assert_eq!(s.loader, "fabric");
    assert_eq!(s.game_version, "1.21.1");
    assert_eq!(s.query, "sodium");
    assert!(st.loading);
    assert_eq!(st.loading_message.as_deref(), Some("Searching Mods for 'sodium' (MC 1.21.1)..."));
    assert_eq!(st.discover_scoped_instance.as_deref(), Some("f"));
    st.discover_tab = DiscoverTab::Shaders;
    let s = st.begin_discover_fetch("").unwrap();
    assert_eq!(s.loader, "");
    assert_eq!(s.content_type, "shader");
    assert_eq!(st.loading_message.as_deref(), Some("Loading Shaders for MC 1.21.1 ..."));
}

#[test]
fn finish_fetch_reports_results() {
    let mut st = AppState::new();
    st.finish_discover_fetch("", Ok(vec![project("a", "A"), project("b", "B")]), &["a".to_string()]);
    assert!(!st.loading);
    assert_eq!(st.modrinth_results.len(), 2);
    assert_eq!(st.discover_hidden_count, 1);
    assert_eq!(st.logs.back().unwrap().message, "Mods: 2 shown, 1 already installed (hidden)");
    st.finish_discover_fetch("xyz", Ok(Vec::new()), &[]);
    assert_eq!(st.status_message.as_deref(), Some("No new mods to show for 'xyz'"));
    st.finish_discover_fetch("", Err("timeout".to_string()), &[]);
    assert_eq!(st.error_message.as_deref(), Some("Modrinth fetch failed: timeout"));
    let _ = BackendBridge::new(Config::default(), String::new());
}
