use era_launcher::argus::events::KeyCode;
use era_launcher::argus::installs::{version_label, VersionQuery};
use era_launcher::argus::state::{AppState, DiscoverTab, PendingInstall};
use era_launcher::instances::InstanceConfig;
use era_launcher::modrinth::{Project, Version};

fn version(id: &str, number: &str, kind: &str) -> Version {
    Version {
        id: id.to_string(),
        name: number.to_string(),
        version_number: number.to_string(),
        version_type: kind.to_string(),
        loaders: vec!["fabric".to_string()],
        game_versions: vec!["1.21.1".to_string()],
        files: Vec::new(),
    }
}

fn query() -> VersionQuery {
    VersionQuery {
        project_id: "p".to_string(),
        title: "Sodium".to_string(),
        content_type: "mod".to_string(),
        instance_id: "i".to_string(),
        game_version: "1.21.1".to_string(),
        loader: Some("fabric".to_string()),
    }
}

#[test]
fn version_labels_pad_and_centre() {
    let l = version_label("0.5.11", "beta");
    assert_eq!(l, format!("{:<34} [{:^6}]", "0.5.11", "beta"));
    assert_eq!(version_label("1.0", ""), format!("{:<34} [{:^6}]", "1.0", "?"));
    assert_eq!(version_label("1.0", "release"), format!("{:<34} [{:^6}]", "1.0", "release"));
    let long = "x".repeat(40);
    let l = version_label(&long, "alpha");
    assert!(l.starts_with(&format!("{}\u{2026}", "x".repeat(33))));
}

#[test]
fn chooser_needs_an_instance_with_a_loader() {
    let mut st = AppState::new();
    assert!(st.begin_install_chooser(0).is_none());
    st.modrinth_results = vec![Project {
        id: "p".to_string(),
        slug: "sodium".to_string(),
        title: "Sodium".to_string(),
        description: String::new(),
        project_type: "mod".to_string(),
        downloads: 1,
    }];
    assert!(st.begin_install_chooser(0).is_none());
    assert_eq!(st.status_message.as_deref(), Some("No instances yet \u{2014} create one on HOME first"));
    let mut inst = InstanceConfig {
        id: "i".to_string(),
        name: "Main".to_string(),
        game_version: "1.21.1".to_string(),
        loader: "vanilla".to_string(),
        loader_version: None,
        memory: 2048,
        java: None,
        game_dir: None,
        resolution_width: None,
        resolution_height: None,
        account_uuid: None,
        minecraft_dir: None,
        custom_jvm_args: Vec::new(),
    };
    st.selected_instance = Some(inst.clone());
    assert!(st.begin_install_chooser(0).is_none());
    assert_eq!(
        st.error_message.as_deref(),
        Some("'Sodium' needs a Fabric/Quilt instance \u{2014} 'Main' is vanilla")
    );
    inst.loader = "fabric".to_string();
    st.selected_instance = Some(inst);
    let q = st.begin_install_chooser(0).unwrap();
    assert_eq!(q.loader.as_deref(), Some("fabric"));
    assert_eq!(q.content_type, "mod");
    assert_eq!(st.loading_message.as_deref(), Some("Fetching Sodium versions..."));
    st.discover_tab = DiscoverTab::Shaders;
    let q = st.begin_install_chooser(0).unwrap();
    assert!(q.loader.is_none());
    assert_eq!(q.content_type, "shader");
}

#[test]
fn chooser_lists_versions_and_reports_none() {
    let mut st = AppState::new();
    st.finish_install_chooser(query(), Ok(vec![version("v2", "0.6.0", "release"), version("v1", "0.5.0", "beta")]));
    let pi = st.pending_install.as_ref().unwrap();
    assert_eq!(pi.rows.len(), 2);
    assert_eq!(pi.rows[0].0, "v2");
    assert_eq!(pi.rows[0].1, version_label("0.6.0", "release"));
    assert_eq!(pi.instance_id.as_deref(), Some("i"));
    assert_eq!(st.install_version_index, 0);
    let mut other = AppState::new();
    other.finish_install_chooser(query(), Ok(Vec::new()));
    assert_eq!(other.error_message.as_deref(), Some("No builds of 'Sodium' for MC 1.21.1 (fabric) "));
    other.finish_install_chooser(query(), Err("offline".to_string()));
    assert_eq!(other.error_message.as_deref(), Some("offline"));
}

#[test]
fn chooser_keys_move_and_choose() {
    let mut st = AppState::new();
    st.pending_install = Some(PendingInstall {
        project_id: "p".to_string(),
        title: "Sodium".to_string(),
        content_type: "mod".to_string(),
        instance_id: Some("i".to_string()),
        rows: (0..15).map(|i| (format!("v{}", i), format!("row {}", i))).collect(),
    });
    st.handle_install_version_input(KeyCode::PageDown);
    assert_eq!(st.install_version_index, 10);
    st.handle_install_version_input(KeyCode::PageDown);
    assert_eq!(st.install_version_index, 14);
    st.handle_install_version_input(KeyCode::Down);
    assert_eq!(st.install_version_index, 14);
    st.handle_install_version_input(KeyCode::Home);
    assert_eq!(st.install_version_index, 0);
    st.handle_install_version_input(KeyCode::End);
    st.handle_install_version_input(KeyCode::Up);
    let (pi, vid) = st.handle_install_version_input(KeyCode::Enter).unwrap();
    assert_eq!(vid, "v13");
    assert_eq!(pi.title, "Sodium");
    assert!(st.pending_install.is_none());
}

#[test]
fn install_outcome_is_reported_and_recorded() {
    let mut st = AppState::new();
    let pi = PendingInstall {
        project_id: "p".to_string(),
        title: "Sodium".to_string(),
        content_type: "mod".to_string(),
        instance_id: Some("i".to_string()),
        rows: Vec::new(),
    };
    st.begin_install(&pi);
    assert_eq!(st.loading_message.as_deref(), Some("Installing Sodium..."));
    let rec = st.finish_install(&pi, Ok(("sodium-0.6.0.jar".to_string(), Some("v2".to_string())))).unwrap();
    assert_eq!(rec.0, "i");
    assert_eq!(rec.1.filename, "sodium-0.6.0.jar");
    assert_eq!(rec.1.version_id.as_deref(), Some("v2"));
    assert!(!st.loading);
    assert_eq!(st.status_message.as_deref(), Some("Installed: sodium-0.6.0.jar"));
    assert_eq!(st.logs.back().unwrap().message, "Installed 'Sodium' (mod) \u{2192} sodium-0.6.0.jar");
    assert!(st.finish_install(&pi, Err("boom".to_string())).is_none());
    assert_eq!(st.error_message.as_deref(), Some("Install failed: boom"));
}
