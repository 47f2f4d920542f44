use era_launcher::argus::launching::LaunchUpdate;
use era_launcher::argus::state::{AppState, LogLevel, RuntimeState};
use era_launcher::instances::InstanceConfig;

fn instance(id: &str) -> InstanceConfig {
    InstanceConfig {
        id: id.to_string(),
        name: format!("Inst {}", id),
        game_version: "1.21.1".to_string(),
        loader: "vanilla".to_string(),
        loader_version: None,
        memory: 2048,
        java: None,
        game_dir: None,
        resolution_width: None,
        resolution_height: None,
        account_uuid: None,
        minecraft_dir: None,
        custom_jvm_args: Vec::new(),
    }
}

#[test]
fn launch_is_refused_when_busy_or_missing() {
    let mut st = AppState::new();
    assert!(st.begin_launch(0, false).is_none());
    assert_eq!(st.error_message.as_deref(), Some("No instances available"));
    st.instances = vec![instance("a"), instance("b")];
    assert!(st.begin_launch(1, true).is_none());
    assert_eq!(st.status_message.as_deref(), Some("A launch is already in progress \u{2014} watch the bar below"));
    st.runtime_state = RuntimeState::Running;
    assert!(st.begin_launch(1, false).is_none());
    assert_eq!(
        st.status_message.as_deref(),
        Some("Minecraft is already starting/running \u{2014} wait or press Stop")
    );
    st.runtime_state = RuntimeState::Stopped;
    let inst = st.begin_launch(1, false).unwrap();
    assert_eq!(inst.id, "b");
    assert!(matches!(st.runtime_state, RuntimeState::Starting));
    assert_eq!(st.loading_message.as_deref(), Some("Preparing launch..."));
    assert_eq!(st.logs.back().unwrap().message, "Launching instance: Inst b");
}

#[test]
fn selected_row_finds_the_selected_instance() {
    let mut st = AppState::new();
    st.instances = vec![instance("a"), instance("b")];
    assert_eq!(st.selected_instance_row(), 0);
    st.selected_instance = Some(instance("b"));
    assert_eq!(st.selected_instance_row(), 1);
    st.selected_instance = Some(instance("zz"));
    assert_eq!(st.selected_instance_row(), 0);
}

#[test]
fn launch_updates_move_the_runtime_state() {
    let mut st = AppState::new();
    assert!(!st.apply_launch_update(LaunchUpdate::Progress("Downloading...".to_string())));
    assert_eq!(st.loading_message.as_deref(), Some("Downloading..."));
    assert!(!st.apply_launch_update(LaunchUpdate::Log(LogLevel::Warn, "slow".to_string())));
    assert_eq!(st.logs.back().unwrap().source, "BACKEND");
    assert!(st.apply_launch_update(LaunchUpdate::Launched(4242)));
    assert!(matches!(st.runtime_state, RuntimeState::Running));
    assert!(!st.loading);
    assert_eq!(st.status_message.as_deref(), Some("Launched (PID 4242) \u{2014} see LOGS for output"));
    assert!(st.apply_launch_update(LaunchUpdate::Failed("no java".to_string())));
    assert!(matches!(&st.runtime_state, RuntimeState::Error(e) if e == "no java"));
    assert_eq!(st.error_message.as_deref(), Some("Launch failed: no java"));
}
