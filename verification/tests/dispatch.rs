use era_launcher::argus::dispatch::{key_intent, Activation, KeyIntent, Target};
use era_launcher::argus::events::{KeyCode, KeyModifiers};
use era_launcher::argus::state::{AppState, DiscoverPane, Section, SettingsEditMode};
use era_launcher::instances::InstanceConfig;

fn intent(st: &AppState, code: KeyCode, m: KeyModifiers, focused: Option<&str>) -> KeyIntent {
    let cx = st.key_context(focused.map(|s| s.to_string()));
    key_intent(code, m, &cx)
}

#[test]
fn test_help_overlay_swallows_keys() {
    let mut st = AppState::new();
    st.help_overlay = true;
    assert!(matches!(intent(&st, KeyCode::Char('q'), KeyModifiers::none(), None), KeyIntent::Nothing));
    assert!(matches!(intent(&st, KeyCode::Esc, KeyModifiers::none(), None), KeyIntent::CloseHelp));
    assert!(matches!(intent(&st, KeyCode::Char('?'), KeyModifiers::none(), None), KeyIntent::CloseHelp));
}

#[test]
fn test_key_intents() {
    let mut st = AppState::new();
    let none = KeyModifiers::none();
    assert!(matches!(intent(&st, KeyCode::Char('q'), none, None), KeyIntent::Quit));
    assert!(matches!(intent(&st, KeyCode::Char('c'), KeyModifiers::control(), None), KeyIntent::Quit));
    assert!(matches!(
        intent(&st, KeyCode::Char('c'), none, None),
        KeyIntent::Activate(Target::HomeCreate)
    ));
    assert!(matches!(intent(&st, KeyCode::Char('l'), KeyModifiers::control(), None), KeyIntent::OpenCommandPrompt));
    assert!(matches!(intent(&st, KeyCode::Char('w'), none, None), KeyIntent::GoTo(Section::Worlds)));
    assert!(matches!(intent(&st, KeyCode::Tab, none, None), KeyIntent::FocusNext));
    assert!(matches!(intent(&st, KeyCode::Enter, none, Some("nav_home")), KeyIntent::EnterSection));
    assert!(matches!(
        intent(&st, KeyCode::Enter, none, Some("home_play")),
        KeyIntent::Activate(Target::Focused)
    ));
    assert!(matches!(intent(&st, KeyCode::Down, none, None), KeyIntent::ContentStep(1)));
    st.current_section = Section::Discover;
    assert!(matches!(intent(&st, KeyCode::Char('3'), none, None), KeyIntent::SwitchCategory(2)));
    assert!(matches!(intent(&st, KeyCode::PageDown, none, None), KeyIntent::DiscoverJump(5)));
    st.discover_pane = DiscoverPane::Results;
    assert!(matches!(intent(&st, KeyCode::Esc, none, None), KeyIntent::DiscoverBackToCategories));
    st.current_section = Section::Logs;
    assert!(matches!(intent(&st, KeyCode::Home, none, None), KeyIntent::LogsToTop));
    assert!(matches!(
        intent(&st, KeyCode::Char('L'), KeyModifiers::shift(), None),
        KeyIntent::Activate(Target::LiveLog)
    ));
    st.current_section = Section::Settings;
    st.settings_edit_mode = SettingsEditMode::ThemeSelector;
    assert!(matches!(intent(&st, KeyCode::Enter, none, Some("settings_theme")), KeyIntent::ApplySettingsEdit));
    assert!(matches!(intent(&st, KeyCode::Esc, none, None), KeyIntent::CancelSettingsEdit));
}

#[test]
fn test_activations() {
    let mut st = AppState::new();
    assert_eq!(st.activation("home_play"), Activation::Launch);
    assert_eq!(st.activation("disc_cat_2"), Activation::SwitchCategory(2));
    assert_eq!(st.activation("disc_cat_x"), Activation::Nothing);
    assert_eq!(st.activation("project_17"), Activation::OpenVersionChooser(17));
    assert_eq!(st.activation("instance_stop"), Activation::StopGame);
    assert_eq!(st.activation("settings_theme"), Activation::OpenThemeSelector);
    assert_eq!(st.activation("settings_window"), Activation::Nothing);
    assert_eq!(st.activation("server_3"), Activation::ActivateServer(3));
    assert_eq!(st.activation("server_add"), Activation::Nothing);
    assert_eq!(st.activation("screenshot_0"), Activation::Nothing);
    assert_eq!(st.activation("logs_live"), Activation::ToggleLiveLog);
    let mut a = InstanceConfig::default();
    a.id = "A".to_string();
    let mut b = InstanceConfig::default();
    b.id = "B".to_string();
    st.instances = vec![a, b];
    assert_eq!(st.activation("instance_1"), Activation::SelectInstance(1));
    st.select_instance(1);
    assert_eq!(st.activation("instance_1"), Activation::LaunchInstance(1));
    assert_eq!(st.activation("instance_0"), Activation::SelectInstance(0));
}
