use era_launcher::argus::backend::BackendBridge;
use era_launcher::argus::navigation::SettingsChoice;
use era_launcher::argus::state::{AppState, SettingsEditMode};
use era_launcher::config::Config;
use era_launcher::minecraft::java::{JavaInstallation, JavaVersion};
use era_launcher::minecraft::optimization::OptimizationProfile;

fn bridge() -> BackendBridge {
    BackendBridge::new(Config::default(), "/tmp/era".to_string())
}

fn last(st: &AppState) -> String {
    st.logs.back().unwrap().message.clone()
}

#[test]
fn editors_open_on_the_current_value() {
    let mut st = AppState::new();
    let mut b = bridge();
    b.set_default_memory(8192);
    st.open_memory_selector(&b);
    assert_eq!(st.settings_edit_mode, SettingsEditMode::MemorySelector);
    assert_eq!(st.settings_edit_index, 3);
    assert_eq!(last(&st), "Memory selector opened (current: 8192 MB, 6 presets)");
    b.set_default_memory(5000);
    st.open_memory_selector(&b);
    assert_eq!(st.settings_edit_index, 1);
    st.open_theme_selector(&b);
    let expected = st.theme_options.iter().position(|t| *t == b.config.settings.theme).unwrap_or(0);
    assert_eq!(st.settings_edit_index, expected);
    assert_eq!(last(&st), format!("Theme selector opened (current: {})", b.config.settings.theme));
    b.set_optimization_profile(OptimizationProfile::High);
    st.open_optimization_selector(&b);
    assert_eq!(st.settings_edit_index, 2);
    assert_eq!(last(&st), "Optimization selector opened (current: High)");
    b.set_custom_jvm_args("-Xss4M  -XX:+UseZGC");
    st.open_custom_jvm_editor(&b);
    assert_eq!(st.custom_jvm_input, "-Xss4M -XX:+UseZGC");
    assert_eq!(st.settings_edit_mode, SettingsEditMode::CustomJvmEditor);
    st.open_java_selector();
    assert_eq!(last(&st), "Java selector opened");
    st.open_language_info();
    assert_eq!(last(&st), "Language: only English is currently available");
}

#[test]
fn moving_in_an_editor_logs_the_selection() {
    let mut st = AppState::new();
    st.settings_edit_mode = SettingsEditMode::MemorySelector;
    st.settings_edit_index = 1;
    st.settings_edit_down();
    assert_eq!(last(&st), "Memory: 6144 MB selected");
    st.settings_edit_mode = SettingsEditMode::JavaSelector;
    st.settings_edit_index = 0;
    st.java_installations = vec![JavaInstallation {
        path: "/usr/bin/java".to_string(),
        version: Some(JavaVersion { major: 21, minor: 0, path: "/usr/bin/java".to_string() }),
    }];
    st.settings_edit_down();
    assert_eq!(last(&st), "Java: Java 21 \u{2014} /usr/bin/java");
    st.settings_edit_up();
    assert_eq!(last(&st), "Java: Auto-detect selected");
    st.settings_edit_mode = SettingsEditMode::OptimizationSelector;
    st.settings_edit_index = 3;
    st.settings_edit_up();
    assert_eq!(last(&st), "Optimization: High");
    st.cancel_settings_edit();
    assert_eq!(last(&st), "Settings edit cancelled");
}

#[test]
fn applying_a_choice_updates_the_settings() {
    let mut st = AppState::new();
    let mut b = bridge();
    assert!(st.apply_settings_choice(&mut b, SettingsChoice::Memory(12288)));
    assert_eq!(b.config.settings.default_memory, 12288);
    assert_eq!(last(&st), "Default memory set to 12288 MB (persisted)");
    assert!(st.apply_settings_choice(&mut b, SettingsChoice::JavaPath("/opt/java".to_string())));
    assert_eq!(b.config.settings.java_path.as_deref(), Some("/opt/java"));
    assert!(st.apply_settings_choice(&mut b, SettingsChoice::JavaAuto));
    assert!(b.config.settings.java_path.is_none());
    assert!(st.apply_settings_choice(&mut b, SettingsChoice::Theme("dracula".to_string())));
    assert_eq!(last(&st), "Theme set to dracula (persisted, applied)");
    assert!(st.apply_settings_choice(&mut b, SettingsChoice::Optimization(OptimizationProfile::Low)));
    assert_eq!(last(&st), "Optimization profile set to Low (persisted)");
    assert!(!st.apply_settings_choice(&mut b, SettingsChoice::Language));
    assert!(!st.apply_settings_choice(&mut b, SettingsChoice::CustomEditor));
    assert_eq!(st.settings_edit_mode, SettingsEditMode::CustomJvmEditor);
    assert!(!st.apply_settings_choice(&mut b, SettingsChoice::Nothing));
}
