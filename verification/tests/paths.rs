use era_launcher::argus::navigation::SettingsChoice;
use era_launcher::argus::state::{AppState, SettingsEditMode};
use era_launcher::minecraft::arguments::ArgumentBuilder;
use era_launcher::minecraft::optimization::OptimizationProfile;
use era_launcher::paths::{
    join_path, path_file_name, path_file_stem, path_first_component, set_extension,
    strip_first_component,
};

#[test]
fn test_join_and_names() {
    assert_eq!(join_path("/a", "b"), "/a/b");
    assert_eq!(join_path("/a/", "b"), "/a/b");
    assert_eq!(join_path("/a", "/abs"), "/abs");
    assert_eq!(path_file_name("/a/b.tar.gz"), Some("b.tar.gz".to_string()));
    assert_eq!(path_file_stem("/a/b.tar.gz"), Some("b.tar".to_string()));
    assert_eq!(path_file_stem("/a/.hidden"), Some(".hidden".to_string()));
    assert_eq!(path_file_name("/a/.."), None);
}

#[test]
fn test_extensions_and_components() {
    assert_eq!(set_extension("/a/b.jar", "part"), "/a/b.part");
    assert_eq!(set_extension("/a/b.jar", ""), "/a/b");
    assert_eq!(path_first_component("jdk/bin/java"), Some("jdk".to_string()));
    assert_eq!(path_first_component(""), None);
    assert_eq!(strip_first_component("jdk/bin/java"), "bin/java");
    assert_eq!(strip_first_component("jdk"), "");
}

#[test]
fn test_substitute_tokens() {
    let args = vec!["--user".to_string(), "${name}".to_string(), "x${name}y".to_string()];
    let tokens = vec![("name".to_string(), "Alex".to_string())];
    assert_eq!(
        ArgumentBuilder::substitute_tokens(&args, &tokens),
        vec!["--user".to_string(), "Alex".to_string(), "xAlexy".to_string()]
    );
    assert_eq!(ArgumentBuilder::manifest_os_name("macos"), "osx");
}

#[test]
fn test_optimization_profiles() {
    assert_eq!(OptimizationProfile::all().len(), 4);
    assert_eq!(OptimizationProfile::High.as_str(), "High");
    let args = OptimizationProfile::Mid.jvm_args(8192);
    assert!(args.iter().any(|a| a == "-Xmx6144M"));
    assert!(OptimizationProfile::Custom.jvm_args(8192).is_empty());
}

#[test]
fn test_settings_editor_moves_and_applies() {
    let mut st = AppState::new();
    st.settings_edit_mode = SettingsEditMode::MemorySelector;
    st.settings_edit_index = 5;
    st.settings_edit_down();
    assert_eq!(st.settings_edit_index, 5);
    st.settings_edit_up();
    assert_eq!(st.settings_edit_index, 4);
    assert!(matches!(st.apply_settings_edit(), SettingsChoice::Memory(12288)));
    assert_eq!(st.settings_edit_mode, SettingsEditMode::Inactive);
    assert_eq!(st.settings_edit_index, 0);

    st.settings_edit_mode = SettingsEditMode::OptimizationSelector;
    st.settings_edit_index = 3;
    assert!(matches!(st.apply_settings_edit(), SettingsChoice::CustomEditor));
    assert_eq!(st.settings_edit_mode, SettingsEditMode::CustomJvmEditor);

    st.settings_edit_mode = SettingsEditMode::JavaSelector;
    st.settings_edit_index = 0;
    assert!(matches!(st.apply_settings_edit(), SettingsChoice::JavaAuto));

    st.settings_edit_mode = SettingsEditMode::LanguageInfo;
    st.cancel_settings_edit();
    assert_eq!(st.settings_edit_mode, SettingsEditMode::Inactive);
}
