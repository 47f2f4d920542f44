use era_launcher::argus::backend::BackendBridge;
use era_launcher::argus::events::{KeyCode, KeyModifiers};
use era_launcher::argus::input::{pop_char, utf8_shorter_than, KeyOwner};
use era_launcher::argus::state::{AppState, SettingsEditMode};
use era_launcher::config::Config;
use era_launcher::minecraft::optimization::OptimizationProfile;

fn bridge() -> BackendBridge {
    BackendBridge::new(Config::default(), "/tmp/era-instances".to_string())
}

fn type_text(st: &mut AppState, b: &mut BackendBridge, text: &str) {
    for c in text.chars() {
        st.handle_account_input(b, KeyCode::Char(c), KeyModifiers::none());
    }
}

#[test]
fn utf8_length_counts_bytes() {
    assert!(utf8_shorter_than("abc", 4));
    assert!(!utf8_shorter_than("abcd", 4));
    // 'é' takes two bytes, so three of them are six bytes.
    assert!(!utf8_shorter_than("ééé", 6));
    assert!(utf8_shorter_than("ééé", 7));
    assert!(!utf8_shorter_than("", 0));
}

#[test]
fn pop_char_removes_last_character() {
    let mut s = "abé".to_string();
    pop_char(&mut s);
    assert_eq!(s, "ab");
    let mut e = String::new();
    pop_char(&mut e);
    assert_eq!(e, "");
}

#[test]
fn account_name_field_creates_and_selects_account() {
    let mut st = AppState::new();
    let mut b = bridge();
    st.open_account_selector(&b);
    assert!(st.account_selector_open);
    assert_eq!(st.account_selector_index, 0);
    // Enter on the create row opens the name field.
    assert!(!st.handle_account_input(&mut b, KeyCode::Enter, KeyModifiers::none()));
    assert!(st.account_input_mode);
    type_text(&mut st, &mut b, "Steve");
    assert_eq!(st.account_input, "Steve");
    let refresh = st.handle_account_input(&mut b, KeyCode::Enter, KeyModifiers::none());
    assert!(refresh);
    assert!(!st.account_input_mode);
    assert!(!st.account_selector_open);
    assert_eq!(st.accounts.len(), 1);
    assert_eq!(st.accounts[0].1, "Steve");
    assert_eq!(b.config.default_account.as_deref(), Some(st.accounts[0].0.as_str()));
    assert_eq!(st.status_message.as_deref(), Some("Offline account 'Steve' created and selected"));
}

#[test]
fn account_name_field_rejects_invalid_and_taken_names() {
    let mut st = AppState::new();
    let mut b = bridge();
    st.account_input_mode = true;
    type_text(&mut st, &mut b, "ab");
    assert!(!st.handle_account_input(&mut b, KeyCode::Enter, KeyModifiers::none()));
    assert!(st.account_input_mode);
    assert_eq!(
        st.error_message.as_deref(),
        Some("Username must be 3-16 characters: letters, numbers, underscore")
    );
    b.create_offline_account("Alex").unwrap();
    st.account_input = "alex".to_string();
    assert!(!st.handle_account_input(&mut b, KeyCode::Enter, KeyModifiers::none()));
    assert_eq!(st.error_message.as_deref(), Some("Account 'alex' already exists"));
}

#[test]
fn account_name_field_caps_at_sixteen_bytes_and_ignores_control() {
    let mut st = AppState::new();
    let mut b = bridge();
    st.account_input_mode = true;
    type_text(&mut st, &mut b, "abcdefghijklmnopqrst");
    assert_eq!(st.account_input, "abcdefghijklmnop");
    st.handle_account_input(&mut b, KeyCode::Backspace, KeyModifiers::control());
    assert_eq!(st.account_input.len(), 16);
    st.handle_account_input(&mut b, KeyCode::Backspace, KeyModifiers::none());
    assert_eq!(st.account_input, "abcdefghijklmno");
    st.handle_account_input(&mut b, KeyCode::Esc, KeyModifiers::none());
    assert!(!st.account_input_mode);
    assert_eq!(st.account_input, "");
}

#[test]
fn account_list_moves_selects_and_deletes() {
    let mut st = AppState::new();
    let mut b = bridge();
    let a = b.create_offline_account("Alex").unwrap();
    let s = b.create_offline_account("Steve").unwrap();
    st.open_account_selector(&b);
    // Alex, the first account, is active.
    assert_eq!(st.account_selector_index, 0);
    st.handle_account_input(&mut b, KeyCode::Down, KeyModifiers::none());
    st.handle_account_input(&mut b, KeyCode::Down, KeyModifiers::none());
    st.handle_account_input(&mut b, KeyCode::Down, KeyModifiers::none());
    assert_eq!(st.account_selector_index, 2);
    st.handle_account_input(&mut b, KeyCode::Up, KeyModifiers::none());
    assert!(st.handle_account_input(&mut b, KeyCode::Enter, KeyModifiers::none()));
    assert_eq!(b.config.default_account.as_deref(), Some(s.id.as_str()));
    assert_eq!(st.status_message.as_deref(), Some("Launch account set to 'Steve'"));
    st.account_selector_open = true;
    assert!(st.handle_account_input(&mut b, KeyCode::Char('x'), KeyModifiers::none()));
    assert_eq!(st.status_message.as_deref(), Some("Deleted account 'Steve'"));
    assert_eq!(st.accounts.len(), 1);
    assert_eq!(st.accounts[0].0, a.id);
    assert_eq!(st.account_selector_index, 1);
    st.handle_account_input(&mut b, KeyCode::Char('n'), KeyModifiers::none());
    assert!(st.account_input_mode);
    st.account_input_mode = false;
    st.handle_account_input(&mut b, KeyCode::Esc, KeyModifiers::none());
    assert!(!st.account_selector_open);
}

#[test]
fn loader_picker_opens_version_picker_or_refuses_forge() {
    let mut st = AppState::new();
    st.loader_selector_open = true;
    st.handle_loader_input(KeyCode::Down, KeyModifiers::none());
    st.handle_loader_input(KeyCode::Down, KeyModifiers::none());
    st.handle_loader_input(KeyCode::Down, KeyModifiers::none());
    st.handle_loader_input(KeyCode::Down, KeyModifiers::none());
    assert_eq!(st.loader_selector_index, 3);
    assert!(!st.handle_loader_input(KeyCode::Enter, KeyModifiers::none()));
    assert!(!st.loader_selector_open);
    assert_eq!(
        st.error_message.as_deref(),
        Some("Forge is not supported by the terminal launcher yet \u{2014} pick vanilla, fabric or quilt")
    );
    st.loader_selector_open = true;
    let fetch = st.handle_loader_input(KeyCode::Char('2'), KeyModifiers::none());
    assert!(fetch);
    assert_eq!(st.pending_version_loader.as_deref(), Some("fabric"));
    assert!(st.version_selector_open);
    assert!(!st.loader_selector_open);
    let mut other = AppState::new();
    other.loader_selector_open = true;
    other.handle_loader_input(KeyCode::Esc, KeyModifiers::none());
    assert!(!other.loader_selector_open);
    assert_eq!(other.status_message.as_deref(), Some("Instance creation cancelled"));
}

#[test]
fn version_picker_filters_moves_and_creates() {
    let mut st = AppState::new();
    let mut b = bridge();
    st.versions = vec!["1.21.1".to_string(), "1.20.4".to_string(), "1.20.1".to_string()];
    st.open_version_picker(1);
    assert!(st.version_selector_open);
    for c in "1.20".chars() {
        st.handle_version_input(&mut b, KeyCode::Char(c), KeyModifiers::none());
    }
    assert_eq!(st.version_filter, "1.20");
    st.handle_version_input(&mut b, KeyCode::Down, KeyModifiers::none());
    st.handle_version_input(&mut b, KeyCode::Down, KeyModifiers::none());
    assert_eq!(st.version_selector_index, 1);
    st.handle_version_input(&mut b, KeyCode::PageUp, KeyModifiers::none());
    assert_eq!(st.version_selector_index, 0);
    st.handle_version_input(&mut b, KeyCode::PageDown, KeyModifiers::none());
    assert_eq!(st.version_selector_index, 1);
    let created = st.handle_version_input(&mut b, KeyCode::Enter, KeyModifiers::none());
    assert!(created);
    let inst = st.selected_instance.clone().unwrap();
    assert_eq!(inst.game_version, "1.20.1");
    assert_eq!(inst.loader, "fabric");
    assert_eq!(inst.name, "Instance 1");
    assert_eq!(
        st.status_message.as_deref(),
        Some("Created fabric instance 'Instance 1' on Minecraft 1.20.1")
    );
    assert!(!st.version_selector_open);
    assert_eq!(b.list_instances().len(), 1);
}

#[test]
fn version_picker_escape_returns_to_loaders_and_empty_list_only_reports() {
    let mut st = AppState::new();
    let mut b = bridge();
    st.versions = vec!["1.21.1".to_string()];
    st.open_version_picker(0);
    for c in "zzz".chars() {
        st.handle_version_input(&mut b, KeyCode::Char(c), KeyModifiers::none());
    }
    assert!(!st.handle_version_input(&mut b, KeyCode::Enter, KeyModifiers::none()));
    assert_eq!(st.status_message.as_deref(), Some("No version matches the filter"));
    st.handle_version_input(&mut b, KeyCode::Char('\u{7}'), KeyModifiers::none());
    assert_eq!(st.version_filter, "zzz");
    st.handle_version_input(&mut b, KeyCode::Esc, KeyModifiers::none());
    assert!(st.loader_selector_open);
    assert!(!st.version_selector_open);
    assert!(st.pending_version_loader.is_none());
}

#[test]
fn search_bar_edits_and_submits_trimmed_query() {
    let mut st = AppState::new();
    st.search_mode = true;
    for c in " sodium ".chars() {
        assert!(st.handle_search_input(KeyCode::Char(c), KeyModifiers::none()).is_none());
    }
    st.handle_search_input(KeyCode::Backspace, KeyModifiers::none());
    let q = st.handle_search_input(KeyCode::Enter, KeyModifiers::none());
    assert_eq!(q.as_deref(), Some("sodium"));
    assert!(!st.search_mode);
}

#[test]
fn command_prompt_records_history_and_recalls_it() {
    let mut st = AppState::new();
    st.command_prompt_active = true;
    for c in "help".chars() {
        st.handle_command_input(KeyCode::Char(c), KeyModifiers::none());
    }
    let cmd = st.handle_command_input(KeyCode::Enter, KeyModifiers::none());
    assert_eq!(cmd.as_deref(), Some("help"));
    assert!(!st.command_prompt_active);
    assert_eq!(st.command_history.len(), 1);
    st.command_prompt_active = true;
    st.handle_command_input(KeyCode::Up, KeyModifiers::none());
    assert_eq!(st.command_input, "help");
    st.handle_command_input(KeyCode::Down, KeyModifiers::none());
    assert_eq!(st.command_input, "");
    st.handle_command_input(KeyCode::Char('x'), KeyModifiers::none());
    st.handle_command_input(KeyCode::Esc, KeyModifiers::none());
    assert_eq!(st.command_input, "");
    assert!(!st.command_prompt_active);
}

#[test]
fn custom_jvm_editor_saves_words_as_arguments() {
    let mut st = AppState::new();
    let mut b = bridge();
    st.settings_edit_mode = SettingsEditMode::CustomJvmEditor;
    for c in " -Xmx2G  -XX:+UseG1GC ".chars() {
        st.handle_custom_jvm_input(&mut b, KeyCode::Char(c));
    }
    assert!(st.handle_custom_jvm_input(&mut b, KeyCode::Enter));
    assert_eq!(b.config.settings.optimization_profile, OptimizationProfile::Custom);
    assert_eq!(b.config.settings.custom_jvm_args, vec!["-Xmx2G".to_string(), "-XX:+UseG1GC".to_string()]);
    assert_eq!(st.settings_edit_mode, SettingsEditMode::Inactive);
    assert_eq!(st.logs.back().unwrap().message, "Custom JVM args saved (2 args)");
    st.settings_edit_mode = SettingsEditMode::CustomJvmEditor;
    st.handle_custom_jvm_input(&mut b, KeyCode::Char('a'));
    assert!(!st.handle_custom_jvm_input(&mut b, KeyCode::Esc));
    assert_eq!(st.custom_jvm_input, "");
    assert_eq!(st.logs.back().unwrap().message, "Custom JVM edit cancelled");
}

#[test]
fn key_owner_follows_precedence() {
    let mut st = AppState::new();
    assert_eq!(st.key_owner(), KeyOwner::Main);
    st.command_prompt_active = true;
    assert_eq!(st.key_owner(), KeyOwner::CommandPrompt);
    st.account_selector_open = true;
    assert_eq!(st.key_owner(), KeyOwner::Accounts);
    st.version_selector_open = true;
    assert_eq!(st.key_owner(), KeyOwner::VersionPicker);
    st.search_mode = true;
    assert_eq!(st.key_owner(), KeyOwner::Search);
}
