use era_launcher::argus::focus::FocusManager;
use era_launcher::argus::navigation::{
    content_step, filter_versions, jump_focus, nav_count, next_section, previous_section,
    scroll_logs, section_shortcut, step_within, truncate_label,
};
use era_launcher::argus::state::{AppState, RuntimeState, Section};
use era_launcher::argus::targets::{rebuild_targets_preserving_focus, setup_focus_targets};

fn make_fm() -> FocusManager {
    let mut fm = FocusManager::new();
    fm.register_all(&[
        ("nav_home", "HOME"),
        ("nav_discover", "DISCOVER"),
        ("nav_instances", "INSTANCES"),
        ("nav_mods", "MODS"),
        ("nav_exit", "EXIT"),
    ]);
    fm
}

#[test]
fn test_tab_advances_one_step() {
    let mut fm = make_fm();
    assert_eq!(fm.current_index(), 0);
    assert_eq!(fm.current().unwrap().id, "nav_home");
    fm.next();
    assert_eq!(fm.current_index(), 1);
    assert_eq!(fm.current().unwrap().id, "nav_discover");
}

#[test]
fn test_shift_tab_advances_one_backward() {
    let mut fm = make_fm();
    fm.set(2);
    assert_eq!(fm.current().unwrap().id, "nav_instances");
    fm.previous();
    assert_eq!(fm.current_index(), 1);
    assert_eq!(fm.current().unwrap().id, "nav_discover");
}

#[test]
fn test_tab_wraps_to_start() {
    let mut fm = make_fm();
    fm.set(4);
    assert_eq!(fm.current().unwrap().id, "nav_exit");
    fm.next();
    assert_eq!(fm.current_index(), 0);
    assert_eq!(fm.current().unwrap().id, "nav_home");
}

#[test]
fn test_shift_tab_wraps_to_end() {
    let mut fm = make_fm();
    assert_eq!(fm.current_index(), 0);
    fm.previous();
    assert_eq!(fm.current_index(), 4);
    assert_eq!(fm.current().unwrap().id, "nav_exit");
}

#[test]
fn test_set_by_id() {
    let mut fm = make_fm();
    assert!(fm.set_by_id("nav_mods"));
    assert_eq!(fm.current_index(), 3);
    assert_eq!(fm.current().unwrap().id, "nav_mods");
    assert!(fm.set_by_id("nav_home"));
    assert_eq!(fm.current_index(), 0);
    assert!(!fm.set_by_id("nonexistent"));
}

#[test]
fn test_clear_resets() {
    let mut fm = make_fm();
    assert_eq!(fm.len(), 5);
    fm.clear();
    assert_eq!(fm.len(), 0);
    assert_eq!(fm.current_index(), 0);
    assert!(fm.current().is_none());
}

#[test]
fn test_rebuild_replaces_all() {
    let mut fm = make_fm();
    assert_eq!(fm.len(), 5);
    fm.rebuild(&[("x", "X"), ("y", "Y")]);
    assert_eq!(fm.len(), 2);
    assert_eq!(fm.current().unwrap().id, "x");
    assert!(fm.set_by_id("y"));
    assert_eq!(fm.current().unwrap().id, "y");
}

#[test]
fn test_empty_does_not_panic() {
    let mut fm = FocusManager::new();
    fm.next();
    fm.previous();
    assert!(fm.current().is_none());
}

#[test]
fn test_find_by_id() {
    let fm = make_fm();
    assert_eq!(fm.find("nav_home"), Some(0));
    assert_eq!(fm.find("nav_discover"), Some(1));
    assert_eq!(fm.find("nav_instances"), Some(2));
    assert_eq!(fm.find("nav_mods"), Some(3));
    assert_eq!(fm.find("nav_exit"), Some(4));
    assert_eq!(fm.find("nonexistent"), None);
}

#[test]
fn test_single_target_wraps() {
    let mut fm = FocusManager::new();
    fm.register("only", "Only");
    fm.next();
    assert_eq!(fm.current_index(), 0);
    fm.previous();
    assert_eq!(fm.current_index(), 0);
}

#[test]
fn test_next_then_previous_returns() {
    let mut fm = make_fm();
    fm.set(3);
    fm.next();
    fm.previous();
    assert_eq!(fm.current_index(), 3);
    fm.set(4);
    fm.next();
    fm.previous();
    assert_eq!(fm.current_index(), 4);
}

#[test]
fn test_setup_focus_targets_home() {
    let st = AppState::new();
    let mut fm = FocusManager::new();
    setup_focus_targets(&st, &mut fm);
    assert_eq!(fm.len(), nav_count() + 3);
    assert_eq!(fm.current_index(), 10);
    assert_eq!(fm.current().unwrap().id, "home_create");
    assert_eq!(fm.targets()[0].id, "nav_home");
    assert_eq!(fm.targets()[0].label, "HOME");
    assert_eq!(fm.targets()[9].id, "nav_settings");
    assert_eq!(fm.targets()[12].label, "Play");
}

#[test]
fn test_every_section_registers_content() {
    let mut st = AppState::new();
    for section in Section::all() {
        st.current_section = section;
        let mut fm = FocusManager::new();
        setup_focus_targets(&st, &mut fm);
        assert!(fm.len() > nav_count(), "{:?} has no content target", section);
        assert!(!fm.current().unwrap().id.starts_with("nav_"));
    }
}

#[test]
fn test_instances_targets_numbered() {
    let mut st = AppState::new();
    st.current_section = Section::Instances;
    st.instances = vec![Default::default(), Default::default()];
    st.runtime_state = RuntimeState::Running;
    let mut fm = FocusManager::new();
    setup_focus_targets(&st, &mut fm);
    let ids: Vec<&str> = fm.targets()[10..].iter().map(|t| t.id.as_str()).collect();
    assert_eq!(ids, vec!["instance_0", "instance_1", "instance_delete", "instance_stop"]);
    assert_eq!(fm.targets()[11].label, "Instance 2");
}

#[test]
fn test_rebuild_preserves_focus() {
    let mut st = AppState::new();
    st.current_section = Section::Settings;
    let mut fm = FocusManager::new();
    setup_focus_targets(&st, &mut fm);
    assert!(fm.set_by_id("settings_theme"));
    rebuild_targets_preserving_focus(&st, &mut fm);
    assert_eq!(fm.current().unwrap().id, "settings_theme");
    st.current_section = Section::Logs;
    rebuild_targets_preserving_focus(&st, &mut fm);
    assert_eq!(fm.current_index(), 10);
    assert_eq!(fm.current().unwrap().id, "logs_empty");
}

#[test]
fn test_focus_memory_round_trip() {
    let mut st = AppState::new();
    assert_eq!(st.remembered_focus(Section::Mods), None);
    st.save_focus_memory(Section::Mods, "installed_3");
    st.save_focus_memory(Section::Worlds, "world_1");
    st.save_focus_memory(Section::Mods, "update_0");
    st.save_focus_memory(Section::Home, "nav_home");
    assert_eq!(st.remembered_focus(Section::Mods), Some("update_0".to_string()));
    assert_eq!(st.remembered_focus(Section::Worlds), Some("world_1".to_string()));
    assert_eq!(st.remembered_focus(Section::Home), None);
}

#[test]
fn test_section_cycle() {
    assert_eq!(next_section(Section::Home), Section::Discover);
    assert_eq!(next_section(Section::Settings), Section::Home);
    assert_eq!(previous_section(Section::Home), Section::Settings);
    assert_eq!(previous_section(Section::Discover), Section::Home);
    for s in Section::all() {
        assert_eq!(previous_section(next_section(s)), s);
    }
}

#[test]
fn test_section_shortcuts() {
    assert_eq!(section_shortcut('h'), Some(Section::Home));
    assert_eq!(section_shortcut('v'), Some(Section::Servers));
    assert_eq!(section_shortcut('p'), Some(Section::Screenshots));
    assert_eq!(section_shortcut('z'), None);
}

#[test]
fn test_content_step_wraps_within_content() {
    assert_eq!(content_step(10, 0, 1), None);
    assert_eq!(content_step(13, 10, 1), Some(11));
    assert_eq!(content_step(13, 12, 1), Some(10));
    assert_eq!(content_step(13, 10, -1), Some(12));
    assert_eq!(content_step(13, 3, 1), Some(10));
    assert_eq!(content_step(13, 3, -1), Some(12));
}

#[test]
fn test_jump_focus_clamps() {
    assert_eq!(jump_focus(9, 0, 5), None);
    assert_eq!(jump_focus(30, 12, 5), Some(17));
    assert_eq!(jump_focus(30, 12, -5), Some(10));
    assert_eq!(jump_focus(30, 28, 5), Some(29));
}

#[test]
fn test_scroll_logs_clamps() {
    assert_eq!(scroll_logs(100, 0, 5), 5);
    assert_eq!(scroll_logs(100, 3, -5), 0);
    assert_eq!(scroll_logs(10, 7, 5), 8);
    assert_eq!(scroll_logs(1, 0, 5), 0);
}

#[test]
fn test_step_within_group() {
    assert_eq!(step_within(0, None, 1), None);
    assert_eq!(step_within(5, None, 1), Some(0));
    assert_eq!(step_within(5, None, -1), Some(4));
    assert_eq!(step_within(5, Some(4), 1), Some(0));
    assert_eq!(step_within(5, Some(0), -1), Some(4));
    assert_eq!(step_within(5, Some(1), 5), Some(1));
}

#[test]
fn test_truncate_label() {
    assert_eq!(truncate_label("short", 10), "short");
    assert_eq!(truncate_label("a long label", 6), "a lon\u{2026}");
    assert_eq!(truncate_label("abc", 0), "\u{2026}");
}

#[test]
fn test_filter_versions_substring() {
    let all = vec![
        "26.2".to_string(),
        "1.21.1".to_string(),
        "1.21.5".to_string(),
        "1.20.1".to_string(),
    ];
    let f = |needle: &str| -> Vec<String> { filter_versions(&all, needle) };
    assert_eq!(f("").len(), 4);
    assert_eq!(f("1.21"), vec!["1.21.1", "1.21.5"]);
    assert_eq!(f("26"), vec!["26.2"]);
    assert!(f("zzz").is_empty());
}
