use era_launcher::argus::launching::GameExit;
use era_launcher::argus::state::{AppState, LogLevel, RuntimeState};

#[test]
fn test_finish_game_mode_clean_exit() {
    let mut st = AppState::new();
    st.runtime_state = RuntimeState::Running;
    st.set_loading(true, Some("Launching".to_string()));
    let lines = vec!["[Render] ready".to_string(), "Stopping!".to_string()];
    let msg = st.finish_game_mode(&lines, GameExit::Code(Some(0)), Some("/i/logs/argus-live.log".to_string()));
    assert_eq!(msg, "Minecraft closed cleanly");
    assert!(matches!(st.runtime_state, RuntimeState::Stopped));
    assert!(!st.loading);
    assert_eq!(st.status_message.as_deref(), Some("Minecraft closed cleanly"));
    assert_eq!(st.live_log_path.as_deref(), Some("/i/logs/argus-live.log"));
    assert_eq!(st.logs.len(), 3);
    assert_eq!(st.logs[0].source, "Minecraft");
    assert_eq!(st.logs[0].message, "[Render] ready");
    assert_eq!(st.logs[2].source, "ARGUS");
    assert_eq!(st.logs[2].level, LogLevel::Info);
    assert_eq!(st.logs[2].message, "Minecraft closed cleanly — launcher restored");
}

#[test]
fn test_finish_game_mode_exit_codes() {
    let mut st = AppState::new();
    assert_eq!(st.finish_game_mode(&Vec::new(), GameExit::Code(Some(1)), None), "Minecraft exited with code 1");
    assert_eq!(st.finish_game_mode(&Vec::new(), GameExit::Code(Some(-1)), None), "Minecraft exited with code -1");
    assert_eq!(st.finish_game_mode(&Vec::new(), GameExit::Code(None), None), "Minecraft closed cleanly");
    assert_eq!(
        st.finish_game_mode(&Vec::new(), GameExit::WaitFailed("interrupted".to_string()), None),
        "Failed to wait for Minecraft: interrupted"
    );
}

#[test]
fn test_finish_game_mode_keeps_last_lines() {
    let mut st = AppState::new();
    let lines: Vec<String> = (0..2500).map(|i| format!("line {}", i)).collect();
    st.finish_game_mode(&lines, GameExit::Code(Some(0)), None);
    assert_eq!(st.logs.len(), 1000);
    assert_eq!(st.logs[0].message, "line 1501");
    assert_eq!(st.logs[998].message, "line 2499");
}
