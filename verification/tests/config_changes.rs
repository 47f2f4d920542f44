use era_launcher::argus::backend::BackendBridge;
use era_launcher::argus::state::{AppState, LogLevel};
use era_launcher::argus::theme::ThemeRegistry;
use era_launcher::config::Config;
use era_launcher::minecraft::java::JavaManager;
use era_launcher::minecraft::optimization::OptimizationProfile;

fn bridge() -> BackendBridge {
    BackendBridge::new(Config::default(), "/tmp/era".to_string())
}

#[test]
fn test_create_instance_full_keeps_earlier_instances() {
    let mut b = bridge();
    let mut st = AppState::new();
    let first = b.create_instance_full(&st, "vanilla", "1.20.1").unwrap();
    st.instances = b.list_instances();
    let second = b.create_instance_full(&st, "Fabric", " 1.21.1 ").unwrap();
    assert_eq!(second.loader, "fabric");
    assert_eq!(second.game_version, "1.21.1");
    assert_eq!(second.name, "Instance 2");
    let listed = b.list_instances();
    assert_eq!(listed.len(), 2);
    assert_eq!(listed[0].id, first.id);
    assert_eq!(listed[1].id, second.id);
    assert_eq!(b.config.instances.len(), 2);
    assert_eq!(b.config.instances[0].id, first.id);
    assert_eq!(b.config.instances[1].id, second.id);
}

#[test]
fn test_create_instance_full_refusals_change_nothing() {
    let mut b = bridge();
    let st = AppState::new();
    assert!(b.create_instance_full(&st, "forge", "1.20.1").is_err());
    assert!(b.create_instance_full(&st, "quilt", "   ").is_err());
    assert_eq!(b.list_instances().len(), 0);
    assert_eq!(b.config.instances.len(), 0);
}

#[test]
fn test_create_offline_account_errors_keep_config() {
    let mut b = bridge();
    let a = b.create_offline_account("Alex").unwrap();
    assert_eq!(b.config.default_account.as_deref(), Some(a.id.as_str()));
    assert!(b.create_offline_account("alex").is_err());
    assert!(b.create_offline_account("x").is_err());
    assert_eq!(b.config.accounts.len(), 1);
    assert_eq!(b.config.default_account.as_deref(), Some(a.id.as_str()));
}

#[test]
fn test_set_active_account_unknown_id() {
    let mut b = bridge();
    let a = b.create_offline_account("Alex").unwrap();
    let memory = b.config.settings.default_memory;
    assert_eq!(b.set_active_account("nope"), Err("Account not found".to_string()));
    assert_eq!(b.config.default_account.as_deref(), Some(a.id.as_str()));
    assert_eq!(b.config.settings.default_memory, memory);
}

#[test]
fn test_set_error_appends_one_entry() {
    let mut st = AppState::new();
    st.log(LogLevel::Info, "ARGUS", "first");
    st.set_error("Boom".to_string());
    assert_eq!(st.logs.len(), 2);
    assert_eq!(st.logs[0].message, "first");
    assert_eq!(st.logs[1].message, "Error: Boom");
    for _ in 0..1005 {
        st.log(LogLevel::Info, "ARGUS", "filler");
    }
    st.set_error("Late".to_string());
    assert_eq!(st.logs.len(), 1000);
    assert_eq!(st.logs.back().unwrap().message, "Error: Late");
}

#[test]
fn test_theme_reapply_keeps_palette() {
    let mut r = ThemeRegistry::new();
    r.apply("Dracula", false);
    assert_eq!(r.current().name, "dracula");
    r.apply("Dracula", true);
    assert_eq!(r.current().name, "dracula");
    r.apply("system", true);
    assert_eq!(r.current().name, "light");
    r.apply("system", false);
    assert_eq!(r.current().name, "light");
}

#[test]
fn test_required_java_for_year_versions() {
    assert_eq!(JavaManager::required_for_minecraft("21.1"), 21);
    assert_eq!(JavaManager::required_for_minecraft("22.1"), 8);
    assert_eq!(JavaManager::required_for_minecraft("23.4"), 8);
    assert_eq!(JavaManager::required_for_minecraft("24.1"), 21);
    assert_eq!(JavaManager::required_for_minecraft("25.1"), 25);
}

#[test]
fn test_custom_profile_any_memory() {
    assert!(OptimizationProfile::Custom.jvm_args(u32::MAX).is_empty());
}
