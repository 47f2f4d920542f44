use era_launcher::instances::{InstanceConfig, InstanceManager};

fn named(id: &str) -> InstanceConfig {
    InstanceConfig {
        id: id.to_string(),
        name: "Test".to_string(),
        game_version: "1.21.1".to_string(),
        loader: "vanilla".to_string(),
        loader_version: None,
        memory: 4096,
        java: None,
        game_dir: None,
        resolution_width: None,
        resolution_height: None,
        account_uuid: None,
        minecraft_dir: None,
        custom_jvm_args: Vec::new(),
    }
}

#[test]
fn test_instance_default() {
    let inst = InstanceConfig::default();
    assert_eq!(inst.name, "New Instance");
    assert_eq!(inst.game_version, "1.21.1");
    assert_eq!(inst.loader, "vanilla");
    assert_eq!(inst.memory, 4096);
    assert!(!inst.id.is_empty());
}

#[test]
fn test_instance_dir_path() {
    let inst = named("test-instance");
    let dir = inst.instance_dir("/instances");
    assert_eq!(dir, "/instances/test-instance");
}

#[test]
fn test_instance_manager_crud() {
    let mut mgr = InstanceManager::new();
    let inst = InstanceConfig::default();
    mgr.add(inst.clone());
    assert_eq!(mgr.list().len(), 1);
    let find = |mgr: &InstanceManager, id: &str| mgr.list().iter().any(|i| i.id == id);
    assert!(find(&mgr, &inst.id));
    assert!(mgr.remove(&inst.id));
    assert_eq!(mgr.list().len(), 0);
    assert!(!find(&mgr, &inst.id));
}

#[test]
fn test_instance_manager_update() {
    let mut mgr = InstanceManager::new();
    let inst = InstanceConfig::default();
    mgr.add(inst.clone());
    let mut updated = inst.clone();
    updated.name = "Updated Name".to_string();
    assert!(mgr.update(updated));
    let found = mgr.list().iter().find(|i| i.id == inst.id).unwrap();
    assert_eq!(found.name, "Updated Name");
}

#[test]
fn test_instance_manager_misses() {
    let mut mgr = InstanceManager::new();
    mgr.add(named("a"));
    mgr.add(named("b"));
    assert!(!mgr.remove("zzz"));
    assert!(!mgr.update(named("zzz")));
    assert_eq!(mgr.list().len(), 2);
    assert!(mgr.remove("a"));
    assert_eq!(mgr.list()[0].id, "b");
}
