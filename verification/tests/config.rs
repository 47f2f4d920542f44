use era_launcher::auth::{is_valid_username, Account};
use era_launcher::config::{from_config_instance, to_config_instance, Config};
use era_launcher::instances::InstanceConfig;

#[test]
fn test_config_defaults() {
    let c = Config::default();
    assert_eq!(c.settings.default_memory, 4096);
    assert_eq!(c.settings.theme, "tokyo-night");
    assert!(c.instances.is_empty());
    assert_eq!(c.window.width, 1100);
}

#[test]
fn test_config_instance_errors() {
    let mut c = Config::default();
    let inst = to_config_instance(&InstanceConfig::default());
    let id = inst.id.clone();
    assert!(c.add_instance(to_config_instance(&InstanceConfig::default())).is_ok());
    let _ = inst;
    match c.remove_instance("missing") {
        Err(e) => assert_eq!(e.message(), "Instance not found"),
        Ok(()) => panic!("removed an unknown instance"),
    }
    let dup = to_config_instance(&from_config_instance(&c.instances[0]));
    match c.add_instance(dup) {
        Err(e) => assert_eq!(e.message(), "Instance already exists"),
        Ok(()) => panic!("accepted a duplicate id"),
    }
    assert!(c.remove_instance(&c.instances[0].id.clone()).is_ok());
    assert!(c.instances.is_empty());
    let _ = id;
}

#[test]
fn test_config_instance_round_trip() {
    let mut inst = InstanceConfig::default();
    inst.name = "Round".to_string();
    inst.custom_jvm_args = vec!["-XX:+UseG1GC".to_string()];
    let back = from_config_instance(&to_config_instance(&inst));
    assert_eq!(back.id, inst.id);
    assert_eq!(back.name, "Round");
    assert_eq!(back.custom_jvm_args, inst.custom_jvm_args);
}

#[test]
fn test_accounts() {
    let mut c = Config::default();
    let a = Account::new_offline("Steve".to_string());
    assert_eq!(a.id, a.uuid);
    assert_eq!(a.id.len(), 36);
    let uuid = a.uuid.clone();
    assert!(c.add_account(a).is_ok());
    assert!(c.remove_account(&uuid).is_ok());
    match c.remove_account(&uuid) {
        Err(e) => assert_eq!(e.message(), "Account not found"),
        Ok(()) => panic!("removed twice"),
    }
}

#[test]
fn test_usernames() {
    assert!(is_valid_username("Steve"));
    assert!(is_valid_username("a_b"));
    assert!(!is_valid_username("ab"));
    assert!(!is_valid_username("bad name"));
    assert!(!is_valid_username("seventeen_chars_x"));
}
