use era_launcher::argus::backend::{BackendBridge, InstallRecord};
use era_launcher::modrinth::Version;

fn version(id: &str, number: &str, kind: &str, loader: &str) -> Version {
    Version {
        id: id.to_string(),
        name: number.to_string(),
        version_number: number.to_string(),
        version_type: kind.to_string(),
        loaders: vec![loader.to_string()],
        game_versions: vec!["1.21.1".to_string()],
        files: Vec::new(),
    }
}

fn record(version_id: Option<&str>, filename: &str, kind: &str) -> InstallRecord {
    InstallRecord {
        project_id: "p".to_string(),
        version_id: version_id.map(|s| s.to_string()),
        filename: filename.to_string(),
        content_type: kind.to_string(),
    }
}

#[test]
fn update_found_by_version_id() {
    let vs = vec![
        version("b1", "0.7.0-beta", "beta", "fabric"),
        version("f2", "0.6.0", "release", "Fabric"),
        version("q1", "0.6.5", "release", "quilt"),
    ];
    let u = BackendBridge::mod_update(&record(Some("f1"), "sodium-0.5.0.jar", "mod"), "fabric", &vs).unwrap();
    assert_eq!(u.latest_version_id, "f2");
    assert_eq!(u.latest_version, "0.6.0");
    assert_eq!(u.installed_version, "f1");
    assert_eq!(u.title, "sodium-0.5.0.jar");
    assert!(BackendBridge::mod_update(&record(Some("f2"), "sodium-0.6.0.jar", "mod"), "fabric", &vs).is_none());
}

#[test]
fn update_found_by_file_name_and_other_loaders_fall_back() {
    let vs = vec![version("n1", "2.0.0", "release", "neoforge")];
    let u = BackendBridge::mod_update(&record(None, "lib-1.4.0.jar", "mod"), "fabric", &vs).unwrap();
    assert_eq!(u.installed_version, "unknown");
    assert_eq!(u.latest_version_id, "n1");
    assert!(BackendBridge::mod_update(&record(None, "lib-2.0.0.jar", "mod"), "fabric", &vs).is_none());
    assert!(BackendBridge::mod_update(&record(None, "lib-1.0.0.jar", "shader"), "fabric", &vs).is_none());
    assert!(BackendBridge::mod_update(&record(Some("x"), "lib.jar", "mod"), "fabric", &[]).is_none());
}
