use era_launcher::argus::backend::{BackendBridge, InstallRecord};
use era_launcher::argus::content::ModpackIndexFile;
use era_launcher::config::Config;
use era_launcher::instances::InstanceConfig;
use era_launcher::modrinth::{Version, VersionFile};

fn instance(id: &str, loader: &str) -> InstanceConfig {
    InstanceConfig {
        id: id.to_string(),
        name: id.to_string(),
        game_version: "1.21.1".to_string(),
        loader: loader.to_string(),
        loader_version: None,
        memory: 2048,
        java: None,
        game_dir: None,
        resolution_width: None,
        resolution_height: None,
        account_uuid: None,
        minecraft_dir: None,
        custom_jvm_args: Vec::new(),
    }
}

fn version(id: &str, filename: &str) -> Version {
    Version {
        id: id.to_string(),
        name: id.to_string(),
        version_number: "1.0.0".to_string(),
        version_type: "release".to_string(),
        loaders: vec!["fabric".to_string()],
        game_versions: vec!["1.21.1".to_string()],
        files: vec![VersionFile {
            url: format!("https://cdn/{}", filename),
            filename: filename.to_string(),
            primary: true,
            size: 10,
        }],
    }
}

#[test]
fn install_target_prefers_the_requested_instance() {
    let mut b = BackendBridge::new(Config::default(), "/tmp/era".to_string());
    let err = match b.install_target(None) {
        Err(e) => e,
        Ok(_) => panic!("an empty registry has no target"),
    };
    assert_eq!(err, "No instance available \u{2014} create one on the HOME screen first");
    b.create_instance(instance("a", "fabric"));
    b.create_instance(instance("b", "quilt"));
    assert_eq!(b.install_target(Some("b")).unwrap().id, "b");
    assert_eq!(b.install_target(Some("zz")).unwrap().id, "a");
    assert_eq!(b.install_target(None).unwrap().id, "a");
}

#[test]
fn plan_install_chooses_version_and_destination() {
    let vs = vec![version("v1", "sodium-1.jar"), version("v2", "../../evil/sodium-2.jar")];
    let err = BackendBridge::plan_install(&instance("a", "vanilla"), "Sodium", "mod", None, &vs).unwrap_err();
    assert_eq!(
        err,
        "'Sodium' is for modded instances \u{2014} vanilla can't load mods. Create a Fabric or Quilt instance first."
    );
    let p = BackendBridge::plan_install(&instance("a", "fabric"), "Sodium", "mod", None, &vs).unwrap();
    assert_eq!(p.dest_dir, "mods");
    assert_eq!(p.version_id, "v1");
    assert_eq!(p.safe_name, "sodium-1.jar");
    let p = BackendBridge::plan_install(&instance("a", "fabric"), "Sodium", "mod", Some("v2"), &vs).unwrap();
    assert_eq!(p.safe_name, "sodium-2.jar");
    assert_eq!(p.filename, "../../evil/sodium-2.jar");
    let err = BackendBridge::plan_install(&instance("a", "fabric"), "Sodium", "mod", Some("v9"), &vs).unwrap_err();
    assert_eq!(err, "Chosen version no longer exists");
    let p = BackendBridge::plan_install(&instance("a", "vanilla"), "Faithful", "resourcepack", None, &vs).unwrap();
    assert_eq!(p.dest_dir, "resourcepacks");
    let mut bare = version("v3", "x.jar");
    bare.files.clear();
    let err = BackendBridge::plan_install(&instance("a", "fabric"), "X", "shader", Some("v3"), &[bare]).unwrap_err();
    assert_eq!(err, "No files attached to this version");
    assert!(BackendBridge::check_modpack_contents(0, 0).is_err());
    assert!(BackendBridge::check_modpack_contents(0, 2).is_ok());
}

#[test]
fn modpack_index_skips_server_files_and_rejects_unsafe_paths() {
    let files = vec![
        ModpackIndexFile {
            path: "mods/a.jar".to_string(),
            downloads: vec!["https://cdn/a.jar".to_string()],
            sha1: Some("abc".to_string()),
            client_env: Some("required".to_string()),
        },
        ModpackIndexFile {
            path: "mods/server.jar".to_string(),
            downloads: vec!["https://cdn/s.jar".to_string()],
            sha1: None,
            client_env: Some("unsupported".to_string()),
        },
        ModpackIndexFile { path: "mods/none.jar".to_string(), downloads: Vec::new(), sha1: None, client_env: None },
    ];
    let out = BackendBridge::modpack_files(&files).unwrap();
    assert_eq!(out, vec![("mods/a.jar".to_string(), "https://cdn/a.jar".to_string(), Some("abc".to_string()))]);
    let bad = vec![ModpackIndexFile {
        path: "../escape.jar".to_string(),
        downloads: vec!["u".to_string()],
        sha1: None,
        client_env: None,
    }];
    assert_eq!(BackendBridge::modpack_files(&bad).unwrap_err(), "Unsafe path in modpack index: ../escape.jar");
}

#[test]
fn override_entries_map_below_the_instance() {
    assert_eq!(BackendBridge::override_target("overrides/config/a.txt").unwrap().as_deref(), Some("config/a.txt"));
    assert_eq!(BackendBridge::override_target("client-overrides\\options.txt").unwrap().as_deref(), Some("options.txt"));
    assert_eq!(BackendBridge::override_target("overrides/").unwrap(), None);
    assert_eq!(BackendBridge::override_target("modrinth.index.json").unwrap(), None);
    assert_eq!(
        BackendBridge::override_target("overrides/../x").unwrap_err(),
        "Unsafe path in modpack overrides: ../x"
    );
}

#[test]
fn crash_logs_and_ages() {
    assert!(BackendBridge::is_crash_log("hs_err_pid1234.log"));
    assert!(!BackendBridge::is_crash_log("hs_err_pid1234.txt"));
    assert!(!BackendBridge::is_crash_log("latest.log"));
    assert_eq!(BackendBridge::crash_age(7200), "2h ago");
    assert_eq!(BackendBridge::crash_age(59), "0h ago");
    assert_eq!(BackendBridge::crash_age(3 * 86400 + 5), "3d ago");
}

#[test]
fn forgetting_a_file_drops_its_records() {
    let rec = |p: &str, f: &str| InstallRecord {
        project_id: p.to_string(),
        version_id: None,
        filename: f.to_string(),
        content_type: "mod".to_string(),
    };
    let kept = BackendBridge::forget_file(vec![rec("a", "a.jar"), rec("b", "b.jar"), rec("c", "a.jar")], "a.jar");
    assert_eq!(kept.len(), 1);
    assert_eq!(kept[0].project_id, "b");
}
