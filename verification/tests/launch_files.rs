use era_launcher::argus::backend::BackendBridge;
use era_launcher::minecraft::manifest::{
    Artifact, AssetIndexRef, Library, LibraryDownloads, ManifestVersionInfo, Rule,
};

fn artifact(url: &str) -> Artifact {
    Artifact { url: url.to_string(), sha1: String::new(), size: 0 }
}

fn manifest(libraries: Vec<Library>) -> ManifestVersionInfo {
    ManifestVersionInfo {
        id: "1.12.2".to_string(),
        version_type: "release".to_string(),
        main_class: None,
        arguments: None,
        asset_index: AssetIndexRef { id: "1.12".to_string(), url: String::new(), sha1: String::new(), size: 0 },
        libraries,
        downloads: None,
    }
}

fn sample() -> ManifestVersionInfo {
    manifest(vec![
        Library {
            name: "com.mojang:brigadier:1.0.18".to_string(),
            downloads: Some(LibraryDownloads { artifact: Some(artifact("https://libs/brig.jar")), classifiers: Vec::new() }),
            rules: None,
        },
        Library {
            name: "org.lwjgl.lwjgl:lwjgl-platform:2.9.4".to_string(),
            downloads: Some(LibraryDownloads {
                artifact: None,
                classifiers: vec![
                    ("natives-osx".to_string(), artifact("https://libs/osx.jar")),
                    ("natives-linux".to_string(), artifact("https://libs/linux.jar")),
                ],
            }),
            rules: None,
        },
        Library {
            name: "ca.weblite:java-objc-bridge:1.0.0".to_string(),
            downloads: Some(LibraryDownloads { artifact: Some(artifact("https://libs/objc.jar")), classifiers: Vec::new() }),
            rules: Some(vec![Rule { action: "allow".to_string(), os_name: Some("osx".to_string()), features: Vec::new() }]),
        },
        Library {
            name: "empty:url:1".to_string(),
            downloads: Some(LibraryDownloads { artifact: Some(artifact("")), classifiers: Vec::new() }),
            rules: None,
        },
    ])
}

#[test]
fn library_plan_takes_artifacts_and_platform_natives() {
    let (downloads, paths) = BackendBridge::library_plan(&sample(), "/libs", "linux", "x86_64");
    assert_eq!(downloads.len(), 2);
    assert_eq!(downloads[0].0, "https://libs/brig.jar");
    assert_eq!(downloads[0].1, BackendBridge::resolve_library_path("com.mojang:brigadier:1.0.18", "/libs"));
    assert_eq!(downloads[0].2, "com.mojang:brigadier:1.0.18");
    assert_eq!(downloads[1].0, "https://libs/linux.jar");
    assert_eq!(downloads[1].2, "org.lwjgl.lwjgl:lwjgl-platform:2.9.4:natives-linux");
    assert_eq!(paths, vec![downloads[0].1.clone(), downloads[1].1.clone()]);
    let (mac, _) = BackendBridge::library_plan(&sample(), "/libs", "osx", "x86_64");
    assert_eq!(mac.len(), 3);
    assert_eq!(mac[1].0, "https://libs/osx.jar");
    assert_eq!(mac[2].0, "https://libs/objc.jar");
}

#[test]
fn native_jars_follow_the_platform() {
    let jars = BackendBridge::native_jars(&sample(), "/libs", "linux", "x86_64");
    assert_eq!(
        jars,
        vec![BackendBridge::resolve_classifier_path("org.lwjgl.lwjgl:lwjgl-platform:2.9.4", "/libs", "natives-linux")]
    );
    assert!(BackendBridge::native_jars(&sample(), "/libs", "windows", "x86_64").is_empty());
    assert_eq!(BackendBridge::native_entry_target("org/lwjgl/liblwjgl.so").as_deref(), Some("liblwjgl.so"));
    assert_eq!(BackendBridge::native_entry_target("lwjgl.dll").as_deref(), Some("lwjgl.dll"));
    assert!(BackendBridge::native_entry_target("META-INF/MANIFEST.MF").is_none());
}

#[test]
fn failure_warnings_cap_at_five() {
    assert!(BackendBridge::library_failure_warnings(&Vec::new()).is_empty());
    let two: Vec<(String, String)> = vec![("a".into(), "404".into()), ("b".into(), "timeout".into())];
    assert_eq!(
        BackendBridge::library_failure_warnings(&two),
        vec![
            "Library download failed (a): 404".to_string(),
            "Library download failed (b): timeout".to_string(),
            "2 library download(s) failed \u{2014} launch may not work".to_string(),
        ]
    );
    let many: Vec<(String, String)> = (0..8).map(|i| (format!("l{}", i), "x".to_string())).collect();
    let w = BackendBridge::library_failure_warnings(&many);
    assert_eq!(w.len(), 7);
    assert_eq!(w[5], "... and 3 more library failures");
    assert_eq!(w[6], "8 library download(s) failed \u{2014} launch may not work");
}

#[test]
fn asset_objects_live_under_their_hash_prefix() {
    let (path, url) = BackendBridge::asset_object("bdf48ef6b5d0d23bbb02e17d04865216179f510a").unwrap();
    assert_eq!(path, "objects/bd/bdf48ef6b5d0d23bbb02e17d04865216179f510a");
    assert_eq!(url, "https://resources.download.minecraft.net/bd/bdf48ef6b5d0d23bbb02e17d04865216179f510a");
    assert!(BackendBridge::asset_object("a").is_none());
}
