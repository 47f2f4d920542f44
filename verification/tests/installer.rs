use era_launcher::installer::{
    archive_kind, entry_destination, get_archive_name, get_java_bin_name, install_java_runtime,
    single_top_level, ArchiveKind, InstallAction, InstallEvent, InstallResult, Platform,
    WebInstaller,
};
use era_launcher::minecraft::java::{JavaManager, JavaProbe};

fn installer(version: Option<u32>, os: &str, arch: &str) -> WebInstaller {
    WebInstaller::new(
        "/data/era".to_string(),
        version,
        Platform { os: os.to_string(), arch: arch.to_string() },
    )
}

#[test]
fn test_install_result_fields() {
    let result = InstallResult {
        success: true,
        java_installed: true,
        java_path: Some("/test/path".to_string()),
        launcher_path: Some("/test/path/era-launcher".to_string()),
        error: None,
    };
    assert!(result.success);
    assert!(result.java_installed);
    assert!(result.java_path.is_some());
    assert!(result.launcher_path.is_some());
}

#[test]
fn test_minecraft_java_versions() {
    assert_eq!(JavaManager::required_for_minecraft("1.16.5"), 8);
    assert_eq!(JavaManager::required_for_minecraft("1.18.2"), 17);
    assert_eq!(JavaManager::required_for_minecraft("1.20.1"), 21);
    assert_eq!(JavaManager::required_for_minecraft("1.21.1"), 21);
}

#[test]
fn test_default_java_version() {
    assert_eq!(installer(None, "linux", "x86_64").version(), 21);
    assert_eq!(installer(Some(17), "linux", "x86_64").version(), 17);
}

#[test]
fn test_adoptium_query_per_platform() {
    assert_eq!(
        installer(None, "windows", "x86_64").adoptium_jre_query(21),
        "https://api.adoptium.net/v3/assets/feature_releases/21/ga?architecture=x64&image_type=jre&os=windows&vendor=eclipse"
    );
    assert_eq!(
        installer(None, "osx", "aarch64").adoptium_jre_query(17),
        "https://api.adoptium.net/v3/assets/feature_releases/17/ga?architecture=aarch64&image_type=jre&os=macos&vendor=eclipse"
    );
    assert!(installer(None, "linux", "arm64").adoptium_jre_query(21).contains("os=linux"));
}

#[test]
fn test_java_mirrors_from_link() {
    let w = installer(Some(21), "linux", "x86_64");
    let m = w.java_mirrors(Some("https://cdn.example/jdk-21.tar.gz".to_string()));
    assert_eq!(m.len(), 1);
    assert!(m[0].name.contains("Adoptium"));
    assert!(m[0].url.starts_with("http"));
    assert!(w.java_mirrors(None).is_empty());
}

#[test]
fn test_runtime_paths() {
    let w = installer(Some(21), "linux", "x86_64");
    assert_eq!(w.java_dir(), "/data/era/runtimes/java21");
    assert_eq!(w.java_exe(false), "/data/era/runtimes/java21/bin/java");
    assert_eq!(w.java_exe(true), "/data/era/runtimes/java21/bin/javaw.exe");
    assert_eq!(w.java_path(false, false), None);
    assert_eq!(w.java_path(false, true), Some("/data/era/runtimes/java21/bin/java".to_string()));
    assert_eq!(get_java_bin_name(false), "bin/java");
}

#[test]
fn test_detected_java_uses_version_requirement() {
    let w = installer(Some(21), "linux", "x86_64");
    let probes = vec![
        JavaProbe {
            path: "/usr/bin/java".to_string(),
            output: Some("openjdk version \"17.0.2\" 2022-01-18\n".to_string()),
        },
        JavaProbe {
            path: "/opt/jdk21/bin/java".to_string(),
            output: Some("openjdk version \"21.0.2\" 2023-10-17\n".to_string()),
        },
    ];
    assert!(w.is_java_installed(&probes));
    assert_eq!(w.detected_java(&probes).unwrap().path, "/opt/jdk21/bin/java");
    assert!(!w.is_java_installed(&probes[..1]));
}

#[test]
fn test_archive_names() {
    assert_eq!(get_archive_name("https://x/OpenJDK21.ZIP"), "java_jre.zip");
    assert_eq!(get_archive_name("https://x/jdk.tar.gz"), "java_jre.tar.gz");
    assert_eq!(get_archive_name("https://x/jdk.msi"), "java_jre.zip");
    assert!(matches!(archive_kind("/tmp/java_jre.tar.gz"), ArchiveKind::TarGz));
    assert!(matches!(archive_kind("/tmp/java_jre.zip"), ArchiveKind::Zip));
}

#[test]
fn test_single_top_level_dir() {
    let entries = vec!["jdk-fake/bin/java".to_string(), "jdk-fake/VERSION".to_string()];
    assert_eq!(single_top_level(&entries), Some("jdk-fake".to_string()));
    let mixed = vec!["a/x".to_string(), "b/y".to_string()];
    assert_eq!(single_top_level(&mixed), None);
    assert_eq!(single_top_level(&[]), None);
}

#[test]
fn test_entry_destination_strips_top_dir() {
    let top = Some("jdk-fake".to_string());
    assert_eq!(
        entry_destination("/dest", "jdk-fake/bin/java", &top),
        Some("/dest/bin/java".to_string())
    );
    assert_eq!(entry_destination("/dest", "jdk-fake/", &top), None);
    assert_eq!(entry_destination("/dest", "a/b", &None), Some("/dest/a/b".to_string()));
}

#[test]
fn test_install_steps() {
    let w = installer(Some(21), "linux", "x86_64");
    assert!(matches!(
        w.install_step(1, InstallEvent::Checked { java_found: true, runtime_present: false }),
        InstallAction::Finish { installed: true }
    ));
    assert!(matches!(
        w.install_step(0, InstallEvent::Checked { java_found: false, runtime_present: false }),
        InstallAction::Finish { installed: false }
    ));
    assert!(matches!(
        w.install_step(2, InstallEvent::Checked { java_found: false, runtime_present: false }),
        InstallAction::Download { mirror: 0 }
    ));
    assert!(matches!(
        w.install_step(2, InstallEvent::Downloaded { mirror: 0, ok: false }),
        InstallAction::Download { mirror: 1 }
    ));
    assert!(matches!(
        w.install_step(2, InstallEvent::Extracted { mirror: 1, ok: true }),
        InstallAction::Verify { mirror: 1 }
    ));
    assert!(matches!(
        w.install_step(2, InstallEvent::Verified { mirror: 1, ok: false }),
        InstallAction::Finish { installed: false }
    ));
    assert!(matches!(
        w.install_step(2, InstallEvent::Verified { mirror: 1, ok: true }),
        InstallAction::Finish { installed: true }
    ));
}

#[test]
fn test_install_java_runtime_outcome() {
    match install_java_runtime(true, Some("/p/bin/java".to_string())) {
        Ok(p) => assert_eq!(p, Some("/p/bin/java".to_string())),
        Err(_) => panic!("a finished install returns its path"),
    }
    match install_java_runtime(false, None) {
        Err(e) => assert_eq!(e.message(), "Java download failed"),
        Ok(_) => panic!("a failed install is an error"),
    }
}
