use era_launcher::versions::SystemScanner;

#[test]
fn test_candidate_dirs_per_os() {
    let s = SystemScanner::new();
    assert_eq!(
        s.candidate_dirs("linux", None, None, Some("/home/p".to_string())),
        vec!["/home/p/.minecraft".to_string()]
    );
    assert_eq!(
        s.candidate_dirs("macos", None, None, Some("/Users/p".to_string())),
        vec!["/Users/p/Library/Application Support/minecraft".to_string()]
    );
    assert_eq!(
        s.candidate_dirs("windows", Some("C:/A".to_string()), Some("C:/L".to_string()), None),
        vec!["C:/A/.minecraft".to_string(), "C:/L/.minecraft".to_string()]
    );
    assert!(s.candidate_dirs("linux", None, None, None).is_empty());
}

#[test]
fn test_foreign_asset_markers() {
    assert!(SystemScanner::is_foreign_asset("launcher_profiles.json"));
    assert!(SystemScanner::is_foreign_asset("my-PrismLauncher-cfg"));
    assert!(!SystemScanner::is_foreign_asset("options.txt"));
    assert!(!SystemScanner::is_foreign_asset("prism"));
}

#[test]
fn test_version_info_defaults() {
    let v = SystemScanner::version_info(None, None, Some(21), true);
    assert_eq!(v.id, "unknown");
    assert_eq!(v.loader_type, "vanilla");
    assert_eq!(v.java_version, Some(21));
    assert!(v.has_client_jar);
}

#[test]
fn test_finish_scan_marks_scanned() {
    let mut r = SystemScanner::empty_result("/home/p/.minecraft".to_string(), true);
    SystemScanner::finish_scan(&mut r);
    assert_eq!(r.loader_type, "");
    r.versions.push(SystemScanner::version_info(Some("1.21.1".to_string()), None, None, false));
    SystemScanner::finish_scan(&mut r);
    assert_eq!(r.loader_type, "scanned");
}
