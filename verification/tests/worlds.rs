use era_launcher::worlds::{
    backup_archive_path, backups_dir, is_backup_archive, missing_world, world_dir, zip_entry_name,
};

#[test]
fn test_world_paths() {
    assert_eq!(backups_dir("/home/p/.local/share/era"), "/home/p/.local/share/era/backups");
    assert_eq!(
        world_dir("/data/instances", "test-instance", "TestWorld"),
        "/data/instances/test-instance/saves/TestWorld"
    );
    assert_eq!(
        backup_archive_path("/data", "TestWorld", 1700000000),
        "/data/backups/TestWorld-1700000000.zip"
    );
}

#[test]
fn test_zip_entry_names() {
    let root = "/data/instances/i/saves/W";
    assert_eq!(zip_entry_name(root, root), None);
    assert_eq!(zip_entry_name(root, "/data/instances/i/saves/W/level.dat"), Some("level.dat".to_string()));
    assert_eq!(
        zip_entry_name(root, "/data/instances/i/saves/W/region/r.0.0.mca"),
        Some("region/r.0.0.mca".to_string())
    );
    assert_eq!(zip_entry_name("C:\\w", "C:\\w\\a\\b.dat"), Some("C:/w/a/b.dat".to_string()));
}

#[test]
fn test_backup_archive_filter() {
    assert!(is_backup_archive("/data/backups/World-1.zip"));
    assert!(!is_backup_archive("/data/backups/World-1.zip.part"));
    assert!(!is_backup_archive("/data/backups/.zip"));
    assert!(!is_backup_archive("/data/backups/notes"));
}

#[test]
fn test_missing_world_message() {
    let e = missing_world("/data/instances/i/saves/W");
    assert_eq!(e.message(), "world directory not found: /data/instances/i/saves/W");
}

#[test]
fn test_list_backups_newest_first() {
    let files = vec![
        "/b/World-1700000000.zip".to_string(),
        "/b/notes.txt".to_string(),
        "/b/World-1800000000.zip".to_string(),
        "/b/Alpha-1750000000.zip".to_string(),
        "/b/World-1800000000.zip.part".to_string(),
    ];
    let out = era_launcher::worlds::list_backups(files);
    assert_eq!(
        out,
        vec![
            "/b/World-1800000000.zip".to_string(),
            "/b/World-1700000000.zip".to_string(),
            "/b/Alpha-1750000000.zip".to_string(),
        ]
    );
    assert!(era_launcher::worlds::list_backups(Vec::new()).is_empty());
}
