use era_launcher::digest::{verify_sha1, verify_sha256};
use era_launcher::downloads::DownloadManager;

#[test]
fn test_verify_sha1_correct_hash() {
    let dm = DownloadManager::new();
    assert!(dm.verify_sha1(b"hello world", "2aae6c35c94fcfb415dbe95f408b9ce91ee846ed"));
}

#[test]
fn test_verify_sha1_incorrect_hash() {
    let dm = DownloadManager::new();
    assert!(!dm.verify_sha1(b"hello world", "0000000000000000000000000000000000000000"));
}

#[test]
fn test_verify_sha1_empty_file() {
    let dm = DownloadManager::new();
    assert!(dm.verify_sha1(b"", "da39a3ee5e6b4b0d3255bfef95601890afd80709"));
}

#[test]
fn test_verify_sha1_ignores_case() {
    assert!(verify_sha1(b"hello world", "2AAE6C35C94FCFB415DBE95F408B9CE91EE846ED"));
    assert!(!verify_sha1(b"hello world!", "2aae6c35c94fcfb415dbe95f408b9ce91ee846ed"));
}

#[test]
fn test_verify_sha256() {
    assert!(verify_sha256(
        b"hello world",
        "b94d27b9934d3e08a52e52d7da7dabfac484efe37a5380ee9088f7ace2efcde9"
    ));
    assert!(!verify_sha256(b"hello world", "b94d27b9"));
}

#[test]
fn test_download_progress_reports() {
    let dm = DownloadManager::new().with_progress_callback();
    assert!(dm.reports_progress);
    assert_eq!(dm.timeout_secs, 300);
    let p = dm.chunk_progress("test.jar".to_string(), 1024, 512, Some(4096));
    assert_eq!(p.file_name, "test.jar");
    assert_eq!(p.bytes_downloaded, 1536);
    assert_eq!(p.total_bytes, Some(4096));
    assert!(!p.is_complete);
    let done = dm.finished_progress("test.jar".to_string(), 4096, Some(4096));
    assert!(done.is_complete);
    assert_eq!(done.bytes_downloaded, 4096);
}

#[test]
fn test_download_paths() {
    let dm = DownloadManager::default();
    assert_eq!(dm.temp_path("/cache/lib.jar"), "/cache/lib.part");
    assert_eq!(dm.temp_path("/cache/index"), "/cache/index.part");
    assert_eq!(dm.file_label("/cache/lib.jar"), "lib.jar");
    assert_eq!(dm.file_label("/"), "unknown");
}
