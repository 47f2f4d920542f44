//! Downloads: where a file is written while it streams in, the progress
//! reports handed to a listener, and the checksum test of the finished file.
//! The transfer itself (HTTP, the file system) is the caller's part.

use vstd::prelude::*;
use crate::digest::{hex_lower, sha1_of, verify_sha1 as sha1_matches};
use crate::paths::{file_name, path_file_name, set_extension, with_extension};
use crate::text::eq_ignore_case;

verus! {

/// How far a download has come.
pub struct DownloadProgress {
    pub file_name: String,
    pub bytes_downloaded: usize,
    pub total_bytes: Option<usize>,
    pub is_complete: bool,
}

/// The settings of a download session.
pub struct DownloadManager {
    /// The time allowed for one transfer, in seconds.
    pub timeout_secs: u64,
    /// Whether a progress listener was attached.
    pub reports_progress: bool,
}

/// The name under which a download is reported: the last component of the
/// destination, or `unknown` where it has none.
pub open spec fn label_of(dest: Seq<char>) -> Seq<char> {
    match file_name(dest) {
        Some(n) => n,
        None => "unknown"@,
    }
}

impl DownloadManager {
    /// A session with the standard five-minute timeout and no listener.
    pub fn new() -> (m: Self)
        ensures
            m.timeout_secs == 300,
            !m.reports_progress,
    {
        DownloadManager { timeout_secs: 300, reports_progress: false }
    }

    /// The same session with a progress listener attached.
    pub fn with_progress_callback(self) -> (m: Self)
        ensures
            m.timeout_secs == self.timeout_secs,
            m.reports_progress,
    {
        DownloadManager { timeout_secs: self.timeout_secs, reports_progress: true }
    }

    /// The file that receives the bytes while they stream in; it is renamed
    /// to `dest` once the transfer is complete.
    pub fn temp_path(&self, dest: &str) -> (r: String)
        ensures
            r@ == with_extension(dest@, "part"@),
    {
        set_extension(dest, "part")
    }

    /// The name under which the download of `dest` is reported.
    pub fn file_label(&self, dest: &str) -> (r: String)
        ensures
            r@ == label_of(dest@),
    {
        match path_file_name(dest) {
            Some(n) => n,
            None => {
                let u = String::from_str("unknown");
                proof {
                    reveal_strlit("unknown");
                }
                u
            },
        }
    }

    /// The report after a chunk of `chunk_len` bytes has been written, on top
    /// of `downloaded` bytes before it.
    pub fn chunk_progress(
        &self,
        name: String,
        downloaded: usize,
        chunk_len: usize,
        total: Option<usize>,
    ) -> (p: DownloadProgress)
        requires
            downloaded + chunk_len <= usize::MAX,
        ensures
            p.file_name@ == name@,
            p.bytes_downloaded == downloaded + chunk_len,
            p.total_bytes == total,
            !p.is_complete,
    {
        DownloadProgress {
            file_name: name,
            bytes_downloaded: downloaded + chunk_len,
            total_bytes: total,
            is_complete: false,
        }
    }

    /// The final report, once all `downloaded` bytes are in place.
    pub fn finished_progress(&self, name: String, downloaded: usize, total: Option<usize>) -> (p:
        DownloadProgress)
        ensures
            p.file_name@ == name@,
            p.bytes_downloaded == downloaded,
            p.total_bytes == total,
            p.is_complete,
    {
        DownloadProgress {
            file_name: name,
            bytes_downloaded: downloaded,
            total_bytes: total,
            is_complete: true,
        }
    }

    /// Whether the SHA-1 of a file's contents is `expected`, written in
    /// hexadecimal of either case.
    pub fn verify_sha1(&self, data: &[u8], expected: &str) -> (r: bool)
        ensures
            r == eq_ignore_case(hex_lower(sha1_of(data@)), expected@),
    {
        sha1_matches(data, expected)
    }
}

impl Default for DownloadManager {
    fn default() -> (m: Self)
        ensures
            m.timeout_secs == 300,
            !m.reports_progress,
    {
        DownloadManager::new()
    }
}

} // verus!
