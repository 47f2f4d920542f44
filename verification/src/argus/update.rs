//! Release updates: reading the latest release tag, deciding whether it
//! is newer, retrying failed checks, and the helper script that replaces
//! the launcher binary.
//!
//! The HTTP requests, the sleeping between attempts and writing the helper
//! to disk are the application's part.

use vstd::prelude::*;
use crate::argus::state::{AppState, LogLevel, concat2, is_newer, logged_after};
use crate::paths::{set_extension, set_file_name, with_extension, with_file_name};
use crate::text::{replace_char, replace_char_str, chars_of, contains, decimal, decimal_chars, extend_chars, extend_str, find_chars, find_spec, is_ascii_alnum, string_from_chars, sub_chars, trim, trim_chars};

verus! {

/// The releases page of the launcher.
pub const RELEASES_PAGE: &'static str = "https://github.com/AngKool-Dev/argus-releases/releases/latest";

/// How long a completed check stays fresh, in seconds.
pub const CHECK_INTERVAL_SECS: u64 = 3600;

/// How many attempts a check makes.
pub const MAX_RETRIES: u32 = 3;

/// The wait before the first retry, in milliseconds.
pub const INITIAL_RETRY_DELAY_MS: u64 = 500;

/// The outcome of an update check.
#[derive(Debug)]
pub enum UpdateCheckResult {
    UpToDate,
    UpdateAvailable(String),
    CheckFailed(String),
}

/// What to do after one attempt to fetch the latest tag.
pub enum RetryStep {
    /// The check is over.
    Done(UpdateCheckResult),
    /// Wait `wait_ms`, then try again; the wait after that is `next_delay_ms`.
    Retry { wait_ms: u64, next_delay_ms: u64 },
}

/// The file where the helper records the outcome of the last update.
pub fn update_marker_path(current_exe: &str) -> (r: String)
    ensures
        r@ == current_exe@ + ".update-result"@,
{
    let mut out = chars_of(current_exe);
    extend_str(&mut out, ".update-result");
    string_from_chars(&out)
}

/// Whether a new check is due, given how many seconds passed since the
/// last one (none when there was none).
pub fn check_is_due(elapsed_secs: Option<u64>) -> (r: bool)
    ensures
        r == match elapsed_secs {
            None => true,
            Some(e) => e >= CHECK_INTERVAL_SECS,
        },
{
    match elapsed_secs {
        None => true,
        Some(e) => e >= CHECK_INTERVAL_SECS,
    }
}

/// The outcome of a fetched tag for the running version.
pub open spec fn tag_outcome_newer(tag: Seq<char>, current: Seq<char>) -> bool {
    is_newer(tag, current)
}

/// Decides what follows an attempt: a tag ends the check (an update when it
/// is newer than `current_version`), no tag means up to date, and an error
/// is retried with a doubled wait until the third attempt, which fails the
/// check.
pub fn after_fetch(attempt: u32, delay_ms: u64, fetched: Result<Option<String>, String>, current_version: &str) -> (r: RetryStep)
    requires
        delay_ms <= u64::MAX / 2,
    ensures
        match fetched {
            Ok(Some(tag)) => match r {
                RetryStep::Done(UpdateCheckResult::UpdateAvailable(t)) => t == tag && is_newer(tag@, current_version@),
                RetryStep::Done(UpdateCheckResult::UpToDate) => !is_newer(tag@, current_version@),
                _ => false,
            },
            Ok(None) => r matches RetryStep::Done(UpdateCheckResult::UpToDate),
            Err(e) => if attempt >= MAX_RETRIES {
                r matches RetryStep::Done(UpdateCheckResult::CheckFailed(m))
                    && m@ == "Update check failed after "@ + decimal(attempt as nat) + " attempts: "@ + e@
            } else {
                r == RetryStep::Retry { wait_ms: delay_ms, next_delay_ms: (delay_ms * 2) as u64 }
            },
        },
{
    match fetched {
        Ok(Some(tag)) => {
            if AppState::is_newer_version(tag.as_str(), current_version) {
                RetryStep::Done(UpdateCheckResult::UpdateAvailable(tag))
            } else {
                RetryStep::Done(UpdateCheckResult::UpToDate)
            }
        },
        Ok(None) => RetryStep::Done(UpdateCheckResult::UpToDate),
        Err(e) => {
            if attempt >= MAX_RETRIES {
                let mut msg = chars_of("Update check failed after ");
                extend_chars(&mut msg, &decimal_chars(attempt as u64));
                extend_str(&mut msg, " attempts: ");
                extend_str(&mut msg, e.as_str());
                RetryStep::Done(UpdateCheckResult::CheckFailed(string_from_chars(&msg)))
            } else {
                RetryStep::Retry { wait_ms: delay_ms, next_delay_ms: delay_ms * 2 }
            }
        },
    }
}

/// The text after the last `/`.
pub open spec fn after_last_slash(s: Seq<char>) -> Seq<char>
    decreases s.len(),
{
    if s.len() == 0 || s.last() == '/' {
        Seq::empty()
    } else {
        after_last_slash(s.drop_last()).push(s.last())
    }
}

/// The release tag that the final URL of the latest-release redirect
/// names: its last path segment, trimmed, unless empty or `latest`.
pub open spec fn tag_in_url(url: Seq<char>) -> Option<Seq<char>> {
    let t = trim(after_last_slash(url));
    if t.len() == 0 || t == "latest"@ {
        None
    } else {
        Some(t)
    }
}

/// The release tag named by the final URL of the latest-release redirect.
pub fn tag_from_final_url(url: &str) -> (r: Option<String>)
    ensures
        match tag_in_url(url@) {
            None => r is None,
            Some(t) => r matches Some(s) && s@ == t,
        },
{
    proof {
        reveal_strlit("latest");
    }
    let cs = chars_of(url);
    let mut start: usize = cs.len();
    assert(cs@.subrange(0, cs@.len() as int) =~= cs@);
    assert(cs@.subrange(cs@.len() as int, cs@.len() as int) =~= Seq::<char>::empty());
    assert(after_last_slash(cs@) + Seq::<char>::empty() =~= after_last_slash(cs@));
    while start > 0 && cs[start - 1] != '/'
        invariant
            start <= cs@.len(),
            after_last_slash(cs@) == after_last_slash(cs@.subrange(0, start as int)) + cs@.subrange(start as int, cs@.len() as int),
        decreases start,
    {
        proof {
            let t = cs@.subrange(0, start as int);
            assert(t.drop_last() =~= cs@.subrange(0, start - 1));
            assert(cs@.subrange(start - 1, cs@.len() as int) =~= seq![cs@[start - 1]] + cs@.subrange(start as int, cs@.len() as int));
        }
        start = start - 1;
    }
    proof {
        assert(cs@.subrange(0, cs@.len() as int) =~= cs@);
        assert(after_last_slash(cs@.subrange(0, start as int)) =~= Seq::<char>::empty());
        assert(Seq::<char>::empty() + cs@.subrange(start as int, cs@.len() as int) =~= cs@.subrange(start as int, cs@.len() as int));
    }
    let seg = sub_chars(&cs, start, cs.len());
    let t = trim_chars(&seg);
    let latest = chars_of("latest");
    if t.len() == 0 || crate::text::chars_eq(&t, &latest) {
        None
    } else {
        Some(string_from_chars(&t))
    }
}

/// `char::is_alphanumeric`: whether the character is alphabetic or numeric
/// in Unicode.
pub uninterp spec fn alphanumeric_char(c: char) -> bool;

/// `char::is_alphanumeric`. Among ASCII characters exactly the letters and
/// digits are alphanumeric.
#[verifier::external_body]
fn char_is_alphanumeric(c: char) -> (r: bool)
    ensures
        r == alphanumeric_char(c),
        (c as u32) < 128 ==> (r <==> is_ascii_alnum(c)),
{
    c.is_alphanumeric()
}

/// A character that can be part of a release tag.
pub open spec fn tag_char(c: char) -> bool {
    alphanumeric_char(c) || c == '.' || c == '-' || c == '_'
}

pub open spec fn tag_run(s: Seq<char>) -> nat
    decreases s.len(),
{
    if s.len() == 0 || !tag_char(s[0]) {
        0
    } else {
        1 + tag_run(s.drop_first())
    }
}

/// The release tag in a release page: the run of tag characters after the
/// first `tag/`, trimmed, unless empty.
pub open spec fn tag_in_body(body: Seq<char>) -> Option<Seq<char>> {
    match find_spec(body, "tag/"@) {
        None => None,
        Some(i) => {
            let rest = body.subrange(i + 4, body.len() as int);
            let t = trim(rest.subrange(0, tag_run(rest) as int));
            if t.len() == 0 {
                None
            } else {
                Some(t)
            }
        },
    }
}

/// The release tag found in the body of a release page.
pub fn tag_from_body(body: &str) -> (r: Option<String>)
    ensures
        match tag_in_body(body@) {
            None => r is None,
            Some(t) => r matches Some(s) && s@ == t,
        },
{
    proof {
        reveal_strlit("tag/");
    }
    let cs = chars_of(body);
    let pat = chars_of("tag/");
    match find_chars(&cs, &pat) {
        None => None,
        Some(i) => {
            assert(crate::text::occurs_at(cs@, pat@, i as int));
            let n = cs.len();
            assert(i + 4 <= n);
            let start = i + 4;
            let mut end = start;
            assert(cs@.subrange(start as int, n as int).subrange(0, 0) =~= Seq::<char>::empty());
            while end < n && (char_is_alphanumeric(cs[end]) || cs[end] == '.' || cs[end] == '-' || cs[end] == '_')
                invariant
                    start <= end <= n,
                    n == cs@.len(),
                    tag_run(cs@.subrange(start as int, n as int)) == (end - start) + tag_run(cs@.subrange(end as int, n as int)),
                decreases n - end,
            {
                proof {
                    assert(cs@.subrange(end as int, n as int).drop_first() =~= cs@.subrange(end + 1, n as int));
                }
                end = end + 1;
            }
            proof {
                let rest = cs@.subrange(start as int, n as int);
                assert(rest.subrange(0, (end - start) as int) =~= cs@.subrange(start as int, end as int));
            }
            let seg = sub_chars(&cs, start, end);
            let t = trim_chars(&seg);
            if t.len() == 0 {
                None
            } else {
                Some(string_from_chars(&t))
            }
        },
    }
}

/// The download URL of the launcher binary for the latest release, given
/// how fetching the latest tag went.
pub fn fetch_latest_asset_url(tag: Result<String, String>) -> (r: Result<String, String>)
    ensures
        match tag {
            Ok(t) => r matches Ok(u) && u@ == "https://github.com/AngKool-Dev/argus-releases/releases/download/"@ + t@ + "/era-launcher.exe"@,
            Err(e) => r == Err::<String, String>(e),
        },
{
    match tag {
        Ok(t) => {
            let mut u = chars_of("https://github.com/AngKool-Dev/argus-releases/releases/download/");
            extend_str(&mut u, t.as_str());
            extend_str(&mut u, "/era-launcher.exe");
            Ok(string_from_chars(&u))
        },
        Err(e) => Err(e),
    }
}

/// A character that needs no quoting in a POSIX shell word.
pub open spec fn shell_safe(c: char) -> bool {
    is_ascii_alnum(c) || c == '/' || c == '.' || c == '-' || c == '_' || c == '=' || c == ':' || c == '+'
}

/// `s` with every `'` written as `'\''`.
pub open spec fn escape_quotes(s: Seq<char>) -> Seq<char>
    decreases s.len(),
{
    if s.len() == 0 {
        s
    } else if s.last() == '\'' {
        escape_quotes(s.drop_last()) + "'\\''"@
    } else {
        escape_quotes(s.drop_last()).push(s.last())
    }
}

/// A path as a POSIX shell word: as it is when every character is safe,
/// otherwise in single quotes with embedded quotes escaped.
pub open spec fn quoted(s: Seq<char>) -> Seq<char> {
    if forall|i: int| 0 <= i < s.len() ==> shell_safe(#[trigger] s[i]) {
        s
    } else {
        "'"@ + escape_quotes(s) + "'"@
    }
}

/// Quotes a path for a POSIX shell script.
pub fn shell_quote(path: &str) -> (r: String)
    ensures
        r@ == quoted(path@),
{
    proof {
        reveal_strlit("'");
    }
    let cs = chars_of(path);
    let mut safe = true;
    let mut i: usize = 0;
    while i < cs.len()
        invariant
            i <= cs@.len(),
            safe == forall|k: int| 0 <= k < i ==> shell_safe(#[trigger] cs@[k]),
        decreases cs@.len() - i,
    {
        let c = cs[i];
        let ok = crate::text::is_alnum(c) || c == '/' || c == '.' || c == '-' || c == '_' || c == '=' || c == ':' || c == '+';
        if !ok {
            safe = false;
        }
        i = i + 1;
    }
    if safe {
        return path.to_owned();
    }
    let mut out: Vec<char> = Vec::new();
    out.push('\'');
    let mut j: usize = 0;
    while j < cs.len()
        invariant
            j <= cs@.len(),
            out@ == seq!['\''] + escape_quotes(cs@.subrange(0, j as int)),
        decreases cs@.len() - j,
    {
        proof {
            assert(cs@.subrange(0, j + 1).drop_last() =~= cs@.subrange(0, j as int));
            reveal_strlit("'\\''");
        }
        if cs[j] == '\'' {
            extend_str(&mut out, "'\\''");
        } else {
            out.push(cs[j]);
        }
        j = j + 1;
    }
    out.push('\'');
    proof {
        assert(cs@.subrange(0, cs@.len() as int) =~= cs@);
        assert(out@ =~= "'"@ + escape_quotes(path@) + "'"@);
    }
    string_from_chars(&out)
}

/// The update helper to write next to the launcher: its path and its text.
pub struct UpdateHelper {
    pub path: String,
    pub script: String,
}

/// The POSIX helper script that waits for the launcher to exit, copies the
/// new binary over it, records the outcome in the marker file and starts
/// the new launcher.
pub open spec fn helper_script(current: Seq<char>, new: Seq<char>, marker: Seq<char>) -> Seq<char> {
    "#!/bin/sh\n# Auto-generated update helper for EraLauncher — DO NOT EDIT.\nset -u\nCURRENT="@ + current + "\nNEW="@ + new + "\nMARKER="@ + marker + "\nATTEMPTS=0\n# Wait for the old launcher to exit (up to 60 seconds).\nwhile [ \"$ATTEMPTS\" -lt 60 ]; do\n    ATTEMPTS=$((ATTEMPTS + 1))\n    if ! pgrep -x era-launcher >/dev/null 2>&1; then\n        break\n    fi\n    sleep 1\ndone\nif pgrep -x era-launcher >/dev/null 2>&1; then\n    printf 'timeout' > \"$MARKER\"\n    rm -f -- \"$NEW\"\n    exit 1\nfi\n# Copy the new binary in place; retry on transient failures.\nATTEMPTS=0\nwhile [ \"$ATTEMPTS\" -lt 30 ]; do\n    if cp -f -- \"$NEW\" \"$CURRENT\" 2>/dev/null; then\n        break\n    fi\n    ATTEMPTS=$((ATTEMPTS + 1))\n    sleep 1\ndone\nif [ ! -f \"$CURRENT\" ]; then\n    printf 'failed' > \"$MARKER\"\n    rm -f -- \"$NEW\"\n    exit 1\nfi\nchmod +x -- \"$CURRENT\" 2>/dev/null || true\nrm -f -- \"$NEW\"\nprintf 'applied' > \"$MARKER\"\n# Detach so this script keeps running after the launcher exits.\nnohup \"$CURRENT\" >/dev/null 2>&1 &\nexit 0\n"@
}

/// The update helper for replacing `current_exe` by `new_exe`: a shell
/// script beside the launcher (`.update.sh` in place of its extension)
/// that records the outcome in the marker of [`update_marker_path`].
pub fn create_update_helper(current_exe: &str, new_exe: &str) -> (r: UpdateHelper)
    ensures
        r.path@ == with_extension(current_exe@, "update.sh"@),
        r.script@ == helper_script(
            quoted(current_exe@),
            quoted(new_exe@),
            quoted(current_exe@ + ".update-result"@),
        ),
{
    let path = set_extension(current_exe, "update.sh");
    let cur = shell_quote(current_exe);
    let new = shell_quote(new_exe);
    let marker_path = update_marker_path(current_exe);
    let marker = shell_quote(marker_path.as_str());
    let mut s: Vec<char> = Vec::new();
    extend_str(&mut s, "#!/bin/sh\n# Auto-generated update helper for EraLauncher — DO NOT EDIT.\nset -u\nCURRENT=");
    extend_str(&mut s, cur.as_str());
    extend_str(&mut s, "\nNEW=");
    extend_str(&mut s, new.as_str());
    extend_str(&mut s, "\nMARKER=");
    extend_str(&mut s, marker.as_str());
    extend_str(&mut s, "\nATTEMPTS=0\n# Wait for the old launcher to exit (up to 60 seconds).\nwhile [ \"$ATTEMPTS\" -lt 60 ]; do\n    ATTEMPTS=$((ATTEMPTS + 1))\n    if ! pgrep -x era-launcher >/dev/null 2>&1; then\n        break\n    fi\n    sleep 1\ndone\nif pgrep -x era-launcher >/dev/null 2>&1; then\n    printf 'timeout' > \"$MARKER\"\n    rm -f -- \"$NEW\"\n    exit 1\nfi\n# Copy the new binary in place; retry on transient failures.\nATTEMPTS=0\nwhile [ \"$ATTEMPTS\" -lt 30 ]; do\n    if cp -f -- \"$NEW\" \"$CURRENT\" 2>/dev/null; then\n        break\n    fi\n    ATTEMPTS=$((ATTEMPTS + 1))\n    sleep 1\ndone\nif [ ! -f \"$CURRENT\" ]; then\n    printf 'failed' > \"$MARKER\"\n    rm -f -- \"$NEW\"\n    exit 1\nfi\nchmod +x -- \"$CURRENT\" 2>/dev/null || true\nrm -f -- \"$NEW\"\nprintf 'applied' > \"$MARKER\"\n# Detach so this script keeps running after the launcher exits.\nnohup \"$CURRENT\" >/dev/null 2>&1 &\nexit 0\n");
    UpdateHelper { path, script: string_from_chars(&s) }
}

/// The Windows helper script that waits for the launcher to exit, copies
/// the new binary over it, records the outcome in the marker file and
/// starts the new launcher.
pub open spec fn bat_script(current: Seq<char>, new: Seq<char>, helper: Seq<char>, marker: Seq<char>) -> Seq<char> {
    "@echo off\nsetlocal EnableExtensions\nset \"CURRENT="@ + current + "\"\nset \"NEW="@ + new + "\"\nset \"HELPER="@ + helper + "\"\nset \"MARKER="@ + marker
        + "\"\nset \"ATTEMPTS=0\"\n:waitloop\nset /a ATTEMPTS+=1\nif %ATTEMPTS% GTR 60 (\n    echo timeout waiting for old launcher to exit ^> \"%MARKER%\"\n    goto done\n)\ntasklist /fi \"imagename eq era-launcher.exe\" 2>NUL | findstr /i \"era-launcher.exe\" >NUL\nif not errorlevel 1 (\n    timeout /t 1 /nobreak >NUL\n    goto waitloop\n)\n:copy\ncopy /Y \"%NEW%\" \"%CURRENT%\" >NUL 2>&1\nif errorlevel 1 (\n    timeout /t 1 /nobreak >NUL\n    goto copy\n)\ndel /f /q \"%NEW%\" >NUL 2>&1\necho applied ^> \"%MARKER%\"\nstart \"\" \"%CURRENT%\"\nexit /b 0\n:done\ndel /f /q \"%NEW%\" >NUL 2>&1\nexit /b 1\n"@
}

/// A Windows path with its backslashes written as `/`.
pub open spec fn slashes(p: Seq<char>) -> Seq<char> {
    replace_char(p, '\\', '/')
}

/// The Windows update helper for replacing `current_exe` by `new_exe`: a
/// batch script beside the launcher (`.bat` in place of its extension),
/// its paths written with `/`, that records the outcome in the marker of
/// [`update_marker_path`].
pub fn create_windows_update_helper(current_exe: &str, new_exe: &str) -> (r: UpdateHelper)
    ensures
        r.path@ == with_extension(current_exe@, "bat"@),
        r.script@ == bat_script(
            slashes(current_exe@),
            slashes(new_exe@),
            slashes(with_extension(current_exe@, "bat"@)),
            slashes(current_exe@) + ".update-result"@,
        ),
{
    let path = set_extension(current_exe, "bat");
    let cur = replace_char_str(current_exe, '\\', '/');
    let new = replace_char_str(new_exe, '\\', '/');
    let helper = replace_char_str(path.as_str(), '\\', '/');
    let marker = update_marker_path(cur.as_str());
    let mut s: Vec<char> = Vec::new();
    extend_str(&mut s, "@echo off\nsetlocal EnableExtensions\nset \"CURRENT=");
    extend_str(&mut s, cur.as_str());
    extend_str(&mut s, "\"\nset \"NEW=");
    extend_str(&mut s, new.as_str());
    extend_str(&mut s, "\"\nset \"HELPER=");
    extend_str(&mut s, helper.as_str());
    extend_str(&mut s, "\"\nset \"MARKER=");
    extend_str(&mut s, marker.as_str());
    extend_str(&mut s, "\"\nset \"ATTEMPTS=0\"\n:waitloop\nset /a ATTEMPTS+=1\nif %ATTEMPTS% GTR 60 (\n    echo timeout waiting for old launcher to exit ^> \"%MARKER%\"\n    goto done\n)\ntasklist /fi \"imagename eq era-launcher.exe\" 2>NUL | findstr /i \"era-launcher.exe\" >NUL\nif not errorlevel 1 (\n    timeout /t 1 /nobreak >NUL\n    goto waitloop\n)\n:copy\ncopy /Y \"%NEW%\" \"%CURRENT%\" >NUL 2>&1\nif errorlevel 1 (\n    timeout /t 1 /nobreak >NUL\n    goto copy\n)\ndel /f /q \"%NEW%\" >NUL 2>&1\necho applied ^> \"%MARKER%\"\nstart \"\" \"%CURRENT%\"\nexit /b 0\n:done\ndel /f /q \"%NEW%\" >NUL 2>&1\nexit /b 1\n");
    UpdateHelper { path, script: string_from_chars(&s) }
}

/// What the launcher does about updates when it starts.
pub struct UpdateStartup {
    /// The marker of a staged update to delete, when one was named.
    pub clear_marker: Option<String>,
    /// The result of the check when no fetch is due; `None` means fetch.
    pub result: Option<UpdateCheckResult>,
}

/// The start of the update machinery: the marker left by a staged update
/// (named by the environment) is deleted, and a release check is made
/// unless one completed less than [`CHECK_INTERVAL_SECS`] ago, in which
/// case the result is up to date.
pub fn update_startup(pending_marker: Option<String>, elapsed_secs: Option<u64>) -> (r: UpdateStartup)
    ensures
        r.clear_marker == pending_marker,
        r.result == match elapsed_secs {
            Some(e) if e < CHECK_INTERVAL_SECS => Some(UpdateCheckResult::UpToDate),
            _ => None::<UpdateCheckResult>,
        },
{
    let result = if check_is_due(elapsed_secs) {
        None
    } else {
        Some(UpdateCheckResult::UpToDate)
    };
    UpdateStartup { clear_marker: pending_marker, result }
}

/// What follows a finished update check.
pub enum UpdateAction {
    /// Nothing more.
    Nothing,
    /// Download release `tag` to `dest`, then install it over `exe`.
    Stage { tag: String, exe: String, dest: String },
}

/// Where a new launcher binary is downloaded: `era-launcher.new` beside
/// the running one.
pub open spec fn staging_path(exe: Seq<char>) -> Seq<char> {
    with_file_name(exe, "era-launcher.new"@)
}

/// The log line that announces an available update.
pub open spec fn available_line(tag: Seq<char>, version: Seq<char>) -> Seq<char> {
    "Update available: "@ + tag + " (running v"@ + version + ") — downloading..."@
}

/// The loading message while an update downloads.
pub open spec fn downloading_line(tag: Seq<char>) -> Seq<char> {
    "Downloading update v"@ + tag + "..."@
}

/// The log line before an update is installed.
pub open spec fn installing_line(tag: Seq<char>) -> Seq<char> {
    "Update available: "@ + tag + " -- installing and restarting"@
}

/// `s1` is `s0` after a failed update step: loading stops and `message`
/// becomes the error, logged as such.
pub open spec fn update_failed(s0: AppState, s1: AppState, message: Seq<char>) -> bool {
    &&& s1.error_message matches Some(m) && m@ == message
    &&& logged_after(s0.logs@, s1.logs@, LogLevel::Error, "Error: "@ + message)
    &&& s1 == (AppState {
        logs: s1.logs,
        error_message: s1.error_message,
        loading: false,
        loading_message: None,
        ..s0
    })
}

/// `mid` is `s0` after an available update `tag` was announced: logged,
/// with loading started.
#[verifier::opaque]
pub open spec fn update_announced(s0: AppState, mid: AppState, tag: String) -> bool {
    &&& logged_after(s0.logs@, mid.logs@, LogLevel::Info, available_line(tag@, s0.current_version@))
    &&& mid.loading_message matches Some(m) && m@ == downloading_line(tag@)
    &&& mid == (AppState {
        logs: mid.logs,
        loading: true,
        loading_message: mid.loading_message,
        update_check: UpdateCheckResult::UpdateAvailable(tag),
        ..s0
    })
}

/// `s1` is `s0` after logging that update `tag` is being installed.
#[verifier::opaque]
pub open spec fn installing_logged(s0: AppState, s1: AppState, tag: Seq<char>) -> bool {
    &&& logged_after(s0.logs@, s1.logs@, LogLevel::Info, installing_line(tag))
    &&& s1 == (AppState { logs: s1.logs, ..s0 })
}

impl AppState {
    /// Takes in the result of a release check. It is recorded in
    /// `update_check`; a failed check is logged as a warning. An available
    /// update is announced, loading starts, and the release is to be staged
    /// beside the launcher at `current_exe`; when that path could not be
    /// found the update fails with that error instead.
    pub fn on_update_check(&mut self, result: UpdateCheckResult, current_exe: Result<String, String>) -> (a: UpdateAction)
        ensures
            match result {
                UpdateCheckResult::UpToDate => (a is Nothing) && *final(self) == (AppState {
                    update_check: UpdateCheckResult::UpToDate,
                    ..*old(self)
                }),
                UpdateCheckResult::CheckFailed(err) => {
                    &&& a is Nothing
                    &&& logged_after(old(self).logs@, final(self).logs@, LogLevel::Warn, "Update check failed: "@ + err@)
                    &&& *final(self) == (AppState {
                        logs: final(self).logs,
                        update_check: UpdateCheckResult::CheckFailed(err),
                        ..*old(self)
                    })
                },
                UpdateCheckResult::UpdateAvailable(tag) => {
                    let s0 = *old(self);
                    exists|mid: AppState, mid2: AppState|
                        #![trigger update_announced(s0, mid, tag), installing_logged(mid, mid2, tag@)]
                    {
                        &&& update_announced(s0, mid, tag)
                        &&& installing_logged(mid, mid2, tag@)
                        &&& match current_exe {
                            Ok(exe) => {
                                &&& a matches UpdateAction::Stage { tag: t, exe: x, dest }
                                    && t == tag && x == exe && dest@ == staging_path(exe@)
                                &&& *final(self) == mid2
                            },
                            Err(e) => {
                                &&& a is Nothing
                                &&& update_failed(mid2, *final(self), "Cannot locate launcher path: "@ + e@)
                            },
                        }
                    }
                },
            },
    {
        match result {
            UpdateCheckResult::UpToDate => {
                self.update_check = UpdateCheckResult::UpToDate;
                UpdateAction::Nothing
            },
            UpdateCheckResult::CheckFailed(err) => {
                let line = concat2("Update check failed: ", err.as_str());
                self.log(LogLevel::Warn, "ARGUS", line.as_str());
                self.update_check = UpdateCheckResult::CheckFailed(err);
                UpdateAction::Nothing
            },
            UpdateCheckResult::UpdateAvailable(tag) => {
                self.announce_update(&tag);
                self.log_installing(tag.as_str());
                match current_exe {
                    Ok(exe) => {
                        let dest = set_file_name(exe.as_str(), "era-launcher.new");
                        UpdateAction::Stage { tag, exe, dest }
                    },
                    Err(e) => {
                        self.set_loading(false, None);
                        let msg = concat2("Cannot locate launcher path: ", e.as_str());
                        self.set_error(msg);
                        UpdateAction::Nothing
                    },
                }
            },
        }
    }

    fn announce_update(&mut self, tag: &String)
        ensures
            update_announced(*old(self), *final(self), *tag),
    {
        reveal(update_announced);
        let mut l1 = chars_of("Update available: ");
        extend_str(&mut l1, tag.as_str());
        extend_str(&mut l1, " (running v");
        extend_str(&mut l1, self.current_version);
        extend_str(&mut l1, ") — downloading...");
        let line1 = string_from_chars(&l1);
        self.log(LogLevel::Info, "ARGUS", line1.as_str());
        let mut m = chars_of("Downloading update v");
        extend_str(&mut m, tag.as_str());
        extend_str(&mut m, "...");
        self.set_loading(true, Some(string_from_chars(&m)));
        self.update_check = UpdateCheckResult::UpdateAvailable(tag.clone());
    }

    fn log_installing(&mut self, tag: &str)
        ensures
            installing_logged(*old(self), *final(self), tag@),
    {
        reveal(installing_logged);
        let mut l2 = chars_of("Update available: ");
        extend_str(&mut l2, tag);
        extend_str(&mut l2, " -- installing and restarting");
        let line2 = string_from_chars(&l2);
        self.log(LogLevel::Info, "ARGUS", line2.as_str());
    }

    /// Takes in how downloading a staged release went. On success the
    /// helper that installs `dest` over `current_exe` is returned (the batch
    /// script on Windows, the shell script elsewhere), for the caller to
    /// write and start; on failure the update fails with `Update failed: `
    /// and the error.
    pub fn on_update_downloaded(&mut self, downloaded: Result<(), String>, current_exe: &str, dest: &str, windows: bool) -> (r: Option<UpdateHelper>)
        ensures
            match downloaded {
                Ok(()) => {
                    &&& windows ==> (r matches Some(h) && h.path@ == with_extension(current_exe@, "bat"@)
                        && h.script@ == bat_script(
                            slashes(current_exe@),
                            slashes(dest@),
                            slashes(with_extension(current_exe@, "bat"@)),
                            slashes(current_exe@) + ".update-result"@,
                        ))
                    &&& !windows ==> (r matches Some(h) && h.path@ == with_extension(current_exe@, "update.sh"@)
                        && h.script@ == helper_script(quoted(current_exe@), quoted(dest@), quoted(current_exe@ + ".update-result"@)))
                    &&& *final(self) == *old(self)
                },
                Err(e) => r is None && update_failed(*old(self), *final(self), "Update failed: "@ + e@),
            },
    {
        match downloaded {
            Ok(()) => {
                if windows {
                    Some(create_windows_update_helper(current_exe, dest))
                } else {
                    Some(create_update_helper(current_exe, dest))
                }
            },
            Err(e) => {
                self.fail_update(e);
                None
            },
        }
    }

    /// Takes in whether the helper was written and started: on success the
    /// launcher quits so that the helper can replace it; on failure the
    /// update fails with `Update failed: ` and the error.
    pub fn on_update_staged(&mut self, outcome: Result<(), String>)
        ensures
            match outcome {
                Ok(()) => *final(self) == (AppState { should_quit: true, ..*old(self) }),
                Err(e) => update_failed(*old(self), *final(self), "Update failed: "@ + e@),
            },
    {
        match outcome {
            Ok(()) => {
                self.should_quit = true;
            },
            Err(e) => {
                self.fail_update(e);
            },
        }
    }

    fn fail_update(&mut self, e: String)
        ensures
            update_failed(*old(self), *final(self), "Update failed: "@ + e@),
    {
        self.set_loading(false, None);
        let msg = concat2("Update failed: ", e.as_str());
        self.set_error(msg);
    }
}

} // verus!
