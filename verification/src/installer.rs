//! The Java runtime installer: where a managed runtime lives, which Adoptium
//! release to ask for, what the downloaded archive is called and how its
//! entries are laid out on disk, and the order of the install steps.
//!
//! Downloading, unpacking and running `java -version` are the caller's part;
//! it reports each outcome back to `WebInstaller::install_step`.

use vstd::prelude::*;
use crate::errors::LauncherError;
use crate::minecraft::java::{
    at_least_all, install_view, installs_of, last_max_index, required_java, JavaInstallation,
    JavaManager, JavaProbe,
};
use crate::paths::{
    first_component, join, join_path, path_first_component, strip_first_component, without_first,
};
use crate::text::{
    chars_of, concat3, decimal, decimal_chars, ends_with, ends_with_chars, lowercase, str_eq,
    to_lowercase,
};

verus! {

/// The Java major version installed when none is asked for.
pub const DEFAULT_JAVA_VERSION: u32 = 21;

/// The Adoptium release API.
pub const ADOPTIUM_API: &'static str = "https://api.adoptium.net/v3";

/// The outcome of an installation, as reported to the user.
pub struct InstallResult {
    pub success: bool,
    pub java_installed: bool,
    pub java_path: Option<String>,
    pub launcher_path: Option<String>,
    pub error: Option<String>,
}

/// A place a Java runtime can be downloaded from.
pub struct JavaMirror {
    pub name: String,
    pub url: String,
}

/// The operating system and processor architecture, as Rust names them
/// (`std::env::consts::OS` and `ARCH`).
pub struct Platform {
    pub os: String,
    pub arch: String,
}

/// Installs a managed Java runtime below `install_dir`.
pub struct WebInstaller {
    platform: Platform,
    java_version: u32,
    install_dir: String,
}

/// What an install reports back after each step it was asked to take.
pub enum InstallEvent {
    /// Whether a suitable Java was found on the machine, and whether the
    /// managed runtime's executable is already in place.
    Checked { java_found: bool, runtime_present: bool },
    /// The download from mirror `mirror` succeeded or not.
    Downloaded { mirror: usize, ok: bool },
    /// Unpacking the archive from mirror `mirror` succeeded or not.
    Extracted { mirror: usize, ok: bool },
    /// Running the unpacked runtime succeeded or not.
    Verified { mirror: usize, ok: bool },
}

/// The next step of an install.
pub enum InstallAction {
    /// Download the runtime from mirror `mirror`.
    Download { mirror: usize },
    /// Unpack the archive downloaded from mirror `mirror`.
    Extract { mirror: usize },
    /// Run the unpacked runtime to check that it works.
    Verify { mirror: usize },
    /// Stop: the runtime is usable (`true`) or every mirror failed.
    Finish { installed: bool },
}

/// The kinds of archive a runtime ships in.
pub enum ArchiveKind {
    Zip,
    TarGz,
}

/// Adoptium's name for an operating system.
pub open spec fn adoptium_os(os: Seq<char>) -> Seq<char> {
    if os == "windows"@ {
        "windows"@
    } else if os == "osx"@ {
        "macos"@
    } else {
        "linux"@
    }
}

/// Adoptium's name for an architecture.
pub open spec fn adoptium_arch(arch: Seq<char>) -> Seq<char> {
    if arch == "arm64"@ || arch == "aarch64"@ {
        "aarch64"@
    } else {
        "x64"@
    }
}

/// The release query for the newest generally available JRE of a feature
/// version.
pub open spec fn adoptium_query(version: u32, os: Seq<char>, arch: Seq<char>) -> Seq<char> {
    "https://api.adoptium.net/v3"@ + "/assets/feature_releases/"@ + decimal(version as nat)
        + "/ga?architecture="@ + adoptium_arch(arch) + "&image_type=jre&os="@ + adoptium_os(os)
        + "&vendor=eclipse"@
}

/// The directory of the managed runtime for a Java version.
pub open spec fn runtime_dir(install_dir: Seq<char>, version: u32) -> Seq<char> {
    join(join(install_dir, "runtimes"@), "java"@ + decimal(version as nat))
}

/// The executable inside a runtime directory.
pub open spec fn java_bin(windows: bool) -> Seq<char> {
    if windows {
        "bin/javaw.exe"@
    } else {
        "bin/java"@
    }
}

/// The local name of a downloaded runtime archive.
pub open spec fn archive_name(url: Seq<char>) -> Seq<char> {
    if ends_with(lowercase(url), ".tar.gz"@) && !ends_with(lowercase(url), ".zip"@) {
        "java_jre.tar.gz"@
    } else {
        "java_jre.zip"@
    }
}

/// The kind of an archive, by the end of its lower-cased name.
pub open spec fn kind_of(path: Seq<char>) -> ArchiveKind {
    if ends_with(lowercase(path), ".tar.gz"@) && !ends_with(lowercase(path), ".zip"@) {
        ArchiveKind::TarGz
    } else {
        ArchiveKind::Zip
    }
}

/// The single top-level directory shared by all entries of an archive: the
/// first component of each entry, when every entry has one and they agree.
pub open spec fn common_top(firsts: Seq<Option<Seq<char>>>) -> Option<Seq<char>> {
    if firsts.len() > 0 && firsts[0] is Some && (forall|i: int|
        0 <= i < firsts.len() ==> #[trigger] firsts[i] == firsts[0]) {
        firsts[0]
    } else {
        None
    }
}

/// Where an archive entry is written: below `dest`, without the common
/// top-level directory when there is one; nowhere when nothing is left.
pub open spec fn entry_target(dest: Seq<char>, entry: Seq<char>, stripping: bool) -> Option<
    Seq<char>,
> {
    let rel = if stripping {
        without_first(entry)
    } else {
        entry
    };
    if rel.len() == 0 {
        None
    } else {
        Some(join(dest, rel))
    }
}

/// The step after mirror `i` failed: the next mirror, or the end.
pub open spec fn after_failure(i: int, n_mirrors: int) -> InstallAction {
    if 0 <= i && i + 1 < n_mirrors {
        InstallAction::Download { mirror: (i + 1) as usize }
    } else {
        InstallAction::Finish { installed: false }
    }
}

/// The install steps: nothing to do when Java is already there; otherwise
/// each mirror in turn is downloaded, unpacked and checked, until one
/// works or none is left.
pub open spec fn next_step(n_mirrors: int, e: InstallEvent) -> InstallAction {
    match e {
        InstallEvent::Checked { java_found, runtime_present } => {
            if java_found || runtime_present {
                InstallAction::Finish { installed: true }
            } else if n_mirrors > 0 {
                InstallAction::Download { mirror: 0 }
            } else {
                InstallAction::Finish { installed: false }
            }
        },
        InstallEvent::Downloaded { mirror, ok } => {
            if ok {
                InstallAction::Extract { mirror }
            } else {
                after_failure(mirror as int, n_mirrors)
            }
        },
        InstallEvent::Extracted { mirror, ok } => {
            if ok {
                InstallAction::Verify { mirror }
            } else {
                after_failure(mirror as int, n_mirrors)
            }
        },
        InstallEvent::Verified { mirror, ok } => {
            if ok {
                InstallAction::Finish { installed: true }
            } else {
                after_failure(mirror as int, n_mirrors)
            }
        },
    }
}

fn adoptium_os_name(os: &str) -> (r: &'static str)
    ensures
        r@ == adoptium_os(os@),
{
    proof {
        reveal_strlit("windows");
        reveal_strlit("osx");
        reveal_strlit("macos");
        reveal_strlit("linux");
    }
    if str_eq(os, "windows") {
        "windows"
    } else if str_eq(os, "osx") {
        "macos"
    } else {
        "linux"
    }
}

fn adoptium_arch_name(arch: &str) -> (r: &'static str)
    ensures
        r@ == adoptium_arch(arch@),
{
    proof {
        reveal_strlit("arm64");
        reveal_strlit("aarch64");
        reveal_strlit("x64");
    }
    if str_eq(arch, "arm64") || str_eq(arch, "aarch64") {
        "aarch64"
    } else {
        "x64"
    }
}

impl WebInstaller {
    /// An installer for `java_version` (21 when not given) below
    /// `install_dir`, on `platform`. The caller creates the directory.
    pub fn new(install_dir: String, java_version: Option<u32>, platform: Platform) -> (w: Self)
        ensures
            w.install_dir()@ == install_dir@,
            w.java_version() == match java_version {
                Some(v) => v,
                None => DEFAULT_JAVA_VERSION,
            },
            w.platform().os@ == platform.os@,
            w.platform().arch@ == platform.arch@,
    {
        let v = match java_version {
            Some(v) => v,
            None => DEFAULT_JAVA_VERSION,
        };
        WebInstaller { platform, java_version: v, install_dir }
    }

    pub closed spec fn install_dir(&self) -> String {
        self.install_dir
    }

    pub closed spec fn java_version(&self) -> u32 {
        self.java_version
    }

    pub closed spec fn platform(&self) -> Platform {
        self.platform
    }

    /// The Java major version this installer provides.
    pub fn version(&self) -> (r: u32)
        ensures
            r == self.java_version(),
    {
        self.java_version
    }

    /// The Adoptium query for the JRE of feature version `version` on this
    /// platform.
    pub fn adoptium_jre_query(&self, version: u32) -> (r: String)
        ensures
            r@ == adoptium_query(version, self.platform().os@, self.platform().arch@),
    {
        proof {
            reveal_strlit("https://api.adoptium.net/v3");
            reveal_strlit("/assets/feature_releases/");
            reveal_strlit("/ga?architecture=");
            reveal_strlit("&image_type=jre&os=");
            reveal_strlit("&vendor=eclipse");
            reveal_strlit("");
        }
        let os = adoptium_os_name(self.platform.os.as_str());
        let arch = adoptium_arch_name(self.platform.arch.as_str());
        let mut s = String::from_str("https://api.adoptium.net/v3");
        s.append("/assets/feature_releases/");
        let v = decimal_chars(version as u64);
        let mid = concat3("", &v, "/ga?architecture=");
        s.append(mid.as_str());
        s.append(arch);
        s.append("&image_type=jre&os=");
        s.append(os);
        s.append("&vendor=eclipse");
        assert(mid@ =~= decimal(version as nat) + "/ga?architecture="@);
        assert(s@ =~= adoptium_query(version, self.platform().os@, self.platform().arch@));
        s
    }

    /// The mirrors to try: Adoptium Temurin, when its release query gave
    /// a download link.
    pub fn java_mirrors(&self, adoptium_link: Option<String>) -> (r: Vec<JavaMirror>)
        ensures
            match adoptium_link {
                None => r@.len() == 0,
                Some(url) => r@.len() == 1 && r@[0].name@ == "Adoptium Temurin"@ && r@[0].url@
                    == url@,
            },
    {
        let mut mirrors: Vec<JavaMirror> = Vec::new();
        match adoptium_link {
            Some(url) => {
                let name = String::from_str("Adoptium Temurin");
                proof {
                    reveal_strlit("Adoptium Temurin");
                }
                mirrors.push(JavaMirror { name, url });
            },
            None => {},
        }
        mirrors
    }

    /// The newest suitable Java among the probed candidates, for the
    /// Minecraft release named after this installer's Java version.
    pub fn detected_java(&self, probes: &[JavaProbe]) -> (r: Option<JavaInstallation>)
        ensures
            ({
                let m = required_java(decimal(self.java_version() as nat) + ".0.0"@);
                let c = at_least_all(installs_of(probes@), m);
                &&& c.len() == 0 ==> r is None
                &&& c.len() > 0 ==> (r matches Some(i) && install_view(i) == c[last_max_index(
                    c,
                    c.len() as int,
                )])
            }),
            r matches Some(i) ==> crate::minecraft::java::detected(i),
    {
        let v = decimal_chars(self.java_version as u64);
        let name = concat3("", &v, ".0.0");
        proof {
            reveal_strlit("");
        }
        assert(name@ == decimal(self.java_version() as nat) + ".0.0"@);
        let major = JavaManager::required_for_minecraft(name.as_str());
        JavaManager::find_compatible(probes, major)
    }

    /// Whether a suitable Java was found among the probed candidates.
    pub fn is_java_installed(&self, probes: &[JavaProbe]) -> (r: bool)
        ensures
            r == (at_least_all(
                installs_of(probes@),
                required_java(decimal(self.java_version() as nat) + ".0.0"@),
            ).len() > 0),
    {
        self.detected_java(probes).is_some()
    }

    /// The directory of the managed runtime.
    pub fn java_dir(&self) -> (r: String)
        ensures
            r@ == runtime_dir(self.install_dir()@, self.java_version()),
    {
        proof {
            reveal_strlit("runtimes");
            reveal_strlit("java");
        }
        let base = join_path(self.install_dir.as_str(), "runtimes");
        let v = decimal_chars(self.java_version as u64);
        let name = concat3("java", &v, "");
        proof {
            reveal_strlit("");
        }
        assert(name@ =~= "java"@ + decimal(self.java_version() as nat));
        join_path(base.as_str(), name.as_str())
    }

    /// The managed runtime's executable (`javaw.exe` on Windows).
    pub fn java_exe(&self, windows: bool) -> (r: String)
        ensures
            r@ == join(runtime_dir(self.install_dir()@, self.java_version()), java_bin(windows)),
    {
        let dir = self.java_dir();
        join_path(dir.as_str(), get_java_bin_name(windows))
    }

    /// The managed runtime's executable, when the caller found it on disk.
    pub fn java_path(&self, windows: bool, exe_exists: bool) -> (r: Option<String>)
        ensures
            exe_exists ==> (r matches Some(p) && p@ == join(
                runtime_dir(self.install_dir()@, self.java_version()),
                java_bin(windows),
            )),
            !exe_exists ==> r is None,
    {
        if exe_exists {
            Some(self.java_exe(windows))
        } else {
            None
        }
    }

    /// Where an install goes next, given how many mirrors there are and
    /// what the last step reported.
    pub fn install_step(&self, n_mirrors: usize, event: InstallEvent) -> (a: InstallAction)
        ensures
            a == next_step(n_mirrors as int, event),
    {
        match event {
            InstallEvent::Checked { java_found, runtime_present } => {
                if java_found || runtime_present {
                    InstallAction::Finish { installed: true }
                } else if n_mirrors > 0 {
                    InstallAction::Download { mirror: 0 }
                } else {
                    InstallAction::Finish { installed: false }
                }
            },
            InstallEvent::Downloaded { mirror, ok } => {
                if ok {
                    InstallAction::Extract { mirror }
                } else {
                    next_mirror(mirror, n_mirrors)
                }
            },
            InstallEvent::Extracted { mirror, ok } => {
                if ok {
                    InstallAction::Verify { mirror }
                } else {
                    next_mirror(mirror, n_mirrors)
                }
            },
            InstallEvent::Verified { mirror, ok } => {
                if ok {
                    InstallAction::Finish { installed: true }
                } else {
                    next_mirror(mirror, n_mirrors)
                }
            },
        }
    }
}

fn next_mirror(i: usize, n: usize) -> (a: InstallAction)
    ensures
        a == after_failure(i as int, n as int),
{
    if i < n && n - i > 1 {
        InstallAction::Download { mirror: i + 1 }
    } else {
        InstallAction::Finish { installed: false }
    }
}

/// The outcome of installing a runtime: its executable when the install
/// worked, otherwise the error that the download failed.
pub fn install_java_runtime(installed: bool, java_path: Option<String>) -> (r: Result<
    Option<String>,
    LauncherError,
>)
    ensures
        installed ==> (r matches Ok(p) && p == java_path),
        !installed ==> (r matches Err(LauncherError::Java(m)) && m@ == "Java download failed"@),
{
    if installed {
        Ok(java_path)
    } else {
        let m = String::from_str("Java download failed");
        proof {
            reveal_strlit("Java download failed");
        }
        Err(LauncherError::Java(m))
    }
}

/// The executable's place inside a runtime directory.
pub fn get_java_bin_name(windows: bool) -> (r: &'static str)
    ensures
        r@ == java_bin(windows),
{
    proof {
        reveal_strlit("bin/javaw.exe");
        reveal_strlit("bin/java");
    }
    if windows {
        "bin/javaw.exe"
    } else {
        "bin/java"
    }
}

fn lower_kind(url: &str) -> (r: ArchiveKind)
    ensures
        r == kind_of(url@),
{
    proof {
        reveal_strlit(".zip");
        reveal_strlit(".tar.gz");
    }
    let lower = chars_of(to_lowercase(url).as_str());
    let zip = chars_of(".zip");
    let tgz = chars_of(".tar.gz");
    if ends_with_chars(&lower, &zip) {
        ArchiveKind::Zip
    } else if ends_with_chars(&lower, &tgz) {
        ArchiveKind::TarGz
    } else {
        ArchiveKind::Zip
    }
}

/// The local name under which a runtime archive is saved: its kind is read
/// off the end of the download URL.
pub fn get_archive_name(url: &str) -> (r: String)
    ensures
        r@ == archive_name(url@),
{
    proof {
        reveal_strlit("java_jre.zip");
        reveal_strlit("java_jre.tar.gz");
    }
    match lower_kind(url) {
        ArchiveKind::Zip => String::from_str("java_jre.zip"),
        ArchiveKind::TarGz => String::from_str("java_jre.tar.gz"),
    }
}

/// How an archive is to be unpacked, by its name.
pub fn archive_kind(path: &str) -> (r: ArchiveKind)
    ensures
        r == kind_of(path@),
{
    lower_kind(path)
}

/// The top-level directory that every entry of an archive lies in, if
/// there is exactly one; entries are given by their paths in the archive.
pub fn single_top_level(entries: &[String]) -> (r: Option<String>)
    ensures
        match common_top(Seq::new(entries@.len(), |i: int| first_component(entries@[i]@))) {
            None => r is None,
            Some(t) => r matches Some(s) && s@ == t,
        },
{
    let ghost firsts = Seq::new(entries@.len(), |i: int| first_component(entries@[i]@));
    if entries.len() == 0 {
        return None;
    }
    let top = match path_first_component(entries[0].as_str()) {
        Some(t) => t,
        None => {
            return None;
        },
    };
    let mut i: usize = 1;
    while i < entries.len()
        invariant
            1 <= i <= entries@.len(),
            firsts == Seq::new(entries@.len(), |i: int| first_component(entries@[i]@)),
            firsts[0] == Some(top@),
            forall|k: int| 0 <= k < i ==> #[trigger] firsts[k] == firsts[0],
        decreases entries@.len() - i,
    {
        match path_first_component(entries[i].as_str()) {
            Some(c) => {
                if !str_eq(c.as_str(), top.as_str()) {
                    assert(firsts[i as int] != firsts[0]);
                    return None;
                }
            },
            None => {
                assert(firsts[i as int] != firsts[0]);
                return None;
            },
        }
        i = i + 1;
    }
    Some(top)
}

/// Where an archive entry is written below `dest`, stripping the common
/// top-level directory when `top` names one; `None` for the top-level
/// directory itself.
pub fn entry_destination(dest: &str, entry: &str, top: &Option<String>) -> (r: Option<String>)
    ensures
        match entry_target(dest@, entry@, top is Some) {
            None => r is None,
            Some(t) => r matches Some(s) && s@ == t,
        },
{
    let rel = match top {
        Some(_) => strip_first_component(entry),
        None => String::from_str(entry),
    };
    if rel.as_str().unicode_len() == 0 {
        None
    } else {
        Some(join_path(dest, rel.as_str()))
    }
}

} // verus!
