//! The terminal UI's state: navigation, the runtime state of the game, the
//! command prompt with its history, and the log.

use vstd::prelude::*;
use std::collections::VecDeque;
use crate::instances::{InstanceConfig, same_instance};
use crate::minecraft::java::JavaInstallation;
use crate::minecraft::optimization::OptimizationProfile;
use crate::modrinth::Project;
use crate::servers::ServerEntry;
use crate::text::{chars_of, parse_u64, parse_unsigned, split_chars, split_on, strip_leading, strip_leading_chars, trim, trim_chars, string_from_chars, views};

verus! {

broadcast use vstd::std_specs::vecdeque::group_vec_dequeue_axioms;

/// The version of this launcher.
pub const LAUNCHER_VERSION: &'static str = "0.1.12";

/// Navigation sections.
#[derive(Debug, Clone, Copy, PartialEq, Eq, Structural)]
pub enum Section {
    Home,
    Discover,
    Instances,
    Mods,
    Worlds,
    Servers,
    Logs,
    Crashes,
    Screenshots,
    Settings,
}

/// Every section, in menu order.
pub open spec fn all_sections() -> Seq<Section> {
    seq![
        Section::Home,
        Section::Discover,
        Section::Instances,
        Section::Mods,
        Section::Worlds,
        Section::Servers,
        Section::Logs,
        Section::Crashes,
        Section::Screenshots,
        Section::Settings,
    ]
}

pub open spec fn section_label(s: Section) -> Seq<char> {
    match s {
        Section::Home => "HOME"@,
        Section::Discover => "DISCOVER"@,
        Section::Instances => "INSTANCES"@,
        Section::Mods => "MODS"@,
        Section::Worlds => "WORLDS"@,
        Section::Servers => "SERVERS"@,
        Section::Logs => "LOGS"@,
        Section::Crashes => "CRASHES"@,
        Section::Screenshots => "SCREENSHOTS"@,
        Section::Settings => "SETTINGS"@,
    }
}

fn sections_vec() -> (r: Vec<Section>)
    ensures
        r@ == all_sections(),
{
    let v = vec![
        Section::Home,
        Section::Discover,
        Section::Instances,
        Section::Mods,
        Section::Worlds,
        Section::Servers,
        Section::Logs,
        Section::Crashes,
        Section::Screenshots,
        Section::Settings,
    ];
    assert(v@ =~= all_sections());
    v
}

impl Section {
    pub fn label(&self) -> (r: &'static str)
        ensures
            r@ == section_label(*self),
    {
        match self {
            Section::Home => "HOME",
            Section::Discover => "DISCOVER",
            Section::Instances => "INSTANCES",
            Section::Mods => "MODS",
            Section::Worlds => "WORLDS",
            Section::Servers => "SERVERS",
            Section::Logs => "LOGS",
            Section::Crashes => "CRASHES",
            Section::Screenshots => "SCREENSHOTS",
            Section::Settings => "SETTINGS",
        }
    }

    /// Every section, in menu order.
    pub fn all() -> (r: Vec<Section>)
        ensures
            r@ == all_sections(),
    {
        sections_vec()
    }
}

/// Sub-tabs of the Discover section.
#[derive(Debug, Clone, Copy, PartialEq, Eq, Structural)]
pub enum DiscoverTab {
    Mods,
    Modpacks,
    Shaders,
    ResourcePacks,
}

impl Default for DiscoverTab {
    fn default() -> (r: Self)
        ensures
            r == DiscoverTab::Mods,
    {
        DiscoverTab::Mods
    }
}

impl DiscoverTab {
    pub fn label(&self) -> (r: &'static str)
        ensures
            r@ == (match *self {
                DiscoverTab::Mods => "Mods"@,
                DiscoverTab::Modpacks => "Modpacks"@,
                DiscoverTab::Shaders => "Shaders"@,
                DiscoverTab::ResourcePacks => "Resource Packs"@,
            }),
    {
        match self {
            DiscoverTab::Mods => "Mods",
            DiscoverTab::Modpacks => "Modpacks",
            DiscoverTab::Shaders => "Shaders",
            DiscoverTab::ResourcePacks => "Resource Packs",
        }
    }

    /// Every tab, in display order.
    pub fn all() -> (r: Vec<DiscoverTab>)
        ensures
            r@ == seq![
                DiscoverTab::Mods,
                DiscoverTab::Modpacks,
                DiscoverTab::Shaders,
                DiscoverTab::ResourcePacks,
            ],
    {
        let v = vec![
            DiscoverTab::Mods,
            DiscoverTab::Modpacks,
            DiscoverTab::Shaders,
            DiscoverTab::ResourcePacks,
        ];
        assert(v@ =~= seq![
            DiscoverTab::Mods,
            DiscoverTab::Modpacks,
            DiscoverTab::Shaders,
            DiscoverTab::ResourcePacks,
        ]);
        v
    }
}

/// The states the game process can be in.
pub enum RuntimeState {
    Stopped,
    Starting,
    Running,
    Stopping,
    Error(String),
}

impl Clone for RuntimeState {
    fn clone(&self) -> (r: Self)
        ensures
            r == *self,
    {
        match self {
            RuntimeState::Stopped => RuntimeState::Stopped,
            RuntimeState::Starting => RuntimeState::Starting,
            RuntimeState::Running => RuntimeState::Running,
            RuntimeState::Stopping => RuntimeState::Stopping,
            RuntimeState::Error(m) => RuntimeState::Error(m.clone()),
        }
    }
}

impl RuntimeState {
    /// Whether the game is running.
    pub fn is_running(&self) -> (r: bool)
        ensures
            r == (*self is Running),
    {
        match self {
            RuntimeState::Running => true,
            _ => false,
        }
    }

    pub fn label(&self) -> (r: &'static str)
        ensures
            r@ == (match *self {
                RuntimeState::Stopped => "STOPPED"@,
                RuntimeState::Starting => "STARTING"@,
                RuntimeState::Running => "RUNNING"@,
                RuntimeState::Stopping => "STOPPING"@,
                RuntimeState::Error(_) => "ERROR"@,
            }),
    {
        match self {
            RuntimeState::Stopped => "STOPPED",
            RuntimeState::Starting => "STARTING",
            RuntimeState::Running => "RUNNING",
            RuntimeState::Stopping => "STOPPING",
            RuntimeState::Error(_) => "ERROR",
        }
    }

    pub fn status_indicator(&self) -> (r: &'static str)
        ensures
            r@ == (match *self {
                RuntimeState::Stopped => " "@,
                RuntimeState::Starting => "↻"@,
                RuntimeState::Running => "●"@,
                RuntimeState::Stopping => "↺"@,
                RuntimeState::Error(_) => "✗"@,
            }),
    {
        match self {
            RuntimeState::Stopped => " ",
            RuntimeState::Starting => "↻",
            RuntimeState::Running => "●",
            RuntimeState::Stopping => "↺",
            RuntimeState::Error(_) => "✗",
        }
    }
}

/// Severity of a log entry.
#[derive(Debug, Clone, Copy, PartialEq, Eq, Structural)]
pub enum LogLevel {
    Info,
    Warn,
    Error,
    Debug,
}

impl LogLevel {
    pub fn label(&self) -> (r: &'static str)
        ensures
            r@ == (match *self {
                LogLevel::Info => "INFO"@,
                LogLevel::Warn => "WARN"@,
                LogLevel::Error => "ERROR"@,
                LogLevel::Debug => "DEBUG"@,
            }),
    {
        match self {
            LogLevel::Info => "INFO",
            LogLevel::Warn => "WARN",
            LogLevel::Error => "ERROR",
            LogLevel::Debug => "DEBUG",
        }
    }
}

/// One line of the log viewer.
pub struct LogEntry {
    pub timestamp: String,
    pub level: LogLevel,
    pub source: String,
    pub message: String,
}

impl Clone for LogEntry {
    fn clone(&self) -> (r: Self)
        ensures
            r == *self,
    {
        LogEntry {
            timestamp: self.timestamp.clone(),
            level: self.level,
            source: self.source.clone(),
            message: self.message.clone(),
        }
    }
}

/// Which settings editor, if any, is open.
#[derive(Debug, Clone, Copy, PartialEq, Eq, Structural)]
pub enum SettingsEditMode {
    Inactive,
    MemorySelector,
    JavaSelector,
    ThemeSelector,
    LanguageInfo,
    OptimizationSelector,
    CustomJvmEditor,
}

impl SettingsEditMode {
    /// Whether an editor that needs its own key handling is open.
    pub fn should_use_edit_keys(&self) -> (r: bool)
        ensures
            r == (*self != SettingsEditMode::Inactive),
    {
        !matches!(self, SettingsEditMode::Inactive)
    }
}

/// A selectable memory preset.
#[derive(Debug, Clone, Copy, PartialEq, Eq, Structural)]
pub struct MemoryPreset {
    pub mb: u32,
}

/// Memory presets offered by the memory selector, in MiB.
pub const MEMORY_PRESETS: [u32; 6] = [2048, 4096, 6144, 8192, 12288, 16384];

/// Which Discover pane owns the up/down keys.
#[derive(Debug, Clone, Copy, PartialEq, Eq, Structural)]
pub enum DiscoverPane {
    Categories,
    Results,
}

impl Default for DiscoverPane {
    fn default() -> (r: Self)
        ensures
            r == DiscoverPane::Categories,
    {
        DiscoverPane::Categories
    }
}

/// A project waiting in the per-project version chooser.
pub struct PendingInstall {
    pub project_id: String,
    pub title: String,
    pub content_type: String,
    pub instance_id: Option<String>,
    /// (version id, display label), newest first, releases first.
    pub rows: Vec<(String, String)>,
}

/// A piece of content installed in an instance.
pub struct InstalledContent {
    pub name: String,
    /// `MOD`, `RESOURCE PACK` or `SHADER`.
    pub kind: &'static str,
    pub path: String,
    pub size_bytes: u64,
}

/// Installed content with a newer version available.
pub struct UpdatableMod {
    pub project_id: String,
    pub title: String,
    pub installed_version: String,
    pub latest_version: String,
    pub latest_version_id: String,
    pub content_type: String,
    pub filename: String,
}

/// Summary of a JVM crash report (`hs_err_pid*.log`).
pub struct CrashReport {
    pub path: String,
    pub timestamp: String,
    pub exception: String,
    pub thread: String,
    pub jvm_version: String,
    pub summary: String,
}

/// A screenshot on disk.
pub struct ScreenshotEntry {
    pub path: String,
    pub mtime: String,
    pub size_bytes: u64,
}

/// A hint derived from a crash log.
pub enum DiagnosticHint {
    MissingMod(String),
    ModVersionMismatch { mod_id: String, expected: String, got: String },
    NoClassDefFound(String),
    InsufficientMemory,
    JavaVersion(String),
    Unknown,
}

pub open spec fn hint_label(h: DiagnosticHint) -> Seq<char> {
    match h {
        DiagnosticHint::MissingMod(c) => "Missing mod — class "@ + c@,
        DiagnosticHint::ModVersionMismatch { mod_id, .. } => "Mod version mismatch on "@ + mod_id@,
        DiagnosticHint::NoClassDefFound(c) => "NoClassDefFoundError on "@ + c@,
        DiagnosticHint::InsufficientMemory => "Out of memory — raise RAM in Settings"@,
        DiagnosticHint::JavaVersion(v) => "Java version mismatch — got "@ + v@,
        DiagnosticHint::Unknown => "Unknown crash"@,
    }
}

/// `a + b` as a new `String`.
pub fn concat2(a: &str, b: &str) -> (r: String)
    ensures
        r@ == a@ + b@,
{
    let mut r = a.to_owned();
    r.append(b);
    r
}

impl DiagnosticHint {
    pub fn label(&self) -> (r: String)
        ensures
            r@ == hint_label(*self),
    {
        match self {
            DiagnosticHint::MissingMod(cls) => concat2("Missing mod — class ", cls.as_str()),
            DiagnosticHint::ModVersionMismatch { mod_id, .. } => concat2(
                "Mod version mismatch on ",
                mod_id.as_str(),
            ),
            DiagnosticHint::NoClassDefFound(cls) => concat2(
                "NoClassDefFoundError on ",
                cls.as_str(),
            ),
            DiagnosticHint::InsufficientMemory => "Out of memory — raise RAM in Settings".to_owned(),
            DiagnosticHint::JavaVersion(v) => concat2("Java version mismatch — got ", v.as_str()),
            DiagnosticHint::Unknown => "Unknown crash".to_owned(),
        }
    }
}

/// Loader choices offered when creating an instance: (id, description).
pub const CREATE_LOADERS: [(&'static str, &'static str); 4] = [
    ("vanilla", "Official Minecraft — no mods"),
    ("fabric", "Lightweight, fast mod loading"),
    ("quilt", "Fabric-compatible, community-driven"),
    ("forge", "Classic modding (not supported here yet)"),
];

/// A confirmation dialog.
pub struct ConfirmDialog {
    pub title: String,
    pub message: String,
    pub confirm_text: String,
    pub cancel_text: String,
}

// ===================== versions =====================

/// The numeric components of a release tag: trimmed, leading `v`s removed,
/// split at dots, each component parsed as a `u64` (0 when it does not
/// parse).
pub open spec fn version_parts(s: Seq<char>) -> Seq<nat> {
    split_on(strip_leading(trim(s), 'v'), '.').map_values(
        |p: Seq<char>|
            match parse_unsigned(p, u64::MAX as int) {
                Some(n) => n,
                None => 0,
            },
    )
}

/// Component `i`, with missing components read as 0.
pub open spec fn part_at(v: Seq<nat>, i: int) -> nat {
    if 0 <= i < v.len() {
        v[i]
    } else {
        0
    }
}

pub open spec fn max_len(a: Seq<nat>, b: Seq<nat>) -> nat {
    if a.len() < b.len() {
        b.len()
    } else {
        a.len()
    }
}

/// Whether `l` is greater than `c` comparing components from index `i` on.
pub open spec fn newer_from(l: Seq<nat>, c: Seq<nat>, i: int) -> bool
    decreases max_len(l, c) - i,
{
    if i < 0 || i >= max_len(l, c) {
        false
    } else if part_at(l, i) != part_at(c, i) {
        part_at(l, i) > part_at(c, i)
    } else {
        newer_from(l, c, i + 1)
    }
}

/// Whether release tag `latest` is newer than `current`.
pub open spec fn is_newer(latest: Seq<char>, current: Seq<char>) -> bool {
    newer_from(version_parts(latest), version_parts(current), 0)
}

fn parse_version_parts(s: &str) -> (r: Vec<u64>)
    ensures
        r@.map_values(|x: u64| x as nat) == version_parts(s@),
{
    let cs = chars_of(s);
    let t = trim_chars(&cs);
    let u = strip_leading_chars(&t, 'v');
    let pieces = split_chars(&u, '.');
    let ghost ps = views(pieces@);
    let mut out: Vec<u64> = Vec::new();
    let mut i: usize = 0;
    while i < pieces.len()
        invariant
            i <= pieces@.len(),
            ps == views(pieces@),
            ps == split_on(strip_leading(trim(s@), 'v'), '.'),
            out@.len() == i,
            forall|k: int|
                0 <= k < i ==> out@[k] as nat == (match parse_unsigned(ps[k], u64::MAX as int) {
                    Some(n) => n,
                    None => 0,
                }),
        decreases pieces@.len() - i,
    {
        assert(ps[i as int] == pieces@[i as int]@);
        let v: u64 = match parse_u64(&pieces[i]) {
            Some(n) => n,
            None => 0,
        };
        out.push(v);
        i = i + 1;
    }
    assert(out@.map_values(|x: u64| x as nat) =~= version_parts(s@));
    out
}

// ===================== the log =====================

/// The last `n` items of `s` (all of them when there are fewer).
pub open spec fn keep_last<T>(s: Seq<T>, n: nat) -> Seq<T> {
    if s.len() <= n {
        s
    } else {
        s.subrange(s.len() - n, s.len() as int)
    }
}

/// `after` is the log `before` with one more entry from the launcher
/// itself, at `level` with `message`, keeping the last
/// [`LOG_CAPACITY`] entries.
pub open spec fn logged_after(before: Seq<LogEntry>, after: Seq<LogEntry>, level: LogLevel, message: Seq<char>) -> bool {
    &&& after.len() > 0
    &&& after == keep_last(before.push(after.last()), LOG_CAPACITY as nat)
    &&& after.last().level == level
    &&& after.last().source@ == "ARGUS"@
    &&& after.last().message@ == message
}

/// The most log entries that are kept.
pub const LOG_CAPACITY: usize = 1000;

/// The most commands that the history keeps.
pub const HISTORY_CAPACITY: usize = 100;

/// A time of day as `HH:MM:SS`: two-digit hour, minute and second,
/// separated by colons.
pub open spec fn hms_shape(s: Seq<char>) -> bool {
    &&& s.len() == 8
    &&& s[2] == ':' && s[5] == ':'
    &&& forall|i: int| 0 <= i < 8 && i != 2 && i != 5 ==> '0' <= #[trigger] s[i] && s[i] <= '9'
}

/// The local wall-clock time as `HH:MM:SS` (`chrono::Local::now()`
/// formatted with `%H:%M:%S`, each field zero-padded to two digits). Which
/// time comes back is left open.
#[verifier::external_body]
fn clock_hms() -> (r: String)
    ensures
        hms_shape(r@),
{
    chrono::Local::now().format("%H:%M:%S").to_string()
}

// ===================== command history =====================

/// The history entry shown at browsing position `p` (1 = newest), or the
/// empty string at position 0.
pub open spec fn history_entry(h: Seq<String>, p: nat) -> Seq<char> {
    if p == 0 || p > h.len() {
        Seq::empty()
    } else {
        h[h.len() - p]@
    }
}

/// The browsing position after stepping back once through `len` entries.
pub open spec fn back_position(len: nat, p: nat) -> nat {
    if p + 1 < len {
        p + 1
    } else {
        len
    }
}

/// The application state of the terminal UI.
pub struct AppState {
    pub current_section: Section,
    pub runtime_state: RuntimeState,
    pub selected_instance: Option<InstanceConfig>,
    pub instances: Vec<InstanceConfig>,
    pub java_installations: Vec<JavaInstallation>,
    pub versions: Vec<String>,
    pub fabric_versions: Vec<String>,
    pub forge_versions: Vec<String>,
    pub modrinth_results: Vec<Project>,
    pub discover_search: String,
    pub search_mode: bool,
    pub help_overlay: bool,
    pub loader_selector_open: bool,
    pub loader_selector_index: usize,
    /// Saved accounts as (id, username).
    pub accounts: Vec<(String, String)>,
    pub active_account_name: Option<String>,
    pub account_selector_open: bool,
    pub account_selector_index: usize,
    pub account_input_mode: bool,
    pub account_input: String,
    pub version_selector_open: bool,
    pub version_selector_index: usize,
    pub pending_version_loader: Option<String>,
    pub version_filter: String,
    pub pending_install: Option<PendingInstall>,
    pub install_version_index: usize,
    /// Last focused target id per section.
    pub focus_memory: Vec<(Section, String)>,
    pub tick: u64,
    pub log_scroll: usize,
    pub discover_hidden_count: usize,
    pub discover_pane: DiscoverPane,
    pub discover_game_version: String,
    /// Per-result "already installed" flags, parallel to `modrinth_results`.
    pub result_installed: Vec<bool>,
    pub show_installed_discover: bool,
    pub discover_scoped_instance: Option<String>,
    pub installed_content: Vec<InstalledContent>,
    pub updatable_mods: Vec<UpdatableMod>,
    pub crash_reports: Vec<CrashReport>,
    pub crash_diagnostics: Vec<DiagnosticHint>,
    pub worlds: Vec<String>,
    pub screenshots: Vec<ScreenshotEntry>,
    pub servers: Vec<ServerEntry>,
    pub server_add_open: bool,
    pub server_add_name: String,
    pub server_add_address: String,
    pub server_pinging: bool,
    /// The latest ping result of each server, by server id.
    pub server_pings: Vec<(String, crate::servers::PingInfo)>,
    pub live_log_view: bool,
    pub live_log_path: Option<String>,
    pub logs: VecDeque<LogEntry>,
    pub command_history: VecDeque<String>,
    pub command_input: String,
    /// Browsing position in the history (0 = the line being typed).
    pub history_position: usize,
    pub command_prompt_active: bool,
    pub should_quit: bool,
    pub status_message: Option<String>,
    pub error_message: Option<String>,
    pub confirm_dialog: Option<ConfirmDialog>,
    pub instances_dir: Option<String>,
    pub discover_tab: DiscoverTab,
    pub selected_account: Option<String>,
    pub loading: bool,
    pub loading_message: Option<String>,
    pub settings_edit_mode: SettingsEditMode,
    pub settings_edit_index: usize,
    pub theme_options: Vec<String>,
    pub current_version: &'static str,
    pub optimization_profile: OptimizationProfile,
    pub custom_jvm_input: String,
    /// The outcome of the latest release check.
    pub update_check: crate::argus::update::UpdateCheckResult,
}

/// The indices below `n` whose result is shown: all when `show` is set,
/// otherwise those not flagged as installed.
pub open spec fn visible_indices(n: nat, show: bool, installed: Seq<bool>) -> Seq<usize>
    decreases n,
{
    if n == 0 {
        Seq::empty()
    } else {
        let p = visible_indices((n - 1) as nat, show, installed);
        let i = (n - 1) as int;
        if show || !(0 <= i < installed.len() && installed[i]) {
            p.push(i as usize)
        } else {
            p
        }
    }
}

impl AppState {
    /// Indices into `modrinth_results` that the result list shows.
    pub fn visible_project_indices(&self) -> (r: Vec<usize>)
        ensures
            r@ == visible_indices(
                self.modrinth_results@.len(),
                self.show_installed_discover,
                self.result_installed@,
            ),
    {
        let mut out: Vec<usize> = Vec::new();
        let n = self.modrinth_results.len();
        let mut i: usize = 0;
        while i < n
            invariant
                n == self.modrinth_results@.len(),
                i <= n,
                out@ == visible_indices(
                    i as nat,
                    self.show_installed_discover,
                    self.result_installed@,
                ),
            decreases n - i,
        {
            let installed = i < self.result_installed.len() && self.result_installed[i];
            if self.show_installed_discover || !installed {
                out.push(i);
            }
            i = i + 1;
        }
        out
    }

    /// The state at start-up.
    pub fn new() -> (r: Self)
        ensures
            r.current_section == Section::Home,
            r.runtime_state == RuntimeState::Stopped,
            r.selected_instance is None,
            r.instances@.len() == 0,
            r.logs@.len() == 0,
            r.command_history@.len() == 0,
            r.command_input@.len() == 0,
            r.history_position == 0,
            r.error_message is None,
            r.loading == false,
            r.discover_tab == DiscoverTab::Mods,
            r.discover_pane == DiscoverPane::Categories,
            r.settings_edit_mode == SettingsEditMode::Inactive,
            r.optimization_profile == OptimizationProfile::Mid,
            r.current_version@ == LAUNCHER_VERSION@,
            r.should_quit == false,
            r.update_check is UpToDate,
            r.theme_options@.map_values(|s: String| s@) == seq![
                "dark"@,
                "light"@,
                "system"@,
                "dracula"@,
                "tokyo-night"@,
            ],
    {
        let theme_options = vec![
            "dark".to_owned(),
            "light".to_owned(),
            "system".to_owned(),
            "dracula".to_owned(),
            "tokyo-night".to_owned(),
        ];
        assert(theme_options@.map_values(|s: String| s@) =~= seq![
            "dark"@,
            "light"@,
            "system"@,
            "dracula"@,
            "tokyo-night"@,
        ]);
        AppState {
            current_section: Section::Home,
            runtime_state: RuntimeState::Stopped,
            selected_instance: None,
            instances: Vec::new(),
            java_installations: Vec::new(),
            versions: Vec::new(),
            fabric_versions: Vec::new(),
            forge_versions: Vec::new(),
            modrinth_results: Vec::new(),
            discover_search: String::new(),
            search_mode: false,
            help_overlay: false,
            loader_selector_open: false,
            loader_selector_index: 0,
            accounts: Vec::new(),
            active_account_name: None,
            account_selector_open: false,
            account_selector_index: 0,
            account_input_mode: false,
            account_input: String::new(),
            version_selector_open: false,
            version_selector_index: 0,
            pending_version_loader: None,
            version_filter: String::new(),
            pending_install: None,
            install_version_index: 0,
            focus_memory: Vec::new(),
            tick: 0,
            log_scroll: 0,
            discover_hidden_count: 0,
            discover_pane: DiscoverPane::Categories,
            discover_game_version: String::new(),
            result_installed: Vec::new(),
            show_installed_discover: false,
            discover_scoped_instance: None,
            installed_content: Vec::new(),
            updatable_mods: Vec::new(),
            crash_reports: Vec::new(),
            crash_diagnostics: Vec::new(),
            worlds: Vec::new(),
            screenshots: Vec::new(),
            servers: Vec::new(),
            server_add_open: false,
            server_add_name: String::new(),
            server_add_address: String::new(),
            server_pinging: false,
            server_pings: Vec::new(),
            live_log_view: false,
            live_log_path: None,
            logs: VecDeque::new(),
            command_history: VecDeque::new(),
            command_input: String::new(),
            history_position: 0,
            command_prompt_active: false,
            should_quit: false,
            status_message: None,
            error_message: None,
            confirm_dialog: None,
            instances_dir: None,
            discover_tab: DiscoverTab::Mods,
            selected_account: None,
            loading: false,
            loading_message: None,
            settings_edit_mode: SettingsEditMode::Inactive,
            settings_edit_index: 0,
            theme_options,
            current_version: LAUNCHER_VERSION,
            optimization_profile: OptimizationProfile::Mid,
            custom_jvm_input: String::new(),
            update_check: crate::argus::update::UpdateCheckResult::UpToDate,
        }
    }

    /// Whether release tag `latest` is newer than `current`, comparing
    /// numeric components; a leading `v`, missing components and components
    /// that do not parse (read as 0) are tolerated.
    pub fn is_newer_version(latest: &str, current: &str) -> (r: bool)
        ensures
            r == is_newer(latest@, current@),
    {
        let l = parse_version_parts(latest);
        let c = parse_version_parts(current);
        let ghost lv = l@.map_values(|x: u64| x as nat);
        let ghost cv = c@.map_values(|x: u64| x as nat);
        let n = if l.len() < c.len() {
            c.len()
        } else {
            l.len()
        };
        let mut i: usize = 0;
        while i < n
            invariant
                lv == version_parts(latest@),
                cv == version_parts(current@),
                lv == l@.map_values(|x: u64| x as nat),
                cv == c@.map_values(|x: u64| x as nat),
                lv.len() == l@.len(),
                cv.len() == c@.len(),
                n == max_len(lv, cv),
                i <= n,
                newer_from(lv, cv, i as int) == newer_from(lv, cv, 0),
            decreases n - i,
        {
            let a: u64 = if i < l.len() {
                l[i]
            } else {
                0
            };
            let b: u64 = if i < c.len() {
                c[i]
            } else {
                0
            };
            assert(i < l@.len() ==> lv[i as int] == l@[i as int] as nat);
            assert(i < c@.len() ==> cv[i as int] == c@[i as int] as nat);
            assert(a as nat == part_at(lv, i as int));
            assert(b as nat == part_at(cv, i as int));
            if a != b {
                return a > b;
            }
            i = i + 1;
        }
        false
    }

    /// Appends a log entry stamped with the current time, keeping only the
    /// newest 1000 entries.
    pub fn log(&mut self, level: LogLevel, source: &str, message: &str)
        ensures
            final(self).logs@.len() == if old(self).logs@.len() + 1 <= LOG_CAPACITY {
                old(self).logs@.len() + 1
            } else {
                LOG_CAPACITY as nat
            },
            final(self).logs@ == keep_last(
                old(self).logs@.push(final(self).logs@.last()),
                LOG_CAPACITY as nat,
            ),
            final(self).logs@.last().level == level,
            final(self).logs@.last().source@ == source@,
            final(self).logs@.last().message@ == message@,
            final(self).logs@.last().timestamp@.len() == 8,
            hms_shape(final(self).logs@.last().timestamp@),
            *final(self) == (AppState { logs: final(self).logs, ..*old(self) }),
            final(self).command_history == old(self).command_history,
            final(self).history_position == old(self).history_position,
            final(self).command_input == old(self).command_input,
            final(self).error_message == old(self).error_message,
            final(self).current_section == old(self).current_section,
    {
        let entry = LogEntry {
            timestamp: clock_hms(),
            level,
            source: source.to_owned(),
            message: message.to_owned(),
        };
        let ghost e = entry;
        let ghost full = self.logs@.push(entry);
        self.logs.push_back(entry);
        while self.logs.len() > LOG_CAPACITY
            invariant
                full == old(self).logs@.push(e),
                self.logs@.len() >= 1,
                self.logs@.len() <= full.len(),
                self.logs@.len() == full.len() || self.logs@.len() >= LOG_CAPACITY,
                self.logs@ == full.subrange(full.len() - self.logs@.len(), full.len() as int),
                *self == (AppState { logs: self.logs, ..*old(self) }),
            decreases self.logs@.len(),
        {
            let ghost before = self.logs@;
            self.logs.pop_front();
            proof {
                let k = full.len() - self.logs@.len();
                assert(self.logs@ == before.subrange(1, before.len() as int));
                assert(before == full.subrange(k - 1, full.len() as int));
                assert(self.logs@.len() == full.len() - k);
                assert forall|j: int| 0 <= j < self.logs@.len() implies self.logs@[j] == full[k + j] by {
                    assert(self.logs@[j] == before[j + 1]);
                    assert(before[j + 1] == full[k - 1 + j + 1]);
                }
                assert(self.logs@ =~= full.subrange(k, full.len() as int));
            }
        }
        proof {
            assert(self.logs@.last() == full[full.len() - 1]);
            assert(self.logs@.last() == e);
            if full.len() <= LOG_CAPACITY {
                assert(self.logs@ =~= full);
            }
        }
    }

    /// Records a command in the history (trimmed; blank ones are skipped),
    /// keeping the newest 100, and resets the prompt.
    pub fn add_to_history(&mut self, command: &str)
        ensures
            trim(command@).len() == 0 ==> final(self).command_history == old(
                self,
            ).command_history,
            trim(command@).len() > 0 ==> final(self).command_history@.len() == if old(
                self,
            ).command_history@.len() + 1 <= HISTORY_CAPACITY {
                old(self).command_history@.len() + 1
            } else {
                HISTORY_CAPACITY as nat
            },
            trim(command@).len() > 0 ==> final(self).command_history@.last()@ == trim(command@),
            trim(command@).len() > 0 ==> final(self).command_history@ == keep_last(
                old(self).command_history@.push(final(self).command_history@.last()),
                HISTORY_CAPACITY as nat,
            ),
            final(self).history_position == 0,
            final(self).command_input@.len() == 0,
            final(self).logs == old(self).logs,
            *final(self) == (AppState {
                command_history: final(self).command_history,
                history_position: 0,
                command_input: final(self).command_input,
                ..*old(self)
            }),
    {
        let cs = chars_of(command);
        let t = trim_chars(&cs);
        if t.len() > 0 {
            let entry = string_from_chars(&t);
            let ghost e = entry;
            let ghost full = self.command_history@.push(entry);
            self.command_history.push_back(entry);
            while self.command_history.len() > HISTORY_CAPACITY
                invariant
                    full == old(self).command_history@.push(e),
                    e@ == trim(command@),
                    self.command_history@.len() >= 1,
                    self.command_history@.len() <= full.len(),
                    self.command_history@.len() == full.len() || self.command_history@.len()
                        >= HISTORY_CAPACITY,
                    self.command_history@ == full.subrange(
                        full.len() - self.command_history@.len(),
                        full.len() as int,
                    ),
                    *self == (AppState { command_history: self.command_history, ..*old(self) }),
                decreases self.command_history@.len(),
            {
                self.command_history.pop_front();
                proof {
                    assert(self.command_history@ =~= full.subrange(
                        full.len() - self.command_history@.len(),
                        full.len() as int,
                    ));
                }
            }
            proof {
                assert(self.command_history@.last() == full[full.len() - 1]);
                assert(self.command_history@.last() == e);
                if full.len() <= HISTORY_CAPACITY {
                    assert(self.command_history@ =~= full);
                }
            }
        }
        self.history_position = 0;
        self.command_input = String::new();
    }

    /// Steps one command back in the history and shows it in the prompt.
    #[verifier::rlimit(40)]
    pub fn previous_command(&mut self)
        ensures
            final(self).command_history == old(self).command_history,
            old(self).command_history@.len() == 0 ==> final(self).history_position == old(
                self,
            ).history_position && final(self).command_input == old(self).command_input,
            old(self).command_history@.len() > 0 ==> final(self).history_position
                == back_position(
                old(self).command_history@.len(),
                old(self).history_position as nat,
            ) && final(self).command_input@ == history_entry(
                old(self).command_history@,
                final(self).history_position as nat,
            ),
            *final(self) == (AppState {
                history_position: final(self).history_position,
                command_input: final(self).command_input,
                ..*old(self)
            }),
    {
        let n = self.command_history.len();
        if n == 0 {
            return;
        }
        self.history_position = if self.history_position < n - 1 {
            self.history_position + 1
        } else {
            n
        };
        let p = self.history_position;
        self.command_input = self.command_history[n - p].clone();
    }

    /// Steps one command forward in the history; at the newest end the
    /// prompt is cleared.
    #[verifier::rlimit(40)]
    pub fn next_command(&mut self)
        ensures
            final(self).command_history == old(self).command_history,
            old(self).history_position == 0 ==> final(self).history_position == 0
                && final(self).command_input == old(self).command_input,
            old(self).history_position > 0 ==> final(self).history_position == old(
                self,
            ).history_position - 1,
            old(self).history_position == 1 ==> final(self).command_input@.len() == 0,
            old(self).history_position > 1 && old(self).history_position - 1 <= old(
                self,
            ).command_history@.len() ==> final(self).command_input@ == history_entry(
                old(self).command_history@,
                final(self).history_position as nat,
            ),
            old(self).history_position - 1 > old(self).command_history@.len()
                ==> final(self).command_input == old(self).command_input,
            *final(self) == (AppState {
                history_position: final(self).history_position,
                command_input: final(self).command_input,
                ..*old(self)
            }),
    {
        if self.history_position > 0 {
            self.history_position = self.history_position - 1;
            let p = self.history_position;
            let n = self.command_history.len();
            if p == 0 {
                self.command_input = String::new();
            } else if p <= n {
                self.command_input = self.command_history[n - p].clone();
            }
        }
    }

    pub fn set_status(&mut self, message: String)
        ensures
            final(self).status_message == Some(message),
            *final(self) == (AppState { status_message: Some(message), ..*old(self) }),
    {
        self.status_message = Some(message);
    }

    /// Records an error and logs it.
    pub fn set_error(&mut self, message: String)
        ensures
            final(self).error_message == Some(message),
            final(self).logs@.last().level == LogLevel::Error,
            final(self).logs@.last().source@ == "ARGUS"@,
            final(self).logs@.last().message@ == "Error: "@ + message@,
            final(self).logs@.len() >= 1,
            logged_after(old(self).logs@, final(self).logs@, LogLevel::Error, "Error: "@ + message@),
            *final(self) == (AppState { logs: final(self).logs, error_message: Some(message), ..*old(self) }),
    {
        let text = concat2("Error: ", message.as_str());
        self.error_message = Some(message);
        self.log(LogLevel::Error, "ARGUS", text.as_str());
    }

    pub fn clear_error(&mut self)
        ensures
            final(self).error_message is None,
    {
        self.error_message = None;
    }

    pub fn set_loading(&mut self, loading: bool, message: Option<String>)
        ensures
            final(self).loading == loading,
            final(self).loading_message == message,
            *final(self) == (AppState { loading, loading_message: message, ..*old(self) }),
    {
        self.loading = loading;
        self.loading_message = message;
    }

    /// Switches to a section and logs the move.
    pub fn navigate_to(&mut self, section: Section)
        ensures
            final(self).current_section == section,
            final(self).logs@.last().level == LogLevel::Info,
            final(self).logs@.last().source@ == "ARGUS"@,
            final(self).logs@.last().message@ == "Navigated to "@ + section_label(section),
            final(self).logs@.len() >= 1,
    {
        self.current_section = section;
        let text = concat2("Navigated to ", section.label());
        self.log(LogLevel::Info, "ARGUS", text.as_str());
    }

    /// Selects the instance at `index`; out-of-range indices change nothing.
    pub fn select_instance(&mut self, index: usize)
        ensures
            index < old(self).instances@.len() ==> (final(self).selected_instance matches Some(
                i,
            ) && same_instance(i, old(self).instances@[index as int])),
            index >= old(self).instances@.len() ==> final(self).selected_instance == old(
                self,
            ).selected_instance,
            final(self).instances == old(self).instances,
    {
        if index < self.instances.len() {
            self.selected_instance = Some(self.instances[index].clone());
        }
    }

    /// Every section, in menu order.
    pub fn sections() -> (r: Vec<Section>)
        ensures
            r@ == all_sections(),
    {
        sections_vec()
    }
}

impl Default for AppState {
    fn default() -> (r: Self)
        ensures
            r.current_section == Section::Home,
            r.history_position == 0,
            r.logs@.len() == 0,
            r.command_history@.len() == 0,
    {
        AppState::new()
    }
}

// ===================== laws =====================

/// No release tag is newer than itself.
pub proof fn law_newer_irreflexive(a: Seq<char>)
    ensures
        !is_newer(a, a),
{
    lemma_newer_from_irreflexive(version_parts(a), 0);
}

proof fn lemma_newer_from_irreflexive(v: Seq<nat>, i: int)
    ensures
        !newer_from(v, v, i),
    decreases max_len(v, v) - i,
{
    if 0 <= i < max_len(v, v) {
        lemma_newer_from_irreflexive(v, i + 1);
    }
}

proof fn lemma_newer_from_asymmetric(l: Seq<nat>, c: Seq<nat>, i: int)
    ensures
        newer_from(l, c, i) ==> !newer_from(c, l, i),
    decreases max_len(l, c) - i,
{
    assert(max_len(l, c) == max_len(c, l));
    if 0 <= i < max_len(l, c) && part_at(l, i) == part_at(c, i) {
        lemma_newer_from_asymmetric(l, c, i + 1);
    }
}

proof fn lemma_newer_from_transitive(a: Seq<nat>, b: Seq<nat>, c: Seq<nat>, i: int)
    requires
        i >= 0,
    ensures
        newer_from(a, b, i) && newer_from(b, c, i) ==> newer_from(a, c, i),
    decreases max_len(a, b) - i,
{
    if newer_from(a, b, i) && newer_from(b, c, i) {
        if part_at(a, i) == part_at(b, i) && part_at(b, i) == part_at(c, i) {
            lemma_newer_from_transitive(a, b, c, i + 1);
        }
    }
}

/// "Newer" between release tags is a strict order: never both ways, and
/// newer than newer is newer.
pub proof fn law_newer_strict_order(a: Seq<char>, b: Seq<char>, c: Seq<char>)
    ensures
        is_newer(a, b) ==> !is_newer(b, a),
        is_newer(a, b) && is_newer(b, c) ==> is_newer(a, c),
{
    lemma_newer_from_asymmetric(version_parts(a), version_parts(b), 0);
    lemma_newer_from_transitive(version_parts(a), version_parts(b), version_parts(c), 0);
}

/// Stepping back through the history and then forward again returns to
/// the same position and shows the same entry, whenever there was an
/// older entry to step back to.
pub proof fn law_history_back_forward(h: Seq<String>, p: nat)
    requires
        1 <= p,
        p + 1 <= h.len(),
    ensures
        back_position(h.len(), p) - 1 == p,
        history_entry(h, (back_position(h.len(), p) - 1) as nat) == history_entry(h, p),
{
}

/// The log never holds more than 1000 entries once an entry is added.
pub proof fn law_log_bounded<T>(s: Seq<T>)
    ensures
        keep_last(s, LOG_CAPACITY as nat).len() <= LOG_CAPACITY,
{
}

} // verus!
