//! The launcher back end behind the terminal UI: instance and account
//! management over the configuration, Maven library layout, launch command
//! assembly, mod file heuristics and version selection.
//!
//! Downloads, process control and persistence are the application's part;
//! the functions here compute what it does.

use vstd::prelude::*;
use crate::text::{
    chars_of, contains, extend_chars, extend_str, replace_char, split_chars, split_on,
    starts_with, string_from_chars, views,
};
use crate::paths::{join, join_path};
use crate::auth::{Account, valid_username};
use crate::argus::state::{AppState, DiscoverTab};
use crate::config::{Config, Settings, WindowConfig, mirrors, to_config_instance, from_config_instance};
use crate::instances::{InstanceConfig, InstanceManager, same_instance};
use crate::keyed::{Keyed, has_key, without_key, first_with_key};
use crate::minecraft::arguments::{ArgumentBuilder, rules_allow};
use crate::minecraft::manifest::Rule;
use crate::minecraft::optimization::OptimizationProfile;
use crate::text::{decimal, digit_char, digits_value, lowercase, to_lowercase, trim, words};

verus! {

// ===================== Maven library layout =====================

/// A character that Windows forbids in file names.
pub open spec fn is_illegal_in_name(c: char) -> bool {
    c == ':' || c == '\\' || c == '/' || c == '*' || c == '?' || c == '"' || c == '<' || c == '>'
        || c == '|'
}

/// `name` with every character that Windows forbids in file names replaced
/// by `_`.
pub open spec fn safe_file_name(name: Seq<char>) -> Seq<char> {
    name.map_values(|c: char| if is_illegal_in_name(c) { '_' } else { c })
}

/// The directory path of a Maven group: its dots become slashes.
pub open spec fn group_dir(g: Seq<char>) -> Seq<char> {
    replace_char(g, '.', '/')
}

/// `group/artifact/version/` of a coordinate split at colons.
pub open spec fn maven_dir(p: Seq<Seq<char>>) -> Seq<char> {
    group_dir(p[0]) + "/"@ + p[1] + "/"@ + p[2] + "/"@
}

/// Where `resolve_library_path` puts a library, relative to the library
/// directory.
pub open spec fn library_rel_path(name: Seq<char>) -> Seq<char> {
    let p = split_on(name, ':');
    if p.len() >= 4 {
        maven_dir(p) + p[1] + "-"@ + p[2] + "-"@ + p[3] + ".jar"@
    } else if p.len() >= 3 {
        maven_dir(p) + p[1] + "-"@ + p[2] + ".jar"@
    } else {
        safe_file_name(name) + ".jar"@
    }
}

/// `key` without a leading `natives-`.
pub open spec fn natives_suffix(key: Seq<char>) -> Seq<char> {
    if starts_with(key, "natives-"@) {
        key.subrange(8, key.len() as int)
    } else {
        key
    }
}

/// Where `resolve_classifier_path` puts a native library for `key`,
/// relative to the library directory.
pub open spec fn classifier_rel_path(name: Seq<char>, key: Seq<char>) -> Seq<char> {
    let p = split_on(name, ':');
    if p.len() >= 4 {
        maven_dir(p) + p[1] + "-"@ + p[2] + "-"@ + p[3] + "-"@ + natives_suffix(key) + ".jar"@
    } else {
        safe_file_name(name) + "-"@ + key + ".jar"@
    }
}

/// The repository path of a `group:artifact:version` jar.
pub open spec fn maven_jar(name: Seq<char>) -> Option<Seq<char>> {
    let p = split_on(name, ':');
    if p.len() < 3 {
        None
    } else {
        Some(maven_dir(p) + p[1] + "-"@ + p[2] + ".jar"@)
    }
}

/// The classifier keys under which a library ships natives for `os`/`arch`.
pub open spec fn natives_key_list(os: Seq<char>, arch: Seq<char>) -> Seq<Seq<char>> {
    let first = seq!["natives-"@ + os + "-"@ + arch];
    if os == "windows"@ {
        first.push("natives-windows"@)
    } else if os == "osx"@ {
        first.push("natives-osx"@)
    } else if os == "linux"@ {
        first.push("natives-linux"@)
    } else {
        first
    }
}

/// Items joined with a separator.
pub open spec fn joined_with(items: Seq<Seq<char>>, sep: Seq<char>) -> Seq<char>
    decreases items.len(),
{
    if items.len() == 0 {
        Seq::empty()
    } else if items.len() == 1 {
        items[0]
    } else {
        joined_with(items.drop_last(), sep) + sep + items.last()
    }
}

pub open spec fn string_views(v: Seq<String>) -> Seq<Seq<char>> {
    v.map_values(|s: String| s@)
}

pub(crate) fn group_dir_chars(g: &Vec<char>) -> (r: Vec<char>)
    ensures
        r@ == group_dir(g@),
{
    let mut out: Vec<char> = Vec::new();
    let mut i: usize = 0;
    while i < g.len()
        invariant
            i <= g@.len(),
            out@ == replace_char(g@.subrange(0, i as int), '.', '/'),
        decreases g@.len() - i,
    {
        let c = g[i];
        out.push(if c == '.' { '/' } else { c });
        proof {
            assert(replace_char(g@.subrange(0, i + 1), '.', '/') =~= replace_char(
                g@.subrange(0, i as int),
                '.',
                '/',
            ).push(if c == '.' { '/' } else { c }));
        }
        i = i + 1;
    }
    assert(g@.subrange(0, g@.len() as int) =~= g@);
    out
}

/// `group/artifact/version/` followed by `artifact-version`, for a split
/// coordinate with at least three parts.
fn maven_stem(p: &Vec<Vec<char>>) -> (r: Vec<char>)
    requires
        p@.len() >= 3,
    ensures
        r@ == maven_dir(views(p@)) + views(p@)[1] + "-"@ + views(p@)[2],
{
    proof {
        reveal_strlit("/");
        reveal_strlit("-");
    }
    let ghost v = views(p@);
    assert(v[0] == p@[0]@ && v[1] == p@[1]@ && v[2] == p@[2]@);
    let mut out = group_dir_chars(&p[0]);
    out.push('/');
    extend_chars(&mut out, &p[1]);
    out.push('/');
    extend_chars(&mut out, &p[2]);
    out.push('/');
    extend_chars(&mut out, &p[1]);
    out.push('-');
    extend_chars(&mut out, &p[2]);
    assert(out@ =~= maven_dir(v) + v[1] + "-"@ + v[2]);
    out
}

fn safe_file_name_chars(name: &[char]) -> (r: Vec<char>)
    ensures
        r@ == safe_file_name(name@),
{
    let mut out: Vec<char> = Vec::new();
    let mut i: usize = 0;
    while i < name.len()
        invariant
            i <= name@.len(),
            out@ == safe_file_name(name@.subrange(0, i as int)),
        decreases name@.len() - i,
    {
        let c = name[i];
        let bad = c == ':' || c == '\\' || c == '/' || c == '*' || c == '?' || c == '"' || c == '<'
            || c == '>' || c == '|';
        out.push(if bad { '_' } else { c });
        proof {
            assert(safe_file_name(name@.subrange(0, i + 1)) =~= safe_file_name(
                name@.subrange(0, i as int),
            ).push(if bad { '_' } else { c }));
        }
        i = i + 1;
    }
    assert(name@.subrange(0, name@.len() as int) =~= name@);
    out
}

/// Record of one completed install, kept per instance so Discover can tell
/// which projects an instance already has.
pub struct InstallRecord {
    pub project_id: String,
    pub version_id: Option<String>,
    pub filename: String,
    pub content_type: String,
}

/// A Modrinth search as Discover asks for it.
pub struct DiscoverSearch {
    pub query: String,
    pub content_type: String,
    pub game_version: String,
    pub loader: String,
}

/// Launcher back end: the configuration and the instance registry it
/// manages, and the directory instances live in.
pub struct BackendBridge {
    pub config: crate::config::Config,
    pub manager: crate::instances::InstanceManager,
    pub instances_dir: String,
}

/// What separates the entries of a path list: `;` on Windows, `:`
/// elsewhere.
pub open spec fn path_list_separator(windows: bool) -> Seq<char> {
    if windows {
        ";"@
    } else {
        ":"@
    }
}

/// `b` with its settings replaced by `settings`.
pub open spec fn with_settings(b: BackendBridge, settings: Settings) -> BackendBridge {
    BackendBridge { config: Config { settings, ..b.config }, ..b }
}

impl BackendBridge {
    /// Replaces the characters that Windows forbids in file names by `_`.
    pub fn sanitize_filename(name: &str) -> (r: String)
        ensures
            r@ == safe_file_name(name@),
    {
        let cs = chars_of(name);
        string_from_chars(&safe_file_name_chars(&cs))
    }

    /// Where a library given by its Maven coordinate lives under `libs_dir`
    /// (`group/artifact/version/artifact-version[-classifier].jar`); a name
    /// that is no coordinate becomes `name.jar` with illegal characters
    /// replaced.
    pub fn resolve_library_path(name: &str, libs_dir: &str) -> (r: String)
        ensures
            r@ == join(libs_dir@, library_rel_path(name@)),
    {
        proof {
            reveal_strlit("-");
            reveal_strlit(".jar");
        }
        let cs = chars_of(name);
        let parts = split_chars(&cs, ':');
        let ghost pv = views(parts@);
        let rel: Vec<char> = if parts.len() >= 4 {
            let mut r = maven_stem(&parts);
            r.push('-');
            extend_chars(&mut r, &parts[3]);
            extend_str(&mut r, ".jar");
            assert(pv[3] == parts@[3]@);
            assert(r@ =~= library_rel_path(name@));
            r
        } else if parts.len() >= 3 {
            let mut r = maven_stem(&parts);
            extend_str(&mut r, ".jar");
            assert(r@ =~= library_rel_path(name@));
            r
        } else {
            let mut r = safe_file_name_chars(&cs);
            extend_str(&mut r, ".jar");
            r
        };
        let rel_s = string_from_chars(&rel);
        join_path(libs_dir, rel_s.as_str())
    }

    /// Where the native library of coordinate `name` for classifier `key`
    /// lives under `libs_dir`.
    pub fn resolve_classifier_path(name: &str, libs_dir: &str, key: &str) -> (r: String)
        ensures
            r@ == join(libs_dir@, classifier_rel_path(name@, key@)),
    {
        proof {
            reveal_strlit("-");
            reveal_strlit(".jar");
            reveal_strlit("natives-");
        }
        let cs = chars_of(name);
        let parts = split_chars(&cs, ':');
        let ghost pv = views(parts@);
        let kc = chars_of(key);
        let rel: Vec<char> = if parts.len() >= 4 {
            let mut r = maven_stem(&parts);
            r.push('-');
            extend_chars(&mut r, &parts[3]);
            r.push('-');
            let pre = chars_of("natives-");
            if crate::text::starts_with_chars(&kc, &pre) {
                let rest = crate::text::sub_chars(&kc, 8, kc.len());
                extend_chars(&mut r, &rest);
            } else {
                extend_chars(&mut r, &kc);
            }
            extend_str(&mut r, ".jar");
            assert(pv[3] == parts@[3]@);
            assert(r@ =~= classifier_rel_path(name@, key@));
            r
        } else {
            let mut r = safe_file_name_chars(&cs);
            r.push('-');
            extend_chars(&mut r, &kc);
            extend_str(&mut r, ".jar");
            assert(r@ =~= classifier_rel_path(name@, key@));
            r
        };
        let rel_s = string_from_chars(&rel);
        join_path(libs_dir, rel_s.as_str())
    }

    /// The repository-relative jar path of a `group:artifact:version`
    /// coordinate; `None` for fewer than three parts.
    pub fn maven_jar_path(name: &str) -> (r: Option<String>)
        ensures
            match maven_jar(name@) {
                None => r is None,
                Some(p) => r matches Some(s) && s@ == p,
            },
    {
        proof {
            reveal_strlit(".jar");
        }
        let cs = chars_of(name);
        let parts = split_chars(&cs, ':');
        if parts.len() < 3 {
            return None;
        }
        let mut r = maven_stem(&parts);
        extend_str(&mut r, ".jar");
        assert(r@ =~= maven_jar(name@).unwrap());
        Some(string_from_chars(&r))
    }

    /// The classifier keys that may hold natives for `os` and `arch`.
    pub fn natives_keys(os: &str, arch: &str) -> (r: Vec<String>)
        ensures
            string_views(r@) == natives_key_list(os@, arch@),
    {
        proof {
            reveal_strlit("natives-");
            reveal_strlit("-");
            reveal_strlit("windows");
            reveal_strlit("osx");
            reveal_strlit("linux");
            reveal_strlit("natives-windows");
            reveal_strlit("natives-osx");
            reveal_strlit("natives-linux");
        }
        let mut first: Vec<char> = Vec::new();
        extend_str(&mut first, "natives-");
        extend_str(&mut first, os);
        first.push('-');
        extend_str(&mut first, arch);
        let mut keys: Vec<String> = Vec::new();
        let f = string_from_chars(&first);
        let ghost fv = f@;
        assert(fv == "natives-"@ + os@ + "-"@ + arch@);
        keys.push(f);
        assert(string_views(keys@) =~= seq![fv]);
        if crate::text::str_eq(os, "windows") {
            let k = "natives-windows".to_owned();
            keys.push(k);
            assert(string_views(keys@) =~= seq![fv].push("natives-windows"@));
        } else if crate::text::str_eq(os, "osx") {
            let k = "natives-osx".to_owned();
            keys.push(k);
            assert(string_views(keys@) =~= seq![fv].push("natives-osx"@));
        } else if crate::text::str_eq(os, "linux") {
            let k = "natives-linux".to_owned();
            keys.push(k);
            assert(string_views(keys@) =~= seq![fv].push("natives-linux"@));
        }
        keys
    }

    /// The client jar followed by the libraries, joined with the classpath
    /// separator of the platform: `;` on Windows, `:` elsewhere.
    pub fn build_classpath(client_jar: &str, libs: &[String], windows: bool) -> (r: String)
        ensures
            r@ == joined_with(seq![client_jar@] + string_views(libs@), path_list_separator(windows)),
    {
        proof {
            reveal_strlit(":");
            reveal_strlit(";");
        }
        let sep: char = if windows {
            ';'
        } else {
            ':'
        };
        assert(seq![sep] =~= path_list_separator(windows));
        let mut out = chars_of(client_jar);
        let mut i: usize = 0;
        while i < libs.len()
            invariant
                i <= libs@.len(),
                seq![sep] == path_list_separator(windows),
                out@ == joined_with(
                    seq![client_jar@] + string_views(libs@.subrange(0, i as int)),
                    path_list_separator(windows),
                ),
            decreases libs@.len() - i,
        {
            let ghost items = seq![client_jar@] + string_views(libs@.subrange(0, i as int));
            let ghost next = seq![client_jar@] + string_views(libs@.subrange(0, i + 1));
            proof {
                assert(next.drop_last() =~= items);
                assert(next.last() == libs@[i as int]@);
                assert(next.len() == i + 2);
            }
            out.push(sep);
            extend_str(&mut out, libs[i].as_str());
            proof {
                assert(joined_with(next, seq![sep]) == joined_with(items, seq![sep]) + seq![sep] + libs@[i as int]@);
                assert(out@ =~= joined_with(next, seq![sep]));
            }
            i = i + 1;
        }
        assert(libs@.subrange(0, libs@.len() as int) =~= libs@);
        string_from_chars(&out)
    }

    /// Where an asset index lives, relative to the assets directory.
    pub fn asset_index_relative_path(id: &str) -> (r: String)
        ensures
            r@ == "indexes/"@ + id@ + ".json"@,
    {
        let mut out: Vec<char> = Vec::new();
        extend_str(&mut out, "indexes/");
        extend_str(&mut out, id);
        extend_str(&mut out, ".json");
        string_from_chars(&out)
    }
}


// ===================== instance ids =====================

/// The display base of an instance id for a loader.
pub open spec fn id_base(loader: Seq<char>) -> Seq<char> {
    let l = lowercase(loader);
    if l == "vanilla"@ {
        "Vanilla"@
    } else if l == "fabric"@ {
        "Fabric"@
    } else if l == "quilt"@ {
        "Quilt"@
    } else if l == "forge"@ {
        "Forge"@
    } else {
        "Instance"@
    }
}

/// The `n`-th numbered id for a base: `Base-n`.
pub open spec fn numbered_id(base: Seq<char>, n: nat) -> Seq<char> {
    base + "-"@ + decimal(n)
}

pub open spec fn taken(existing: Seq<String>, id: Seq<char>) -> bool {
    exists|i: int| 0 <= i < existing.len() && #[trigger] existing[i]@ == id
}

/// A fresh instance id: the loader's base when free, otherwise `Base-n`
/// for the least free `n` from 2 on.
pub open spec fn fresh_id_ok(loader: Seq<char>, existing: Seq<String>, r: Seq<char>) -> bool {
    let b = id_base(loader);
    if !taken(existing, b) {
        r == b
    } else {
        exists|n: nat|
            #![trigger numbered_id(b, n)]
            n >= 2 && r == numbered_id(b, n) && !taken(existing, numbered_id(b, n)) && forall|m: nat|
                2 <= m < n ==> #[trigger] taken(existing, numbered_id(b, m))
    }
}

proof fn lemma_numbered_injective(b: Seq<char>, m: nat, n: nat)
    requires
        numbered_id(b, m) == numbered_id(b, n),
    ensures
        m == n,
{
    reveal_strlit("-");
    let k = b.len() + 1;
    assert(numbered_id(b, m).subrange(k as int, numbered_id(b, m).len() as int) =~= decimal(m));
    assert(numbered_id(b, n).subrange(k as int, numbered_id(b, n).len() as int) =~= decimal(n));
    crate::text::lemma_decimal_value(m);
    crate::text::lemma_decimal_value(n);
}

/// The numbered ids from 2 up to (not including) `n`.
pub open spec fn numbered_below(b: Seq<char>, n: nat) -> Set<Seq<char>>
    decreases n,
{
    if n <= 2 {
        Set::empty()
    } else {
        numbered_below(b, (n - 1) as nat).insert(numbered_id(b, (n - 1) as nat))
    }
}

proof fn lemma_numbered_below(b: Seq<char>, n: nat)
    ensures
        numbered_below(b, n).finite(),
        n >= 2 ==> numbered_below(b, n).len() == n - 2,
        forall|x: Seq<char>|
            numbered_below(b, n).contains(x) ==> exists|m: nat|
                #![trigger numbered_id(b, m)]
                2 <= m < n && x == numbered_id(b, m),
    decreases n,
{
    if n > 2 {
        lemma_numbered_below(b, (n - 1) as nat);
        let x = numbered_id(b, (n - 1) as nat);
        if numbered_below(b, (n - 1) as nat).contains(x) {
            let m = choose|m: nat| #![trigger numbered_id(b, m)] 2 <= m < n - 1 && x == numbered_id(b, m);
            lemma_numbered_injective(b, m, (n - 1) as nat);
        }
    }
}

fn is_taken(existing: &[String], id: &Vec<char>) -> (r: bool)
    ensures
        r == taken(existing@, id@),
{
    let mut i: usize = 0;
    while i < existing.len()
        invariant
            i <= existing@.len(),
            forall|k: int| 0 <= k < i ==> #[trigger] existing@[k]@ != id@,
        decreases existing@.len() - i,
    {
        let e = chars_of(existing[i].as_str());
        if crate::text::chars_eq(&e, id) {
            return true;
        }
        i = i + 1;
    }
    false
}

/// Every instance view of the persisted instances, in order.
pub open spec fn hydrated(m: Seq<InstanceConfig>, c: Seq<crate::config::InstanceConfig>) -> bool {
    m.len() == c.len() && forall|i: int| 0 <= i < c.len() ==> mirrors(#[trigger] m[i], c[i])
}

/// The content type that Modrinth searches use for a Discover tab.
pub open spec fn tab_content_type(tab: DiscoverTab) -> Seq<char> {
    match tab {
        DiscoverTab::Mods => "mod"@,
        DiscoverTab::Modpacks => "modpack"@,
        DiscoverTab::Shaders => "shader"@,
        DiscoverTab::ResourcePacks => "resourcepack"@,
    }
}

/// The loaders that instances can be created with.
pub open spec fn supported_loader(l: Seq<char>) -> bool {
    l == "vanilla"@ || l == "fabric"@ || l == "quilt"@
}

/// The loader version a new instance starts with.
pub open spec fn initial_loader_version(l: Seq<char>) -> Option<Seq<char>> {
    if l == "fabric"@ {
        Some("0.19.3"@)
    } else if l == "quilt"@ {
        Some("0.28.5"@)
    } else {
        None
    }
}

/// The message that refuses an unsupported loader.
pub open spec fn unsupported_loader_message(loader: Seq<char>) -> Seq<char> {
    "Loader '"@ + loader + "' is not supported yet (available: vanilla, fabric, quilt)"@
}

/// The name a new instance gets: `Instance n` with `n` one more than the
/// instances the UI knows.
pub open spec fn new_instance_name(count: nat) -> Seq<char> {
    "Instance "@ + decimal(count + 1)
}

fn string_list(items: &[&str]) -> (r: Vec<String>)
    ensures
        string_views(r@) == items@.map_values(|s: &str| s@),
{
    let mut out: Vec<String> = Vec::new();
    let mut i: usize = 0;
    while i < items.len()
        invariant
            i <= items@.len(),
            string_views(out@) == items@.subrange(0, i as int).map_values(|s: &str| s@),
        decreases items@.len() - i,
    {
        let ghost before = out@;
        let x = items[i].to_owned();
        assert(x@ == items@[i as int]@);
        out.push(x);
        proof {
            assert(string_views(out@) =~= string_views(before).push(items@[i as int]@));
            assert(items@.subrange(0, i + 1).map_values(|s: &str| s@) =~= items@.subrange(0, i as int).map_values(|s: &str| s@).push(items@[i as int]@));
        }
        i = i + 1;
    }
    assert(items@.subrange(0, items@.len() as int) =~= items@);
    out
}

impl BackendBridge {
    /// The back end over a loaded configuration: the instance registry
    /// holds the configured instances, in order.
    pub fn new(config: Config, instances_dir: String) -> (r: Self)
        ensures
            r.config == config,
            r.instances_dir == instances_dir,
            hydrated(r.manager.instances@, config.instances@),
    {
        let mut manager = InstanceManager::new();
        let mut i: usize = 0;
        while i < config.instances.len()
            invariant
                i <= config.instances@.len(),
                manager.instances@.len() == i,
                forall|k: int| 0 <= k < i ==> mirrors(#[trigger] manager.instances@[k], config.instances@[k]),
            decreases config.instances@.len() - i,
        {
            manager.add(from_config_instance(&config.instances[i]));
            i = i + 1;
        }
        BackendBridge { config, manager, instances_dir }
    }

    /// A copy of every instance.
    pub fn list_instances(&self) -> (r: Vec<InstanceConfig>)
        ensures
            r@.len() == self.manager.instances@.len(),
            forall|i: int| 0 <= i < r@.len() ==> same_instance(#[trigger] r@[i], self.manager.instances@[i]),
    {
        let mut out: Vec<InstanceConfig> = Vec::new();
        let mut i: usize = 0;
        while i < self.manager.instances.len()
            invariant
                i <= self.manager.instances@.len(),
                out@.len() == i,
                forall|k: int| 0 <= k < i ==> same_instance(#[trigger] out@[k], self.manager.instances@[k]),
            decreases self.manager.instances@.len() - i,
        {
            out.push(self.manager.instances[i].clone());
            i = i + 1;
        }
        out
    }

    /// The directory instances live in.
    pub fn instances_dir(&self) -> (r: String)
        ensures
            r == self.instances_dir,
    {
        self.instances_dir.clone()
    }

    /// The first instance, for a quick launch.
    pub fn get_default_instance(&self) -> (r: Option<InstanceConfig>)
        ensures
            self.manager.instances@.len() == 0 ==> r is None,
            self.manager.instances@.len() > 0 ==> (r matches Some(i) && same_instance(i, self.manager.instances@[0])),
    {
        if self.manager.instances.len() == 0 {
            None
        } else {
            Some(self.manager.instances[0].clone())
        }
    }

    pub fn get_settings(&self) -> (r: Settings)
        ensures
            r.default_memory == self.config.settings.default_memory,
            r.java_path == self.config.settings.java_path,
            r.theme == self.config.settings.theme,
            r.language == self.config.settings.language,
            r.optimization_profile == self.config.settings.optimization_profile,
            r.custom_jvm_args@ == self.config.settings.custom_jvm_args@,
    {
        self.config.settings.clone()
    }

    /// Replaces the settings.
    pub fn save_settings(&mut self, settings: Settings)
        ensures
            final(self).config.settings == settings,
            final(self).config.instances == old(self).config.instances,
            final(self).config.accounts == old(self).config.accounts,
            final(self).manager == old(self).manager,
    {
        self.config.settings = settings;
    }

    pub fn get_window_config(&self) -> (r: WindowConfig)
        ensures
            r == self.config.window,
    {
        self.config.window
    }

    pub fn set_default_memory(&mut self, mb: u32)
        ensures
            final(self).config.settings.default_memory == mb,
            final(self).config.settings.theme == old(self).config.settings.theme,
            final(self).config.instances == old(self).config.instances,
            *final(self) == with_settings(*old(self), Settings { default_memory: mb, ..old(self).config.settings }),
    {
        self.config.settings.default_memory = mb;
    }

    /// Sets the Java path (`None` = detect automatically).
    pub fn set_java_path(&mut self, path: Option<String>)
        ensures
            final(self).config.settings.java_path == path,
            final(self).config.settings.default_memory == old(self).config.settings.default_memory,
            final(self).config.instances == old(self).config.instances,
            *final(self) == with_settings(*old(self), Settings { java_path: path, ..old(self).config.settings }),
    {
        self.config.settings.java_path = path;
    }

    pub fn set_theme(&mut self, theme: &str)
        ensures
            final(self).config.settings.theme@ == theme@,
            final(self).config.settings.default_memory == old(self).config.settings.default_memory,
            final(self).config.instances == old(self).config.instances,
            *final(self) == with_settings(*old(self), Settings { theme: final(self).config.settings.theme, ..old(self).config.settings }),
    {
        self.config.settings.theme = theme.to_owned();
    }

    pub fn set_optimization_profile(&mut self, profile: OptimizationProfile)
        ensures
            final(self).config.settings.optimization_profile == profile,
            final(self).config.settings.default_memory == old(self).config.settings.default_memory,
            final(self).config.instances == old(self).config.instances,
            final(self).config.settings == (Settings { optimization_profile: profile, ..old(self).config.settings }),
            final(self).config == (Config { settings: final(self).config.settings, ..old(self).config }),
            final(self).manager == old(self).manager,
            *final(self) == with_settings(*old(self), Settings { optimization_profile: profile, ..old(self).config.settings }),
    {
        self.config.settings.optimization_profile = profile;
    }

    /// Sets the custom JVM arguments from a whitespace-separated line.
    pub fn set_custom_jvm_args(&mut self, args: &str)
        ensures
            string_views(final(self).config.settings.custom_jvm_args@) == words(args@),
            final(self).config.settings.default_memory == old(self).config.settings.default_memory,
            final(self).config.instances == old(self).config.instances,
            final(self).config.settings == (Settings {
                custom_jvm_args: final(self).config.settings.custom_jvm_args,
                ..old(self).config.settings
            }),
            final(self).config == (Config { settings: final(self).config.settings, ..old(self).config }),
            final(self).manager == old(self).manager,
    {
        self.config.settings.custom_jvm_args = crate::text::split_words(args);
        assert(string_views(self.config.settings.custom_jvm_args@) =~= self.config.settings.custom_jvm_args@.map_values(|w: String| w@));
    }

    /// Registers an instance and adds it to the configuration (where an
    /// instance with its id already exists, the configuration keeps that
    /// one).
    pub fn create_instance(&mut self, config: InstanceConfig) -> (r: InstanceConfig)
        ensures
            r == config,
            same_instance(r, config),
            final(self).manager.instances@.len() == old(self).manager.instances@.len() + 1,
            same_instance(final(self).manager.instances@.last(), config),
            forall|i: int| 0 <= i < old(self).manager.instances@.len() ==> #[trigger] final(self).manager.instances@[i] == old(self).manager.instances@[i],
            has_key(old(self).config.instances@, config.id@) ==> final(self).config.instances@ == old(self).config.instances@,
            !has_key(old(self).config.instances@, config.id@) ==> final(self).config.instances@.len() == old(self).config.instances@.len() + 1
                && mirrors(config, final(self).config.instances@.last())
                && final(self).config.instances@.drop_last() == old(self).config.instances@,
            final(self).config.accounts == old(self).config.accounts,
            final(self).config.default_account == old(self).config.default_account,
            final(self).config.settings == old(self).config.settings,
    {
        let persisted = to_config_instance(&config);
        let copy = config.clone();
        self.manager.add(copy);
        let _ = self.config.add_instance(persisted);
        proof {
            if !has_key(old(self).config.instances@, config.id@) {
                assert(self.config.instances@.drop_last() =~= old(self).config.instances@);
            }
        }
        config
    }

    /// Removes an instance from the registry and the configuration; true
    /// when the registry had it. Deleting its directory is the caller's part.
    pub fn delete_instance(&mut self, id: &str) -> (r: bool)
        ensures
            r == has_key(old(self).manager.instances@, id@),
            final(self).manager.instances@ == without_key(old(self).manager.instances@, id@),
            final(self).config.instances@ == without_key(old(self).config.instances@, id@),
            final(self).config.accounts == old(self).config.accounts,
    {
        let removed = self.manager.remove(id);
        let _ = self.config.remove_instance(id);
        removed
    }

    /// Replaces an instance in the registry and the configuration; true
    /// when the registry had it.
    pub fn update_instance(&mut self, config: InstanceConfig) -> (r: bool)
        ensures
            r == has_key(old(self).manager.instances@, config.id@),
            r ==> final(self).manager.instances@ == old(self).manager.instances@.update(
                first_with_key(old(self).manager.instances@, config.id@),
                config,
            ),
            !r ==> final(self).manager.instances@ == old(self).manager.instances@,
            has_key(old(self).config.instances@, config.id@) ==> (final(self).config.instances@.len() == old(self).config.instances@.len()
                && mirrors(config, final(self).config.instances@[first_with_key(old(self).config.instances@, config.id@)])),
            !has_key(old(self).config.instances@, config.id@) ==> final(self).config.instances@ == old(self).config.instances@,
            final(self).config.accounts == old(self).config.accounts,
    {
        let persisted = to_config_instance(&config);
        let ghost pv = persisted;
        let updated = self.manager.update(config);
        proof {
            crate::keyed::lemma_first_with_key(old(self).config.instances@, pv.id@);
        }
        let _ = self.config.update_instance(persisted);
        updated
    }

    /// After a launch installed a Java runtime at `java`, an instance
    /// without a Java setting of its own keeps that runtime; true when the
    /// registry had the instance and it was updated.
    pub fn remember_provisioned_java(&mut self, instance: InstanceConfig, java: String) -> (r: bool)
        ensures
            instance.java is Some ==> !r && *final(self) == *old(self),
            instance.java is None ==> {
                let updated = InstanceConfig { java: Some(java), ..instance };
                &&& r == has_key(old(self).manager.instances@, instance.id@)
                &&& r ==> final(self).manager.instances@ == old(self).manager.instances@.update(
                    first_with_key(old(self).manager.instances@, instance.id@),
                    updated,
                )
                &&& !r ==> final(self).manager.instances@ == old(self).manager.instances@
                &&& has_key(old(self).config.instances@, instance.id@) ==> (final(self).config.instances@.len()
                    == old(self).config.instances@.len() && mirrors(
                    updated,
                    final(self).config.instances@[first_with_key(old(self).config.instances@, instance.id@)],
                ))
                &&& !has_key(old(self).config.instances@, instance.id@) ==> final(self).config.instances@
                    == old(self).config.instances@
                &&& final(self).config.accounts == old(self).config.accounts
            },
    {
        if instance.java.is_some() {
            return false;
        }
        let updated = InstanceConfig { java: Some(java), ..instance };
        self.update_instance(updated)
    }

    /// A friendly id for a new instance: `Vanilla`, `Fabric`, ... when free,
    /// otherwise the base with the least free number from 2 (`Fabric-2`).
    pub fn generate_instance_id(loader: &str, existing_ids: &[String]) -> (r: String)
        requires
            existing_ids@.len() < u64::MAX - 3,
        ensures
            fresh_id_ok(loader@, existing_ids@, r@),
    {
        proof {
            reveal_strlit("vanilla");
            reveal_strlit("fabric");
            reveal_strlit("quilt");
            reveal_strlit("forge");
            reveal_strlit("-");
        }
        let l = to_lowercase(loader);
        let base: &str = if crate::text::str_eq(l.as_str(), "vanilla") {
            "Vanilla"
        } else if crate::text::str_eq(l.as_str(), "fabric") {
            "Fabric"
        } else if crate::text::str_eq(l.as_str(), "quilt") {
            "Quilt"
        } else if crate::text::str_eq(l.as_str(), "forge") {
            "Forge"
        } else {
            "Instance"
        };
        assert(base@ == id_base(loader@));
        let bc = chars_of(base);
        if !is_taken(existing_ids, &bc) {
            return base.to_owned();
        }
        let ghost b = base@;
        let mut n: u64 = 2;
        let ghost ids_set = existing_ids@.map_values(|s: String| s@).to_set();
        proof {
            existing_ids@.map_values(|s: String| s@).lemma_cardinality_of_set();
            lemma_numbered_below(b, 2);
        }
        loop
            invariant
                2 <= n,
                n - 2 <= existing_ids@.len(),
                existing_ids@.len() < u64::MAX - 3,
                b == base@,
                bc@ == b,
                taken(existing_ids@, b),
                ids_set == existing_ids@.map_values(|s: String| s@).to_set(),
                ids_set.len() <= existing_ids@.len(),
                ids_set.finite(),
                numbered_below(b, n as nat).subset_of(ids_set),
                forall|m: nat| 2 <= m < n ==> #[trigger] taken(existing_ids@, numbered_id(b, m)),
                b == id_base(loader@),
            decreases existing_ids@.len() + 2 - n,
        {
            proof {
                reveal_strlit("-");
            }
            let mut cand = chars_of(base);
            cand.push('-');
            let digits = crate::text::decimal_chars(n);
            extend_chars(&mut cand, &digits);
            assert(cand@ =~= numbered_id(b, n as nat));
            if !is_taken(existing_ids, &cand) {
                let r = string_from_chars(&cand);
                assert(fresh_id_ok(loader@, existing_ids@, r@)) by {
                    assert(!taken(existing_ids@, numbered_id(b, n as nat)));
                }
                return r;
            }
            proof {
                let x = numbered_id(b, n as nat);
                let i = choose|i: int| 0 <= i < existing_ids@.len() && #[trigger] existing_ids@[i]@ == x;
                assert(existing_ids@.map_values(|s: String| s@)[i] == x);
                assert(ids_set.contains(x));
                lemma_numbered_below(b, (n + 1) as nat);
                assert(numbered_below(b, (n + 1) as nat) == numbered_below(b, n as nat).insert(x));
                vstd::set_lib::lemma_len_subset(numbered_below(b, (n + 1) as nat), ids_set);
            }
            n = n + 1;
        }
    }
}

/// The ids of a list of instances.
pub open spec fn instance_ids(s: Seq<InstanceConfig>) -> Seq<String> {
    s.map_values(|i: InstanceConfig| i.id)
}

fn ids_of(instances: &[InstanceConfig]) -> (r: Vec<String>)
    ensures
        r@ == instance_ids(instances@),
{
    let mut out: Vec<String> = Vec::new();
    let mut i: usize = 0;
    while i < instances.len()
        invariant
            i <= instances@.len(),
            out@ == instance_ids(instances@.subrange(0, i as int)),
        decreases instances@.len() - i,
    {
        out.push(instances[i].id.clone());
        proof {
            assert(out@ =~= instance_ids(instances@.subrange(0, i + 1)));
        }
        i = i + 1;
    }
    assert(instances@.subrange(0, instances@.len() as int) =~= instances@);
    out
}

/// The game version a quick-created instance gets: 1.21.1 when the UI
/// knows it, else the first known version, else 1.21.1.
pub open spec fn quick_game_version(versions: Seq<String>) -> Seq<char> {
    if exists|i: int| 0 <= i < versions.len() && #[trigger] versions[i]@ == "1.21.1"@ {
        "1.21.1"@
    } else if versions.len() > 0 {
        versions[0]@
    } else {
        "1.21.1"@
    }
}

/// The Java a new instance uses: the first detected installation's path,
/// unless that path is empty or nothing was detected.
pub open spec fn first_java(installs: Seq<crate::minecraft::java::JavaInstallation>) -> Option<Seq<char>> {
    if installs.len() > 0 && installs[0].path@.len() > 0 {
        Some(installs[0].path@)
    } else {
        None
    }
}

pub open spec fn opt_view(o: Option<String>) -> Option<Seq<char>> {
    match o {
        Some(s) => Some(s@),
        None => None,
    }
}

impl BackendBridge {
    /// Creates a vanilla instance with default settings: named after the
    /// number of instances the UI knows, on 1.21.1 (or the first known
    /// version), with the first detected Java and the selected account.
    /// Creating its directories is the caller's part.
    pub fn quick_create_instance(&mut self, state: &AppState) -> (r: InstanceConfig)
        requires
            state.instances@.len() < u64::MAX - 3,
        ensures
            r.name@ == new_instance_name(state.instances@.len()),
            fresh_id_ok("vanilla"@, instance_ids(state.instances@), r.id@),
            r.game_version@ == quick_game_version(state.versions@),
            r.loader@ == "vanilla"@,
            r.loader_version is None,
            r.memory == old(self).config.settings.default_memory,
            opt_view(r.java) == first_java(state.java_installations@),
            r.game_dir is None,
            r.resolution_width == Some(1280u32),
            r.resolution_height == Some(720u32),
            r.account_uuid == state.selected_account,
            r.minecraft_dir is None,
            r.custom_jvm_args@.len() == 0,
            final(self).manager.instances@.len() == old(self).manager.instances@.len() + 1,
            same_instance(final(self).manager.instances@.last(), r),
            forall|i: int| 0 <= i < old(self).manager.instances@.len() ==> #[trigger] final(self).manager.instances@[i] == old(self).manager.instances@[i],
            has_key(old(self).config.instances@, r.id@) ==> final(self).config.instances@ == old(self).config.instances@,
            !has_key(old(self).config.instances@, r.id@) ==> final(self).config.instances@.len() == old(self).config.instances@.len() + 1
                && mirrors(r, final(self).config.instances@.last())
                && final(self).config.instances@.drop_last() == old(self).config.instances@,
            final(self).config.settings == old(self).config.settings,
            final(self).config.accounts == old(self).config.accounts,
            final(self).config.default_account == old(self).config.default_account,
    {
        proof {
            reveal_strlit("Instance ");
            reveal_strlit("1.21.1");
            reveal_strlit("vanilla");
        }
        let mut name = chars_of("Instance ");
        let count = (state.instances.len() as u64) + 1;
        extend_chars(&mut name, &crate::text::decimal_chars(count));
        let mut has_default = false;
        let mut i: usize = 0;
        while i < state.versions.len()
            invariant
                i <= state.versions@.len(),
                has_default == exists|k: int| 0 <= k < i && #[trigger] state.versions@[k]@ == "1.21.1"@,
            decreases state.versions@.len() - i,
        {
            if crate::text::str_eq(state.versions[i].as_str(), "1.21.1") {
                has_default = true;
            }
            i = i + 1;
        }
        let game_version = if has_default {
            "1.21.1".to_owned()
        } else if state.versions.len() > 0 {
            state.versions[0].clone()
        } else {
            "1.21.1".to_owned()
        };
        let java: Option<String> = if state.java_installations.len() > 0 && state.java_installations[0].path.unicode_len() > 0 {
            Some(state.java_installations[0].path.clone())
        } else {
            None
        };
        let ids = ids_of(state.instances.as_slice());
        let config = InstanceConfig {
            id: Self::generate_instance_id("vanilla", ids.as_slice()),
            name: string_from_chars(&name),
            game_version,
            loader: "vanilla".to_owned(),
            loader_version: None,
            memory: self.config.settings.default_memory,
            java,
            game_dir: None,
            resolution_width: Some(1280),
            resolution_height: Some(720),
            account_uuid: state.selected_account.clone(),
            minecraft_dir: None,
            custom_jvm_args: Vec::new(),
        };
        self.create_instance(config)
    }

    /// Creates an instance with an explicit loader and game version. Refused
    /// for loaders other than vanilla, fabric and quilt (ignoring case) and
    /// for a blank game version.
    pub fn create_instance_full(&mut self, state: &AppState, loader: &str, game_version: &str) -> (r: Result<InstanceConfig, String>)
        requires
            state.instances@.len() < u64::MAX - 3,
        ensures
            !supported_loader(lowercase(loader@)) ==> (r matches Err(m) && m@ == unsupported_loader_message(loader@)),
            supported_loader(lowercase(loader@)) && trim(game_version@).len() == 0 ==> (r matches Err(m) && m@ == "Game version must not be empty"@),
            r is Err ==> final(self).manager == old(self).manager && final(self).config.instances == old(self).config.instances,
            supported_loader(lowercase(loader@)) && trim(game_version@).len() > 0 ==> (r matches Ok(inst)
                && inst.name@ == new_instance_name(state.instances@.len())
                && fresh_id_ok(lowercase(loader@), instance_ids(state.instances@), inst.id@)
                && inst.game_version@ == trim(game_version@)
                && inst.loader@ == lowercase(loader@)
                && opt_view(inst.loader_version) == initial_loader_version(lowercase(loader@))
                && inst.memory == old(self).config.settings.default_memory
                && opt_view(inst.java) == first_java(state.java_installations@)
                && inst.resolution_width == Some(1280u32)
                && inst.resolution_height == Some(720u32)
                && inst.account_uuid == state.selected_account
                && final(self).manager.instances@.len() == old(self).manager.instances@.len() + 1
                && same_instance(final(self).manager.instances@.last(), inst)
                && (forall|k: int| 0 <= k < old(self).manager.instances@.len()
                    ==> #[trigger] final(self).manager.instances@[k] == old(self).manager.instances@[k])
                && (has_key(old(self).config.instances@, inst.id@) ==> final(self).config.instances@ == old(self).config.instances@)
                && (!has_key(old(self).config.instances@, inst.id@) ==> final(self).config.instances@.len() == old(self).config.instances@.len() + 1
                    && mirrors(inst, final(self).config.instances@.last())
                    && final(self).config.instances@.drop_last() == old(self).config.instances@)),
            r is Ok ==> final(self).config.accounts == old(self).config.accounts
                && final(self).config.default_account == old(self).config.default_account
                && final(self).config.settings == old(self).config.settings,
    {
        proof {
            reveal_strlit("vanilla");
            reveal_strlit("fabric");
            reveal_strlit("quilt");
            reveal_strlit("Instance ");
            reveal_strlit("0.19.3");
            reveal_strlit("0.28.5");
        }
        let l = to_lowercase(loader);
        let is_fabric = crate::text::str_eq(l.as_str(), "fabric");
        let is_quilt = crate::text::str_eq(l.as_str(), "quilt");
        if !(crate::text::str_eq(l.as_str(), "vanilla") || is_fabric || is_quilt) {
            let mut msg = chars_of("Loader '");
            crate::text::extend_str(&mut msg, loader);
            crate::text::extend_str(&mut msg, "' is not supported yet (available: vanilla, fabric, quilt)");
            return Err(string_from_chars(&msg));
        }
        let gv = crate::text::trim_chars(&chars_of(game_version));
        if gv.len() == 0 {
            return Err("Game version must not be empty".to_owned());
        }
        let mut name = chars_of("Instance ");
        let count = (state.instances.len() as u64) + 1;
        extend_chars(&mut name, &crate::text::decimal_chars(count));
        let java: Option<String> = if state.java_installations.len() > 0 && state.java_installations[0].path.unicode_len() > 0 {
            Some(state.java_installations[0].path.clone())
        } else {
            None
        };
        let loader_version: Option<String> = if is_fabric {
            Some("0.19.3".to_owned())
        } else if is_quilt {
            Some("0.28.5".to_owned())
        } else {
            None
        };
        let ids = ids_of(state.instances.as_slice());
        let config = InstanceConfig {
            id: Self::generate_instance_id(l.as_str(), ids.as_slice()),
            name: string_from_chars(&name),
            game_version: string_from_chars(&gv),
            loader: l.clone(),
            loader_version,
            memory: self.config.settings.default_memory,
            java,
            game_dir: None,
            resolution_width: Some(1280),
            resolution_height: Some(720),
            account_uuid: state.selected_account.clone(),
            minecraft_dir: None,
            custom_jvm_args: Vec::new(),
        };
        Ok(self.create_instance(config))
    }

    /// Quick-creates an instance with the given loader (vanilla, fabric or
    /// quilt, ignoring case) and records the loader choice.
    pub fn quick_create_instance_with_loader(&mut self, state: &AppState, loader: &str) -> (r: Result<InstanceConfig, String>)
        requires
            state.instances@.len() < u64::MAX - 3,
        ensures
            !supported_loader(lowercase(loader@)) ==> (r matches Err(m) && m@ == unsupported_loader_message(loader@)
                && final(self).manager == old(self).manager),
            supported_loader(lowercase(loader@)) ==> (r matches Ok(inst)
                && inst.name@ == new_instance_name(state.instances@.len())
                && fresh_id_ok("vanilla"@, instance_ids(state.instances@), inst.id@)
                && inst.game_version@ == quick_game_version(state.versions@)
                && inst.loader@ == lowercase(loader@)
                && opt_view(inst.loader_version) == initial_loader_version(lowercase(loader@))
                && final(self).manager.instances@.len() == old(self).manager.instances@.len() + 1
                && has_key(final(self).manager.instances@, inst.id@)
                && same_instance(final(self).manager.instances@[first_with_key(final(self).manager.instances@, inst.id@)], inst)),
    {
        proof {
            reveal_strlit("vanilla");
            reveal_strlit("fabric");
            reveal_strlit("quilt");
            reveal_strlit("0.19.3");
            reveal_strlit("0.28.5");
        }
        let l = to_lowercase(loader);
        let is_fabric = crate::text::str_eq(l.as_str(), "fabric");
        let is_quilt = crate::text::str_eq(l.as_str(), "quilt");
        if !(crate::text::str_eq(l.as_str(), "vanilla") || is_fabric || is_quilt) {
            let mut msg = chars_of("Loader '");
            crate::text::extend_str(&mut msg, loader);
            crate::text::extend_str(&mut msg, "' is not supported yet (available: vanilla, fabric, quilt)");
            return Err(string_from_chars(&msg));
        }
        let mut instance = self.quick_create_instance(state);
        instance.loader = l;
        instance.loader_version = if is_fabric {
            Some("0.19.3".to_owned())
        } else if is_quilt {
            Some("0.28.5".to_owned())
        } else {
            None
        };
        let ghost n = self.manager.instances@.len();
        proof {
            crate::keyed::lemma_first_with_key(self.manager.instances@, instance.id@);
            assert(self.manager.instances@[n - 1].key() == instance.id@);
            assert(has_key(self.manager.instances@, instance.id@));
        }
        let ghost mid = self.manager.instances@;
        let copy = instance.clone();
        let ghost cv = copy;
        if !self.update_instance(copy) {
            return Err("Failed to persist loader selection".to_owned());
        }
        proof {
            let k = first_with_key(mid, instance.id@);
            crate::keyed::lemma_first_with_key(mid, instance.id@);
            assert(self.manager.instances@ == mid.update(k, cv));
            crate::keyed::lemma_same_keys_first(mid, self.manager.instances@, instance.id@);
            crate::keyed::lemma_first_with_key(self.manager.instances@, instance.id@);
        }
        Ok(instance)
    }
}

/// Whether some account has this id.
pub open spec fn has_account_id(accounts: Seq<Account>, id: Seq<char>) -> bool {
    exists|i: int| 0 <= i < accounts.len() && #[trigger] accounts[i].id@ == id
}

/// Index of the first account with this id, or -1.
pub open spec fn account_index(accounts: Seq<Account>, id: Seq<char>) -> int
    decreases accounts.len(),
{
    if accounts.len() == 0 {
        -1
    } else if accounts[0].id@ == id {
        0
    } else {
        let r = account_index(accounts.drop_first(), id);
        if r < 0 {
            -1
        } else {
            r + 1
        }
    }
}

/// Whether some account's name equals `name` ignoring ASCII case.
pub open spec fn name_taken(accounts: Seq<Account>, name: Seq<char>) -> bool {
    exists|i: int| 0 <= i < accounts.len() && crate::text::eq_ignore_case(#[trigger] accounts[i].name@, name)
}

proof fn lemma_account_index(accounts: Seq<Account>, id: Seq<char>)
    ensures
        -1 <= account_index(accounts, id) < accounts.len(),
        account_index(accounts, id) >= 0 ==> accounts[account_index(accounts, id)].id@ == id,
        account_index(accounts, id) >= 0 <==> has_account_id(accounts, id),
    decreases accounts.len(),
{
    if accounts.len() > 0 && accounts[0].id@ != id {
        lemma_account_index(accounts.drop_first(), id);
        if has_account_id(accounts, id) {
            let i = choose|i: int| 0 <= i < accounts.len() && #[trigger] accounts[i].id@ == id;
            assert(accounts.drop_first()[i - 1].id@ == id);
        }
    }
}

fn find_account(accounts: &[Account], id: &str) -> (r: Option<usize>)
    ensures
        match r {
            Some(i) => i as int == account_index(accounts@, id@) && i < accounts@.len() && has_account_id(accounts@, id@),
            None => !has_account_id(accounts@, id@) && account_index(accounts@, id@) == -1,
        },
{
    proof {
        lemma_account_index(accounts@, id@);
    }
    let mut i: usize = 0;
    while i < accounts.len()
        invariant
            i <= accounts@.len(),
            forall|k: int| 0 <= k < i ==> #[trigger] accounts@[k].id@ != id@,
            -1 <= account_index(accounts@, id@) < accounts@.len(),
            account_index(accounts@, id@) >= 0 ==> accounts@[account_index(accounts@, id@)].id@ == id@,
            account_index(accounts@, id@) >= 0 <==> has_account_id(accounts@, id@),
        decreases accounts@.len() - i,
    {
        if crate::text::str_eq(accounts[i].id.as_str(), id) {
            proof {
                lemma_account_index_first(accounts@, id@, i as int);
            }
            return Some(i);
        }
        i = i + 1;
    }
    proof {
        if has_account_id(accounts@, id@) {
            let k = choose|k: int| 0 <= k < accounts@.len() && #[trigger] accounts@[k].id@ == id@;
            assert(accounts@[k].id@ != id@);
        }
    }
    None
}

proof fn lemma_account_index_first(accounts: Seq<Account>, id: Seq<char>, i: int)
    requires
        0 <= i < accounts.len(),
        accounts[i].id@ == id,
        forall|k: int| 0 <= k < i ==> #[trigger] accounts[k].id@ != id,
    ensures
        account_index(accounts, id) == i,
    decreases i,
{
    if i > 0 {
        assert forall|k: int| 0 <= k < i - 1 implies #[trigger] accounts.drop_first()[k].id@ != id by {
            assert(accounts[k + 1].id@ != id);
        }
        lemma_account_index_first(accounts.drop_first(), id, i - 1);
    }
}

/// The message that refuses an invalid player name.
pub open spec fn invalid_name_message() -> Seq<char> {
    "Username must be 3-16 characters: letters, numbers, underscore"@
}

impl BackendBridge {
    /// All saved accounts.
    pub fn list_accounts(&self) -> (r: Vec<Account>)
        ensures
            r@ == self.config.accounts@,
    {
        let r = self.config.accounts.clone();
        assert(r@ =~= self.config.accounts@);
        r
    }

    /// The account launches use: the first with the configured default id.
    pub fn active_account(&self) -> (r: Option<Account>)
        ensures
            match self.config.default_account {
                None => r is None,
                Some(id) => match r {
                    None => !has_account_id(self.config.accounts@, id@),
                    Some(a) => has_account_id(self.config.accounts@, id@) && a == self.config.accounts@[account_index(self.config.accounts@, id@)],
                },
            },
    {
        match &self.config.default_account {
            None => None,
            Some(id) => match find_account(self.config.accounts.as_slice(), id.as_str()) {
                Some(i) => {
                    proof {
                        lemma_account_index(self.config.accounts@, id@);
                    }
                    Some(self.config.accounts[i].clone())
                },
                None => None,
            },
        }
    }

    /// Creates an offline account for a valid player name (surrounding
    /// whitespace ignored) that no account has yet (ignoring ASCII case).
    /// The first account becomes the active one.
    pub fn create_offline_account(&mut self, username: &str) -> (r: Result<Account, String>)
        ensures
            !valid_username(trim(username@)) ==> (r matches Err(m) && m@ == invalid_name_message()),
            valid_username(trim(username@)) && name_taken(old(self).config.accounts@, trim(username@)) ==> (r matches Err(m)
                && m@ == "Account '"@ + trim(username@) + "' already exists"@),
            r is Err ==> final(self).config == old(self).config,
            valid_username(trim(username@)) && !name_taken(old(self).config.accounts@, trim(username@)) && r is Err ==> (r matches Err(m)
                && m@ == "Failed to save account: Account already exists"@
                && exists|k: int| 0 <= k < old(self).config.accounts@.len() && (#[trigger] old(self).config.accounts@[k]).uuid@.len() == 36),
            r is Ok ==> valid_username(trim(username@)) && !name_taken(old(self).config.accounts@, trim(username@)),
            valid_username(trim(username@)) && !name_taken(old(self).config.accounts@, trim(username@)) && r is Ok ==> (r matches Ok(a)
                && a.name@ == trim(username@)
                && final(self).config.accounts@ == old(self).config.accounts@.push(a)
                && (old(self).config.default_account is None ==> final(self).config.default_account == Some(a.id))
                && (old(self).config.default_account is Some ==> final(self).config.default_account == old(self).config.default_account)),
            final(self).config.instances == old(self).config.instances,
            final(self).manager == old(self).manager,
    {
        let tc = crate::text::trim_chars(&chars_of(username));
        let name = string_from_chars(&tc);
        if !crate::auth::is_valid_username(name.as_str()) {
            return Err("Username must be 3-16 characters: letters, numbers, underscore".to_owned());
        }
        let mut i: usize = 0;
        while i < self.config.accounts.len()
            invariant
                i <= self.config.accounts@.len(),
                tc@ == trim(username@),
                valid_username(tc@),
                forall|k: int| 0 <= k < i ==> !crate::text::eq_ignore_case(#[trigger] self.config.accounts@[k].name@, tc@),
            decreases self.config.accounts@.len() - i,
        {
            let other = chars_of(self.config.accounts[i].name.as_str());
            if crate::text::eq_ignore_ascii_case(&other, &tc) {
                let mut msg = chars_of("Account '");
                extend_chars(&mut msg, &tc);
                extend_str(&mut msg, "' already exists");
                return Err(string_from_chars(&msg));
            }
            i = i + 1;
        }
        let account = Account::new_offline(name);
        let ghost a = account;
        let id = account.id.clone();
        match self.config.add_account(account) {
            Err(e) => {
                proof {
                    reveal_strlit("Failed to save account: ");
                    reveal_strlit("Account already exists");
                    assert(has_key(old(self).config.accounts@, a.uuid@));
                    let k = choose|k: int| 0 <= k < old(self).config.accounts@.len() && (#[trigger] old(self).config.accounts@[k]).key() == a.uuid@;
                    assert(old(self).config.accounts@[k].uuid@.len() == 36);
                }
                let mut msg = chars_of("Failed to save account: ");
                extend_str(&mut msg, e.message().as_str());
                proof {
                    reveal_strlit("Failed to save account: Account already exists");
                    assert(msg@ =~= "Failed to save account: Account already exists"@);
                }
                return Err(string_from_chars(&msg));
            },
            Ok(()) => {},
        }
        if self.config.default_account.is_none() {
            self.config.default_account = Some(id);
        }
        Ok(self.config.accounts[self.config.accounts.len() - 1].clone())
    }

    /// Makes an existing account the active one.
    pub fn set_active_account(&mut self, id: &str) -> (r: Result<(), String>)
        ensures
            has_account_id(old(self).config.accounts@, id@) ==> r is Ok,
            has_account_id(old(self).config.accounts@, id@) ==> (final(self).config.default_account matches Some(d) && d@ == id@),
            !has_account_id(old(self).config.accounts@, id@) ==> (r matches Err(m) && m@ == "Account not found"@
                && final(self).config == old(self).config),
            final(self).config.accounts == old(self).config.accounts,
            final(self).config.instances == old(self).config.instances,
    {
        if find_account(self.config.accounts.as_slice(), id).is_none() {
            return Err("Account not found".to_owned());
        }
        self.config.default_account = Some(id.to_owned());
        Ok(())
    }

    /// Deletes every account with this uuid; when the deleted account was
    /// the active one, the first remaining account (if any) becomes active.
    pub fn delete_account(&mut self, id: &str) -> (r: Result<(), String>)
        ensures
            final(self).config.accounts@ == without_key(old(self).config.accounts@, id@),
            !has_key(old(self).config.accounts@, id@) ==> (r matches Err(m) && m@ == "Account not found"@
                && final(self).config.default_account == old(self).config.default_account),
            has_key(old(self).config.accounts@, id@) ==> r is Ok,
            has_key(old(self).config.accounts@, id@) && (old(self).config.default_account matches Some(d) && d@ == id@) ==> (
                (final(self).config.accounts@.len() == 0 ==> final(self).config.default_account is None)
                && (final(self).config.accounts@.len() > 0 ==> final(self).config.default_account == Some(final(self).config.accounts@[0].id))),
            has_key(old(self).config.accounts@, id@) && !(old(self).config.default_account matches Some(d) && d@ == id@)
                ==> final(self).config.default_account == old(self).config.default_account,
            final(self).config.instances == old(self).config.instances,
    {
        let was_active = match &self.config.default_account {
            Some(d) => crate::text::str_eq(d.as_str(), id),
            None => false,
        };
        if self.config.remove_account(id).is_err() {
            return Err("Account not found".to_owned());
        }
        if was_active {
            self.config.default_account = if self.config.accounts.len() > 0 {
                Some(self.config.accounts[0].id.clone())
            } else {
                None
            };
        }
        Ok(())
    }

    /// Where the record of content installed in an instance is kept.
    pub fn installed_index_path(&self, instance_id: &str) -> (r: String)
        ensures
            r@ == join(join(self.instances_dir@, instance_id@), "installed.json"@),
    {
        let dir = join_path(self.instances_dir.as_str(), instance_id);
        join_path(dir.as_str(), "installed.json")
    }

    /// The Modrinth content type searched for a Discover tab.
    pub fn discover_content_type(tab: DiscoverTab) -> (r: &'static str)
        ensures
            r@ == tab_content_type(tab),
    {
        match tab {
            DiscoverTab::Mods => "mod",
            DiscoverTab::Modpacks => "modpack",
            DiscoverTab::Shaders => "shader",
            DiscoverTab::ResourcePacks => "resourcepack",
        }
    }

    /// The Modrinth search for a Discover category: its content type, the
    /// query, the exact game version and the loader (empty for none).
    pub fn fetch_discover(
        tab: DiscoverTab,
        query: &str,
        game_version: &str,
        loader: Option<&str>,
    ) -> (r: DiscoverSearch)
        ensures
            r.content_type@ == tab_content_type(tab),
            r.query@ == query@,
            r.game_version@ == game_version@,
            r.loader@ == match loader {
                Some(l) => l@,
                None => ""@,
            },
    {
        proof {
            reveal_strlit("");
        }
        DiscoverSearch {
            query: query.to_owned(),
            content_type: Self::discover_content_type(tab).to_owned(),
            game_version: game_version.to_owned(),
            loader: match loader {
                Some(l) => l.to_owned(),
                None => "".to_owned(),
            },
        }
    }

    /// The Java installations among the probed candidates.
    pub fn detect_java(probes: &[crate::minecraft::java::JavaProbe]) -> (r: Vec<
        crate::minecraft::java::JavaInstallation,
    >)
        ensures
            crate::minecraft::java::install_views(r@) == crate::minecraft::java::installs_of(
                probes@,
            ),
            forall|k: int| 0 <= k < r@.len() ==> crate::minecraft::java::detected(#[trigger] r@[k]),
    {
        crate::minecraft::java::JavaManager::detect_all(probes)
    }

    /// Whether a library applies on `os` (a manifest OS name): always when
    /// it has no rule list, otherwise as its rules decide with no features.
    pub fn library_applies(rules: &Option<Vec<Rule>>, os: &str) -> (r: bool)
        ensures
            match rules {
                None => r,
                Some(rs) => r == rules_allow(rs@, Seq::empty(), os@),
            },
    {
        match rules {
            None => true,
            Some(rs) => {
                let none: Vec<(String, bool)> = Vec::new();
                assert(none@ =~= Seq::<(String, bool)>::empty());
                ArgumentBuilder::rules_apply(rs.as_slice(), none.as_slice(), os)
            },
        }
    }

    /// Evaluates a rule list on `os` (a manifest OS name) with `features`.
    pub fn rules_apply(rules: &[Rule], features: &[(String, bool)], os: &str) -> (r: bool)
        ensures
            r == rules_allow(rules@, features@, os@),
    {
        ArgumentBuilder::rules_apply(rules, features, os)
    }

    /// Quilt loader versions offered for new instances, newest first.
    pub fn get_quilt_loader_versions() -> (r: Vec<String>)
        ensures
            string_views(r@) == seq!["0.28.5"@, "0.27.1"@, "0.26.0"@],
    {
        let r = string_list(&["0.28.5", "0.27.1", "0.26.0"]);
        assert(seq!["0.28.5", "0.27.1", "0.26.0"].map_values(|s: &str| s@) =~= seq!["0.28.5"@, "0.27.1"@, "0.26.0"@]);
        r
    }

    /// Fabric loader versions offered for new instances, newest first.
    pub fn get_fabric_loader_versions() -> (r: Vec<String>)
        ensures
            string_views(r@) == seq!["0.19.3"@, "0.18.4"@, "0.17.2"@, "0.16.14"@],
    {
        let r = string_list(&["0.19.3", "0.18.4", "0.17.2", "0.16.14"]);
        assert(seq!["0.19.3", "0.18.4", "0.17.2", "0.16.14"].map_values(|s: &str| s@) =~= seq!["0.19.3"@, "0.18.4"@, "0.17.2"@, "0.16.14"@]);
        r
    }

    /// The version list offered when the release list cannot be fetched.
    pub fn fallback_versions() -> (r: Vec<String>)
        ensures
            string_views(r@) == seq!["26.2"@, "1.21.1"@, "1.20.1"@, "1.19.4"@, "1.18.2"@],
    {
        let r = string_list(&["26.2", "1.21.1", "1.20.1", "1.19.4", "1.18.2"]);
        assert(seq!["26.2", "1.21.1", "1.20.1", "1.19.4", "1.18.2"].map_values(|s: &str| s@) =~= seq!["26.2"@, "1.21.1"@, "1.20.1"@, "1.19.4"@, "1.18.2"@]);
        r
    }

    /// Forge versions offered, newest first.
    pub fn get_forge_versions() -> (r: Vec<String>)
        ensures
            string_views(r@) == seq!["53.0.27"@, "52.0.23"@, "48.0.28"@, "47.3.0"@],
    {
        let r = string_list(&["53.0.27", "52.0.23", "48.0.28", "47.3.0"]);
        assert(seq!["53.0.27", "52.0.23", "48.0.28", "47.3.0"].map_values(|s: &str| s@) =~= seq!["53.0.27"@, "52.0.23"@, "48.0.28"@, "47.3.0"@]);
        r
    }

    /// The Minecraft versions offered by default, newest first.
    pub fn get_minecraft_versions() -> (r: Vec<String>)
        ensures
            string_views(r@) == seq!["26.2"@, "1.21.1"@, "1.20.1"@, "1.19.4"@, "1.18.2"@],
    {
        Self::fallback_versions()
    }
}
} // verus!
