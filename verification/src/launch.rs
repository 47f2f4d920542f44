//! The launch engine's rules: where libraries live, which apply, the
//! classpath and the command-line arguments of a launch request.
//!
//! Fetching manifests, downloading and starting the process are the
//! application's part.

use vstd::prelude::*;
use crate::argus::backend::{group_dir, joined_with, path_list_separator, string_views};
use crate::argus::launch_command::{all_substituted, has_arg};
use crate::errors::LauncherError;
use crate::minecraft::arguments::{ArgumentBuilder, collected, pair_views, placeholder, rules_allow, substituted};
use crate::minecraft::manifest::{ManifestVersionInfo, Rule};
use crate::minecraft::optimization::{OptimizationProfile, memory_fits, profile_args};
use crate::paths::{join, join_path, set_extension, with_extension};
use crate::launch_steps::{configured_java, java_from_setting, required_major};
use crate::minecraft::java::required_java;
use crate::text::{replace_all, starts_with, decimal, decimal_chars, chars_of, extend_chars, extend_str, replace_char, replace_char_str, split_chars, split_on, string_from_chars, views};

verus! {

/// What the front end asks to launch.
pub struct LaunchRequest {
    pub instance_id: String,
    pub account_name: String,
    pub account_uuid: String,
    pub java_path: Option<String>,
    pub minecraft_dir: Option<String>,
    pub fresh: bool,
    pub memory: u32,
    pub game_version: String,
    pub loader: String,
    pub loader_version: Option<String>,
    pub optimization_profile: OptimizationProfile,
    pub custom_jvm_args: Vec<String>,
}

/// What a launch gave.
pub struct LaunchResult {
    pub success: bool,
    pub pid: Option<u32>,
    pub exit_code: Option<i32>,
    pub message: String,
    pub java_path: Option<String>,
}

/// The launch engine.
pub struct LaunchEngine;

/// Where a library lives under `base`:
/// `group/artifact/version/artifact-version[-classifier].jar`, or for a name
/// with fewer than three parts its colons made separators and `.jar` as
/// extension.
pub open spec fn engine_library_path(name: Seq<char>, base: Seq<char>) -> Seq<char> {
    let p = split_on(name, ':');
    if p.len() >= 3 {
        let dir = join(join(join(base, group_dir(p[0])), p[1]), p[2]);
        if p.len() > 3 {
            join(dir, p[1] + "-"@ + p[2] + "-"@ + p[3] + ".jar"@)
        } else {
            join(dir, p[1] + "-"@ + p[2] + ".jar"@)
        }
    } else {
        with_extension(join(base, replace_char(name, ':', '/')), "jar"@)
    }
}

/// Where the native library of `name` for `classifier` lives under `base`.
pub open spec fn engine_classifier_path(name: Seq<char>, base: Seq<char>, classifier: Seq<char>) -> Seq<char> {
    let p = split_on(name, ':');
    if p.len() >= 3 {
        join(join(join(join(base, group_dir(p[0])), p[1]), p[2]), p[1] + "-"@ + p[2] + "-"@ + classifier + ".jar"@)
    } else {
        with_extension(join(base, replace_char(name, ':', '/')), "jar"@)
    }
}

/// The launch tokens of a request.
pub open spec fn request_tokens(
    info: ManifestVersionInfo,
    req: LaunchRequest,
    game_dir: Seq<char>,
    assets_dir: Seq<char>,
    natives_dir: Seq<char>,
    classpath: Seq<char>,
) -> Seq<(Seq<char>, Seq<char>)> {
    seq![
        ("auth_player_name"@, req.account_name@),
        ("auth_uuid"@, req.account_uuid@),
        ("auth_access_token"@, "0"@),
        ("clientid"@, "0"@),
        ("auth_xuid"@, req.account_uuid@),
        ("version_name"@, info.id@),
        ("version_type"@, info.version_type@),
        ("game_directory"@, game_dir),
        ("assets_root"@, assets_dir),
        ("assets_index_name"@, info.asset_index.id@),
        ("launcher_name"@, "EraLauncher"@),
        ("launcher_version"@, crate::argus::state::LAUNCHER_VERSION@),
        ("natives_directory"@, natives_dir),
        ("resolution_width"@, "854"@),
        ("resolution_height"@, "480"@),
        ("classpath"@, classpath),
    ]
}

/// The game arguments of a request before substitution: the manifest's,
/// or a minimal set when it gives none.
pub open spec fn request_game_args(info: ManifestVersionInfo, os: Seq<char>) -> Seq<Seq<char>> {
    let g = match info.arguments {
        Some(a) => collected(a.game@, Seq::empty(), os),
        None => Seq::empty(),
    };
    if g.len() == 0 {
        seq![
            "--username"@, "${auth_player_name}"@,
            "--version"@, "${version_name}"@,
            "--gameDir"@, "${game_directory}"@,
            "--assetsDir"@, "${assets_root}"@,
        ]
    } else {
        g
    }
}

/// The JVM arguments of a request before substitution.
pub open spec fn request_jvm_args(info: ManifestVersionInfo, profile: OptimizationProfile, memory: u32, os: Seq<char>) -> Seq<Seq<char>> {
    let base = profile_args(profile, memory as int) + seq!["-Duser.language=en"@];
    match info.arguments {
        Some(a) => base + collected(a.jvm@, Seq::empty(), os),
        None => base,
    }
}

fn push_arg(v: &mut Vec<String>, s: &str)
    ensures
        string_views(final(v)@) == string_views(old(v)@).push(s@),
{
    v.push(s.to_owned());
    assert(string_views(v@) =~= string_views(old(v)@).push(s@));
}

fn append_all(v: &mut Vec<String>, t: &[String])
    ensures
        string_views(final(v)@) == string_views(old(v)@) + string_views(t@),
{
    let mut i: usize = 0;
    while i < t.len()
        invariant
            i <= t@.len(),
            string_views(v@) == string_views(old(v)@) + string_views(t@.subrange(0, i as int)),
        decreases t@.len() - i,
    {
        let ghost before = v@;
        v.push(t[i].clone());
        proof {
            assert(string_views(v@) =~= string_views(before).push(t@[i as int]@));
            assert(string_views(t@.subrange(0, i + 1)) =~= string_views(t@.subrange(0, i as int)).push(t@[i as int]@));
        }
        i = i + 1;
    }
    assert(t@.subrange(0, t@.len() as int) =~= t@);
}

fn push_token(v: &mut Vec<(String, String)>, k: &str, val: &str)
    ensures
        pair_views(final(v)@) == pair_views(old(v)@).push((k@, val@)),
{
    v.push((k.to_owned(), val.to_owned()));
    assert(pair_views(v@) =~= pair_views(old(v)@).push((k@, val@)));
}

impl LaunchEngine {
    /// A launch engine.
    pub fn new() -> (r: Result<LaunchEngine, LauncherError>)
        ensures
            r is Ok,
    {
        Ok(LaunchEngine)
    }

    /// The classifier keys that may hold natives: `natives-os-arch`, then
    /// `natives-os`.
    pub fn get_natives_keys(&self, os: &str, arch: &str) -> (r: Vec<String>)
        ensures
            string_views(r@) == seq!["natives-"@ + os@ + "-"@ + arch@, "natives-"@ + os@],
    {
        let mut a: Vec<char> = Vec::new();
        extend_str(&mut a, "natives-");
        extend_str(&mut a, os);
        extend_str(&mut a, "-");
        extend_str(&mut a, arch);
        let mut b: Vec<char> = Vec::new();
        extend_str(&mut b, "natives-");
        extend_str(&mut b, os);
        let mut keys: Vec<String> = Vec::new();
        keys.push(string_from_chars(&a));
        keys.push(string_from_chars(&b));
        assert(string_views(keys@) =~= seq!["natives-"@ + os@ + "-"@ + arch@, "natives-"@ + os@]);
        keys
    }

    /// Where a library given by its Maven coordinate lives under `base`.
    pub fn resolve_library_path(&self, name: &str, base: &str) -> (r: String)
        ensures
            r@ == engine_library_path(name@, base@),
    {
        proof {
            reveal_strlit("-");
            reveal_strlit(".jar");
        }
        let cs = chars_of(name);
        let parts = split_chars(&cs, ':');
        let ghost pv = views(parts@);
        if parts.len() >= 3 {
            assert(pv[0] == parts@[0]@ && pv[1] == parts@[1]@ && pv[2] == parts@[2]@);
            let g = string_from_chars(&crate::argus::backend::group_dir_chars(&parts[0]));
            let d1 = join_path(base, g.as_str());
            let d2 = join_path(d1.as_str(), string_from_chars(&parts[1]).as_str());
            let d3 = join_path(d2.as_str(), string_from_chars(&parts[2]).as_str());
            let mut f: Vec<char> = Vec::new();
            extend_chars(&mut f, &parts[1]);
            f.push('-');
            extend_chars(&mut f, &parts[2]);
            if parts.len() > 3 {
                assert(pv[3] == parts@[3]@);
                f.push('-');
                extend_chars(&mut f, &parts[3]);
            }
            extend_str(&mut f, ".jar");
            let fname = string_from_chars(&f);
            join_path(d3.as_str(), fname.as_str())
        } else {
            let replaced = replace_char_str(name, ':', '/');
            let joined = join_path(base, replaced.as_str());
            set_extension(joined.as_str(), "jar")
        }
    }

    /// Where the native library of `name` for `classifier` lives under
    /// `base`.
    pub fn resolve_classifier_path(&self, name: &str, base: &str, classifier: &str) -> (r: String)
        ensures
            r@ == engine_classifier_path(name@, base@, classifier@),
    {
        proof {
            reveal_strlit("-");
            reveal_strlit(".jar");
        }
        let cs = chars_of(name);
        let parts = split_chars(&cs, ':');
        let ghost pv = views(parts@);
        if parts.len() >= 3 {
            assert(pv[0] == parts@[0]@ && pv[1] == parts@[1]@ && pv[2] == parts@[2]@);
            let g = string_from_chars(&crate::argus::backend::group_dir_chars(&parts[0]));
            let d1 = join_path(base, g.as_str());
            let d2 = join_path(d1.as_str(), string_from_chars(&parts[1]).as_str());
            let d3 = join_path(d2.as_str(), string_from_chars(&parts[2]).as_str());
            let mut f: Vec<char> = Vec::new();
            extend_chars(&mut f, &parts[1]);
            f.push('-');
            extend_chars(&mut f, &parts[2]);
            f.push('-');
            extend_str(&mut f, classifier);
            extend_str(&mut f, ".jar");
            let fname = string_from_chars(&f);
            join_path(d3.as_str(), fname.as_str())
        } else {
            let replaced = replace_char_str(name, ':', '/');
            let joined = join_path(base, replaced.as_str());
            set_extension(joined.as_str(), "jar")
        }
    }

    /// Whether a library applies on `os` (a manifest OS name): always without
    /// a rule list, otherwise as its rules decide.
    pub fn library_applies(&self, rules: &Option<Vec<Rule>>, os: &str) -> (r: bool)
        ensures
            match rules {
                None => r,
                Some(rs) => r == rules_allow(rs@, Seq::empty(), os@),
            },
    {
        match rules {
            None => true,
            Some(rs) => {
                let none: Vec<(String, bool)> = Vec::new();
                assert(none@ =~= Seq::<(String, bool)>::empty());
                ArgumentBuilder::rules_apply(rs.as_slice(), none.as_slice(), os)
            },
        }
    }

    /// The classpath: loader libraries, the client jar, the libraries, and
    /// the natives directory when it exists, joined with the platform's
    /// separator (`;` on Windows, `:` elsewhere).
    pub fn build_classpath(
        &self,
        client_jar: &str,
        libs: &[String],
        natives_dir: &str,
        natives_exists: bool,
        loader_libs: &[String],
        windows: bool,
    ) -> (r: String)
        ensures
            r@ == joined_with(
                string_views(loader_libs@) + seq![client_jar@] + string_views(libs@) + (if natives_exists {
                    seq![natives_dir@]
                } else {
                    Seq::empty()
                }),
                path_list_separator(windows),
            ),
    {
        proof {
            reveal_strlit(":");
            reveal_strlit(";");
        }
        let sep: char = if windows {
            ';'
        } else {
            ':'
        };
        assert(seq![sep] =~= path_list_separator(windows));
        let mut parts: Vec<String> = Vec::new();
        append_all(&mut parts, loader_libs);
        push_arg(&mut parts, client_jar);
        append_all(&mut parts, libs);
        if natives_exists {
            push_arg(&mut parts, natives_dir);
        }
        let ghost items = string_views(parts@);
        assert(items =~= string_views(loader_libs@) + seq![client_jar@] + string_views(libs@) + (if natives_exists {
            seq![natives_dir@]
        } else {
            Seq::empty()
        }));
        let mut out: Vec<char> = Vec::new();
        let mut i: usize = 0;
        while i < parts.len()
            invariant
                i <= parts@.len(),
                items == string_views(parts@),
                seq![sep] == path_list_separator(windows),
                out@ == joined_with(items.subrange(0, i as int), path_list_separator(windows)),
            decreases parts@.len() - i,
        {
            proof {
                assert(items.subrange(0, i + 1).drop_last() =~= items.subrange(0, i as int));
                assert(items.subrange(0, i + 1).last() == parts@[i as int]@);
            }
            if i > 0 {
                out.push(sep);
            }
            extend_str(&mut out, parts[i].as_str());
            proof {
                assert(out@ =~= joined_with(items.subrange(0, i + 1), seq![sep]));
            }
            i = i + 1;
        }
        assert(items.subrange(0, parts@.len() as int) =~= items);
        string_from_chars(&out)
    }

    /// The JVM arguments, game arguments and main class of a launch
    /// request: tokens substituted in both lists, the request's own JVM
    /// arguments appended as given; the loader's main class wins over the
    /// manifest's.
    pub fn build_args(
        &self,
        info: &ManifestVersionInfo,
        req: &LaunchRequest,
        game_dir: &str,
        assets_dir: &str,
        natives_dir: &str,
        memory: u32,
        loader_main_class: Option<&str>,
        classpath: &str,
        optimization_profile: OptimizationProfile,
        custom_jvm_args: Vec<String>,
        os: &str,
    ) -> (r: (Vec<String>, Vec<String>, String))
        requires
            memory_fits(optimization_profile, memory as int),
        ensures
            ({
                let tokens = request_tokens(*info, *req, game_dir@, assets_dir@, natives_dir@, classpath@);
                &&& string_views(r.0@) == all_substituted(request_jvm_args(*info, optimization_profile, memory, os@), tokens)
                    + string_views(custom_jvm_args@)
                &&& string_views(r.1@) == all_substituted(request_game_args(*info, os@), tokens)
                &&& r.2@ == match loader_main_class {
                    Some(m) => m@,
                    None => match info.main_class {
                        Some(m) => m@,
                        None => "net.minecraft.client.main.Main"@,
                    },
                }
            }),
    {
        let mut tokens: Vec<(String, String)> = Vec::new();
        push_token(&mut tokens, "auth_player_name", req.account_name.as_str());
        push_token(&mut tokens, "auth_uuid", req.account_uuid.as_str());
        push_token(&mut tokens, "auth_access_token", "0");
        push_token(&mut tokens, "clientid", "0");
        push_token(&mut tokens, "auth_xuid", req.account_uuid.as_str());
        push_token(&mut tokens, "version_name", info.id.as_str());
        push_token(&mut tokens, "version_type", info.version_type.as_str());
        push_token(&mut tokens, "game_directory", game_dir);
        push_token(&mut tokens, "assets_root", assets_dir);
        push_token(&mut tokens, "assets_index_name", info.asset_index.id.as_str());
        push_token(&mut tokens, "launcher_name", "EraLauncher");
        push_token(&mut tokens, "launcher_version", crate::argus::state::LAUNCHER_VERSION);
        push_token(&mut tokens, "natives_directory", natives_dir);
        push_token(&mut tokens, "resolution_width", "854");
        push_token(&mut tokens, "resolution_height", "480");
        push_token(&mut tokens, "classpath", classpath);
        let ghost tv = request_tokens(*info, *req, game_dir@, assets_dir@, natives_dir@, classpath@);
        assert(pair_views(tokens@) =~= tv);

        let mut jvm: Vec<String> = Vec::new();
        let profile_part = optimization_profile.jvm_args(memory);
        proof {
            assert(string_views(profile_part@) =~= crate::minecraft::optimization::string_views(profile_part@));
        }
        append_all(&mut jvm, profile_part.as_slice());
        push_arg(&mut jvm, "-Duser.language=en");
        let mut game: Vec<String> = Vec::new();
        let none: Vec<(String, bool)> = Vec::new();
        assert(none@ =~= Seq::<(String, bool)>::empty());
        match &info.arguments {
            Some(a) => {
                let j = ArgumentBuilder::collect_args(a.jvm.as_slice(), none.as_slice(), os);
                proof {
                    assert(string_views(j@) =~= crate::minecraft::arguments::string_views(j@));
                }
                append_all(&mut jvm, j.as_slice());
                let g = ArgumentBuilder::collect_args(a.game.as_slice(), none.as_slice(), os);
                proof {
                    assert(string_views(g@) =~= crate::minecraft::arguments::string_views(g@));
                }
                append_all(&mut game, g.as_slice());
            },
            None => {},
        }
        assert(string_views(jvm@) =~= request_jvm_args(*info, optimization_profile, memory, os@));
        if game.len() == 0 {
            push_arg(&mut game, "--username");
            push_arg(&mut game, "${auth_player_name}");
            push_arg(&mut game, "--version");
            push_arg(&mut game, "${version_name}");
            push_arg(&mut game, "--gameDir");
            push_arg(&mut game, "${game_directory}");
            push_arg(&mut game, "--assetsDir");
            push_arg(&mut game, "${assets_root}");
        }
        assert(string_views(game@) =~= request_game_args(*info, os@));
        let jvm_sub = ArgumentBuilder::substitute_tokens(jvm.as_slice(), tokens.as_slice());
        let game_sub = ArgumentBuilder::substitute_tokens(game.as_slice(), tokens.as_slice());
        let mut jvm_out: Vec<String> = Vec::new();
        append_all(&mut jvm_out, jvm_sub.as_slice());
        append_all(&mut jvm_out, custom_jvm_args.as_slice());
        assert(string_views(jvm_sub@) =~= all_substituted(request_jvm_args(*info, optimization_profile, memory, os@), tv));
        assert(string_views(game_sub@) =~= all_substituted(request_game_args(*info, os@), tv));
        let main_class = match loader_main_class {
            Some(m) => m.to_owned(),
            None => match &info.main_class {
                Some(m) => m.clone(),
                None => "net.minecraft.client.main.Main".to_owned(),
            },
        };
        (jvm_out, game_sub, main_class)
    }
}

/// The loader a launch request installs before the game.
pub enum EngineLoader {
    Fabric,
    Forge,
    /// No loader: the game's own main class.
    Vanilla,
}

/// The Java that a launch request runs on.
pub enum EngineJava {
    /// The executable of the request's own Java setting.
    Configured(String),
    /// A detected Java of at least this major version, installed when none is.
    Search(u32),
}

/// The game process a launch starts: program, arguments and working
/// directory.
pub struct GameCommand {
    pub program: String,
    pub args: Vec<String>,
    pub working_dir: String,
}

/// The arguments of the game process: the JVM arguments, `-cp` with the
/// classpath, the main class, then the game arguments.
pub open spec fn command_args(jvm: Seq<Seq<char>>, classpath: Seq<char>, main_class: Seq<char>, game: Seq<Seq<char>>) -> Seq<Seq<char>> {
    jvm + seq!["-cp"@, classpath, main_class] + game
}

impl LaunchEngine {
    /// Which loader a request installs: exactly `fabric` or `forge`, else
    /// none.
    pub fn loader_branch(loader: &str) -> (r: EngineLoader)
        ensures
            loader@ == "fabric"@ ==> r is Fabric,
            loader@ == "forge"@ ==> r is Forge,
            loader@ != "fabric"@ && loader@ != "forge"@ ==> r is Vanilla,
    {
        proof {
            reveal_strlit("fabric");
            reveal_strlit("forge");
            assert("fabric"@[1] != "forge"@[1]);
        }
        if crate::text::str_eq(loader, "fabric") {
            EngineLoader::Fabric
        } else if crate::text::str_eq(loader, "forge") {
            EngineLoader::Forge
        } else {
            EngineLoader::Vanilla
        }
    }

    /// The Java of a request: its own setting (the executable under `bin`
    /// when it names a directory), else a search for the major version that
    /// the manifest names, or that the game version calls for.
    pub fn java_plan(java_path: Option<String>, is_dir: bool, windows: bool, manifest_major: Option<u32>, game_version: &str) -> (r: EngineJava)
        ensures
            match java_path {
                Some(p) => r matches EngineJava::Configured(e) && e@ == configured_java(p@, is_dir, windows),
                None => r == EngineJava::Search(match manifest_major {
                    Some(m) => m,
                    None => required_java(game_version@),
                }),
            },
    {
        match java_path {
            Some(p) => EngineJava::Configured(java_from_setting(p.as_str(), is_dir, windows)),
            None => EngineJava::Search(required_major(manifest_major, game_version)),
        }
    }

    /// The status shown when no Java of the `required` major version was
    /// found and one is downloaded.
    pub fn java_missing_status(required: u32) -> (r: String)
        ensures
            r@ == "Java "@ + decimal(required as nat) + " not found. Downloading..."@,
    {
        let mut t = chars_of("Java ");
        extend_chars(&mut t, &decimal_chars(required as u64));
        extend_str(&mut t, " not found. Downloading...");
        string_from_chars(&t)
    }

    /// The Java found by the search, or the outcome of installing one.
    pub fn searched_java(found: Option<String>, installed: Option<Result<Option<String>, String>>) -> (r: Result<String, LauncherError>)
        ensures
            match found {
                Some(p) => r == Ok::<String, LauncherError>(p),
                None => match installed {
                    Some(Ok(Some(p))) => r == Ok::<String, LauncherError>(p),
                    Some(Ok(None)) | None => r matches Err(LauncherError::Java(m)) && m@ == "Java installation failed"@,
                    Some(Err(e)) => r matches Err(LauncherError::Java(m)) && m@ == "Java install failed: "@ + e@,
                },
            },
    {
        match found {
            Some(p) => Ok(p),
            None => match installed {
                Some(Ok(Some(p))) => Ok(p),
                Some(Err(e)) => Err(LauncherError::Java(crate::argus::state::concat2("Java install failed: ", e.as_str()))),
                _ => Err(LauncherError::Java("Java installation failed".to_owned())),
            },
        }
    }

    /// The check before starting: the client jar must be there.
    pub fn check_client_present(exists: bool) -> (r: Result<(), LauncherError>)
        ensures
            exists ==> r is Ok,
            !exists ==> (r matches Err(LauncherError::Minecraft(m)) && m@ == "Client JAR missing after download"@),
    {
        if exists {
            Ok(())
        } else {
            Err(LauncherError::Minecraft("Client JAR missing after download".to_owned()))
        }
    }

    /// The game process: `java` with the JVM arguments, `-cp` and the
    /// classpath, the main class and the game arguments, run in the
    /// instance's `game` directory.
    pub fn game_command(java: &str, jvm_args: &Vec<String>, classpath: &str, main_class: &str, game_args: &Vec<String>, instance_dir: &str) -> (r: GameCommand)
        ensures
            r.program@ == java@,
            string_views(r.args@) == command_args(string_views(jvm_args@), classpath@, main_class@, string_views(game_args@)),
            r.working_dir@ == join(instance_dir@, "game"@),
    {
        proof {
            reveal_strlit("-cp");
            reveal_strlit("game");
        }
        let mut args: Vec<String> = Vec::new();
        let mut i: usize = 0;
        while i < jvm_args.len()
            invariant
                i <= jvm_args@.len(),
                string_views(args@) == string_views(jvm_args@).take(i as int),
            decreases jvm_args@.len() - i,
        {
            args.push(jvm_args[i].clone());
            proof {
                assert(string_views(jvm_args@).take(i + 1) =~= string_views(jvm_args@).take(i as int).push(jvm_args@[i as int]@));
                assert(string_views(args@) =~= string_views(jvm_args@).take(i + 1));
            }
            i = i + 1;
        }
        args.push("-cp".to_owned());
        args.push(classpath.to_owned());
        args.push(main_class.to_owned());
        let ghost head = string_views(jvm_args@) + seq!["-cp"@, classpath@, main_class@];
        proof {
            assert(string_views(jvm_args@).take(jvm_args@.len() as int) =~= string_views(jvm_args@));
            assert(string_views(args@) =~= head);
        }
        let mut j: usize = 0;
        while j < game_args.len()
            invariant
                j <= game_args@.len(),
                string_views(args@) == head + string_views(game_args@).take(j as int),
            decreases game_args@.len() - j,
        {
            let ghost prev = string_views(args@);
            args.push(game_args[j].clone());
            proof {
                assert(string_views(args@) =~= prev.push(game_args@[j as int]@));
                assert(string_views(game_args@).take(j + 1) =~= string_views(game_args@).take(j as int).push(game_args@[j as int]@));
                assert(string_views(args@) =~= head + string_views(game_args@).take(j + 1));
            }
            j = j + 1;
        }
        proof {
            assert(string_views(game_args@).take(game_args@.len() as int) =~= string_views(game_args@));
        }
        GameCommand { program: java.to_owned(), args, working_dir: join_path(instance_dir, "game") }
    }

    /// What a started launch reports: success, the process id, and the Java
    /// it ran on.
    pub fn launched(game_version: &str, pid: u32, java: String) -> (r: LaunchResult)
        ensures
            r.success,
            r.pid == Some(pid),
            r.exit_code is None,
            r.message@ == "Minecraft "@ + game_version@ + " launched (PID "@ + decimal(pid as nat) + ")"@,
            r.java_path == Some(java),
    {
        let mut t = chars_of("Minecraft ");
        extend_str(&mut t, game_version);
        extend_str(&mut t, " launched (PID ");
        extend_chars(&mut t, &decimal_chars(pid as u64));
        extend_str(&mut t, ")");
        LaunchResult { success: true, pid: Some(pid), exit_code: None, message: string_from_chars(&t), java_path: Some(java) }
    }
}

/// No `$` in a text.
pub open spec fn no_dollar(t: Seq<char>) -> bool {
    forall|i: int| 0 <= i < t.len() ==> t[i] != '$'
}

/// A key that can stand in a placeholder: no `$` and no `}`.
pub open spec fn plain_key(k: Seq<char>) -> bool {
    forall|i: int| 0 <= i < k.len() ==> k[i] != '$' && k[i] != '}'
}

proof fn lemma_replace_without_dollar(t: Seq<char>, pat: Seq<char>, rep: Seq<char>)
    requires
        pat.len() > 0,
        pat[0] == '$',
        no_dollar(t),
    ensures
        replace_all(t, pat, rep) == t,
    decreases t.len(),
{
    if t.len() > 0 {
        if pat.len() <= t.len() {
            assert(t.subrange(0, pat.len() as int)[0] == t[0]);
        }
        assert(!starts_with(t, pat));
        lemma_replace_without_dollar(t.drop_first(), pat, rep);
        assert(seq![t[0]] + t.drop_first() =~= t);
    }
}

proof fn lemma_placeholder_shape(k: Seq<char>)
    requires
        plain_key(k),
    ensures
        placeholder(k).len() == k.len() + 3,
        placeholder(k)[0] == '$',
        placeholder(k).last() == '}',
        forall|i: int| 1 <= i < placeholder(k).len() ==> placeholder(k)[i] != '$',
        forall|i: int| 0 <= i < placeholder(k).len() - 1 ==> placeholder(k)[i] != '}',
{
    reveal_strlit("${");
    reveal_strlit("}");
    let p = placeholder(k);
    assert forall|i: int| 1 <= i < p.len() implies p[i] != '$' by {
        if 2 <= i < p.len() - 1 {
            assert(p[i] == k[i - 2]);
        }
    }
    assert forall|i: int| 0 <= i < p.len() - 1 implies p[i] != '}' by {
        if 2 <= i {
            assert(p[i] == k[i - 2]);
        }
    }
}

proof fn lemma_placeholder_injective(a: Seq<char>, b: Seq<char>)
    requires
        placeholder(a) == placeholder(b),
    ensures
        a == b,
{
    reveal_strlit("${");
    reveal_strlit("}");
    assert(placeholder(a).subrange(2, placeholder(a).len() - 1) =~= a);
    assert(placeholder(b).subrange(2, placeholder(b).len() - 1) =~= b);
}

proof fn lemma_replace_placeholder(k: Seq<char>, pk: Seq<char>, rep: Seq<char>)
    requires
        plain_key(k),
        plain_key(pk),
    ensures
        replace_all(placeholder(k), placeholder(pk), rep) == if k == pk {
            rep
        } else {
            placeholder(k)
        },
{
    let s = placeholder(k);
    let pat = placeholder(pk);
    lemma_placeholder_shape(k);
    lemma_placeholder_shape(pk);
    if starts_with(s, pat) {
        assert(s.subrange(0, pat.len() as int)[pat.len() - 1] == '}');
        assert(s[pat.len() - 1] == '}');
        assert(pat.len() == s.len());
        assert(s.subrange(0, s.len() as int) =~= s);
        lemma_placeholder_injective(k, pk);
        assert(s.subrange(pat.len() as int, s.len() as int) =~= Seq::<char>::empty());
        assert(replace_all(Seq::<char>::empty(), pat, rep) == Seq::<char>::empty());
        assert(replace_all(s, pat, rep) == rep + replace_all(s.subrange(pat.len() as int, s.len() as int), pat, rep));
        assert(rep + Seq::<char>::empty() =~= rep);
    } else {
        if k == pk {
            assert(s.subrange(0, s.len() as int) =~= s);
        }
        assert(no_dollar(s.drop_first()));
        lemma_replace_without_dollar(s.drop_first(), pat, rep);
        assert(replace_all(s, pat, rep) == seq![s[0]] + replace_all(s.drop_first(), pat, rep));
        assert(seq![s[0]] + s.drop_first() =~= s);
    }
}

proof fn lemma_substituted_unchanged(k: Seq<char>, tokens: Seq<(Seq<char>, Seq<char>)>)
    requires
        plain_key(k),
        forall|j: int| 0 <= j < tokens.len() ==> plain_key(#[trigger] tokens[j].0) && tokens[j].0 != k,
    ensures
        substituted(placeholder(k), tokens) == placeholder(k),
    decreases tokens.len(),
{
    if tokens.len() > 0 {
        lemma_substituted_unchanged(k, tokens.drop_last());
        lemma_replace_placeholder(k, tokens.last().0, tokens.last().1);
    }
}

proof fn lemma_substituted_value(k: Seq<char>, tokens: Seq<(Seq<char>, Seq<char>)>, m: int)
    requires
        0 <= m < tokens.len(),
        tokens[m].0 == k,
        no_dollar(tokens[m].1),
        forall|j: int| 0 <= j < tokens.len() ==> plain_key(#[trigger] tokens[j].0),
        forall|j: int| 0 <= j < m ==> #[trigger] tokens[j].0 != k,
    ensures
        substituted(placeholder(k), tokens) == tokens[m].1,
    decreases tokens.len(),
{
    let last = tokens.len() - 1;
    assert(plain_key(tokens[m].0));
    if m == last {
        let front = tokens.drop_last();
        assert forall|j: int| 0 <= j < front.len() implies plain_key(#[trigger] front[j].0) && front[j].0 != k by {
            assert(front[j] == tokens[j]);
        }
        lemma_substituted_unchanged(k, front);
        lemma_replace_placeholder(k, k, tokens[m].1);
    } else {
        let front = tokens.drop_last();
        assert forall|j: int| 0 <= j < front.len() implies plain_key(#[trigger] front[j].0) by {
            assert(front[j] == tokens[j]);
        }
        assert forall|j: int| 0 <= j < m implies #[trigger] front[j].0 != k by {
            assert(front[j] == tokens[j]);
        }
        assert(front[m] == tokens[m]);
        lemma_substituted_value(k, front, m);
        assert(plain_key(tokens[last].0));
        lemma_placeholder_shape(tokens[last].0);
        lemma_replace_without_dollar(tokens[m].1, placeholder(tokens[last].0), tokens[last].1);
    }
}

/// The placeholders of a launch request stand for the request's own
/// values: wherever an argument is exactly `${assets_index_name}` the
/// command line gets the manifest's asset index id, `${version_name}` the
/// manifest's version id, `${game_directory}` the game directory,
/// `${assets_root}` the assets directory and `${natives_directory}` the
/// natives directory (each when that value holds no `$`, which a later
/// placeholder could otherwise rewrite).
pub proof fn law_request_placeholders(
    args: Seq<Seq<char>>,
    info: ManifestVersionInfo,
    req: LaunchRequest,
    game_dir: Seq<char>,
    assets_dir: Seq<char>,
    natives_dir: Seq<char>,
    classpath: Seq<char>,
    k: int,
)
    requires
        0 <= k < args.len(),
    ensures
        ({
            let out = all_substituted(args, request_tokens(info, req, game_dir, assets_dir, natives_dir, classpath));
            &&& args[k] == "${assets_index_name}"@ && no_dollar(info.asset_index.id@) ==> out[k] == info.asset_index.id@
            &&& args[k] == "${version_name}"@ && no_dollar(info.id@) ==> out[k] == info.id@
            &&& args[k] == "${game_directory}"@ && no_dollar(game_dir) ==> out[k] == game_dir
            &&& args[k] == "${assets_root}"@ && no_dollar(assets_dir) ==> out[k] == assets_dir
            &&& args[k] == "${natives_directory}"@ && no_dollar(natives_dir) ==> out[k] == natives_dir
        }),
{
    reveal_strlit("${");
    reveal_strlit("}");
    reveal_strlit("auth_player_name");
    reveal_strlit("auth_uuid");
    reveal_strlit("auth_access_token");
    reveal_strlit("clientid");
    reveal_strlit("auth_xuid");
    reveal_strlit("version_name");
    reveal_strlit("version_type");
    reveal_strlit("game_directory");
    reveal_strlit("assets_root");
    reveal_strlit("assets_index_name");
    reveal_strlit("launcher_name");
    reveal_strlit("launcher_version");
    reveal_strlit("natives_directory");
    reveal_strlit("resolution_width");
    reveal_strlit("resolution_height");
    reveal_strlit("classpath");
    reveal_strlit("${assets_index_name}");
    reveal_strlit("${version_name}");
    reveal_strlit("${game_directory}");
    reveal_strlit("${assets_root}");
    reveal_strlit("${natives_directory}");
    let toks = request_tokens(info, req, game_dir, assets_dir, natives_dir, classpath);
    assert forall|j: int| 0 <= j < toks.len() implies plain_key(#[trigger] toks[j].0) by {
        assert(0 <= j < 16);
    }
    if args[k] == "${assets_index_name}"@ && no_dollar(info.asset_index.id@) {
        assert("${assets_index_name}"@ =~= placeholder("assets_index_name"@));
        assert("auth_access_token"@[1] != "assets_index_name"@[1]);
        assert forall|j: int| 0 <= j < 9 implies #[trigger] toks[j].0 != "assets_index_name"@ by {
            if j == 2 {
                assert(toks[j].0[1] != "assets_index_name"@[1]);
            }
        }
        lemma_substituted_value("assets_index_name"@, toks, 9);
    }
    if args[k] == "${version_name}"@ && no_dollar(info.id@) {
        assert("${version_name}"@ =~= placeholder("version_name"@));
        lemma_substituted_value("version_name"@, toks, 5);
    }
    if args[k] == "${game_directory}"@ && no_dollar(game_dir) {
        assert("${game_directory}"@ =~= placeholder("game_directory"@));
        lemma_substituted_value("game_directory"@, toks, 7);
    }
    if args[k] == "${assets_root}"@ && no_dollar(assets_dir) {
        assert("${assets_root}"@ =~= placeholder("assets_root"@));
        lemma_substituted_value("assets_root"@, toks, 8);
    }
    if args[k] == "${natives_directory}"@ && no_dollar(natives_dir) {
        assert("${natives_directory}"@ =~= placeholder("natives_directory"@));
        assert forall|j: int| 0 <= j < 12 implies #[trigger] toks[j].0 != "natives_directory"@ by {
            if j == 2 {
                assert(toks[j].0[1] != "natives_directory"@[1]);
            }
            if j == 9 {
                assert(toks[j].0[0] != "natives_directory"@[0]);
            }
        }
        lemma_substituted_value("natives_directory"@, toks, 12);
    }
}

} // verus!
