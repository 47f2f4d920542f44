//! The command line that launches an instance: JVM arguments, game
//! arguments and main class, with every launch token substituted.

use vstd::prelude::*;
use crate::argus::backend::{BackendBridge, string_views};
use crate::auth::{Account, offline_uuid, offline_uuid_of};
use crate::instances::InstanceConfig;
use crate::minecraft::arguments::{ArgumentBuilder, collected, pair_views, substituted};
use crate::minecraft::manifest::ManifestVersionInfo;
use crate::minecraft::optimization::{OptimizationProfile, memory_fits, profile_args};
use crate::paths::{join, join_path};
use crate::text::{decimal, decimal_chars, string_from_chars, str_eq};

verus! {

/// Whether `v` holds the argument `a`.
pub open spec fn has_arg(v: Seq<Seq<char>>, a: Seq<char>) -> bool {
    exists|i: int| 0 <= i < v.len() && #[trigger] v[i] == a
}

/// The game arguments of a manifest without an arguments block.
pub open spec fn legacy_game_args() -> Seq<Seq<char>> {
    seq![
        "--username"@, "${auth_player_name}"@,
        "--version"@, "${version_name}"@,
        "--gameDir"@, "${game_directory}"@,
        "--assetsDir"@, "${assets_root}"@,
        "--assetIndex"@, "${assets_index_name}"@,
        "--uuid"@, "${auth_uuid}"@,
        "--accessToken"@, "${auth_access_token}"@,
        "--userType"@, "${user_type}"@,
    ]
}

/// The flags every launch needs, with their values.
pub open spec fn essential_args() -> Seq<(Seq<char>, Seq<char>)> {
    seq![
        ("--username"@, "${auth_player_name}"@),
        ("--version"@, "${version_name}"@),
        ("--gameDir"@, "${game_directory}"@),
        ("--assetsDir"@, "${assets_root}"@),
        ("--assetIndex"@, "${assets_index_name}"@),
        ("--uuid"@, "${auth_uuid}"@),
        ("--accessToken"@, "${auth_access_token}"@),
    ]
}

/// `g` with each essential flag whose flag is missing appended with its
/// value, in order.
pub open spec fn with_essentials(g: Seq<Seq<char>>, e: Seq<(Seq<char>, Seq<char>)>) -> Seq<Seq<char>>
    decreases e.len(),
{
    if e.len() == 0 {
        g
    } else {
        let p = with_essentials(g, e.drop_last());
        if has_arg(p, e.last().0) {
            p
        } else {
            p.push(e.last().0).push(e.last().1)
        }
    }
}

/// The game directory: the instance's own setting, else the instance
/// directory itself.
pub open spec fn game_dir_of(inst: InstanceConfig, dir: Seq<char>) -> Seq<char> {
    match inst.game_dir {
        Some(g) => g@,
        None => dir,
    }
}

/// The assets directory: the instance's `minecraft_dir`, else
/// `assets` under the instance directory.
pub open spec fn assets_dir_of(inst: InstanceConfig, dir: Seq<char>) -> Seq<char> {
    match inst.minecraft_dir {
        Some(m) => m@,
        None => join(dir, "assets"@),
    }
}

/// The player name and uuid a launch uses: the active account's, else
/// `Steve` with the nil uuid.
pub open spec fn player_of(account: Option<Account>) -> (Seq<char>, Seq<char>) {
    match account {
        Some(a) => (a.name@, offline_uuid_of(a.name@)),
        None => ("Steve"@, "00000000-0000-0000-0000-000000000000"@),
    }
}

/// What separates classpath entries on the system `os` names: `;` on
/// Windows, `:` elsewhere.
pub open spec fn classpath_separator(os: Seq<char>) -> Seq<char> {
    if os == "windows"@ {
        ";"@
    } else {
        ":"@
    }
}

/// The classpath separator for the system `os` names.
pub fn separator_for(os: &str) -> (r: String)
    ensures
        r@ == classpath_separator(os@),
{
    if crate::text::str_eq(os, "windows") {
        ";".to_owned()
    } else {
        ":".to_owned()
    }
}

/// Thirty-two zeros: the access token of an offline launch.
pub open spec fn zero_token() -> Seq<char> {
    Seq::new(32, |i: int| '0')
}

/// Every launch token with its value.
pub open spec fn launch_tokens(
    vi: ManifestVersionInfo,
    inst: InstanceConfig,
    dir: Seq<char>,
    classpath: Seq<char>,
    account: Option<Account>,
    os: Seq<char>,
) -> Seq<(Seq<char>, Seq<char>)> {
    let (name, uuid) = player_of(account);
    seq![
        ("auth_player_name"@, name),
        ("auth_uuid"@, uuid),
        ("auth_access_token"@, zero_token()),
        ("clientid"@, uuid),
        ("auth_xuid"@, uuid),
        ("user_type"@, "msa"@),
        ("user_properties"@, "{}"@),
        ("version_name"@, vi.id@),
        ("version_type"@, vi.version_type@),
        ("game_directory"@, game_dir_of(inst, dir)),
        ("assets_root"@, assets_dir_of(inst, dir)),
        ("assets_index_name"@, vi.asset_index.id@),
        ("launcher_name"@, "EraLauncher"@),
        ("launcher_version"@, crate::argus::state::LAUNCHER_VERSION@),
        ("natives_directory"@, join(dir, "natives"@)),
        ("classpath"@, classpath),
        ("classpath_separator"@, classpath_separator(os)),
        ("resolution_width"@, decimal(match inst.resolution_width { Some(w) => w as nat, None => 854 })),
        ("resolution_height"@, decimal(match inst.resolution_height { Some(h) => h as nat, None => 480 })),
    ]
}

/// The JVM arguments before substitution: the profile's, the instance's
/// own, the language, the manifest's, and `-cp ${classpath}` when the list
/// has no `-cp` yet.
pub open spec fn raw_jvm_args(vi: ManifestVersionInfo, inst: InstanceConfig, profile: OptimizationProfile, os: Seq<char>) -> Seq<Seq<char>> {
    let base = profile_args(profile, inst.memory as int) + string_views(inst.custom_jvm_args@) + seq!["-Duser.language=en"@];
    let all = match vi.arguments {
        Some(a) => base + collected(a.jvm@, Seq::empty(), os),
        None => base,
    };
    if has_arg(all, "-cp"@) {
        all
    } else {
        all.push("-cp"@).push("${classpath}"@)
    }
}

/// The game arguments before substitution: the manifest's with any missing
/// essential flags appended, or the legacy list when it has none.
pub open spec fn raw_game_args(vi: ManifestVersionInfo, os: Seq<char>) -> Seq<Seq<char>> {
    let g = match vi.arguments {
        Some(a) => collected(a.game@, Seq::empty(), os),
        None => Seq::empty(),
    };
    if g.len() == 0 {
        legacy_game_args()
    } else {
        with_essentials(g, essential_args())
    }
}

pub open spec fn all_substituted(args: Seq<Seq<char>>, tokens: Seq<(Seq<char>, Seq<char>)>) -> Seq<Seq<char>> {
    args.map_values(|a: Seq<char>| substituted(a, tokens))
}

fn push_arg(v: &mut Vec<String>, s: &str)
    ensures
        string_views(final(v)@) == string_views(old(v)@).push(s@),
{
    v.push(s.to_owned());
    assert(string_views(v@) =~= string_views(old(v)@).push(s@));
}

fn append_args(v: &mut Vec<String>, t: Vec<String>)
    ensures
        string_views(final(v)@) == string_views(old(v)@) + string_views(t@),
{
    let mut i: usize = 0;
    while i < t.len()
        invariant
            i <= t@.len(),
            string_views(v@) == string_views(old(v)@) + string_views(t@.subrange(0, i as int)),
        decreases t@.len() - i,
    {
        let ghost before = v@;
        v.push(t[i].clone());
        proof {
            assert(string_views(v@) =~= string_views(before).push(t@[i as int]@));
            assert(string_views(t@.subrange(0, i + 1)) =~= string_views(t@.subrange(0, i as int)).push(t@[i as int]@));
        }
        i = i + 1;
    }
    assert(t@.subrange(0, t@.len() as int) =~= t@);
}

fn contains_arg(v: &Vec<String>, a: &str) -> (r: bool)
    ensures
        r == has_arg(string_views(v@), a@),
{
    let mut i: usize = 0;
    while i < v.len()
        invariant
            i <= v@.len(),
            forall|k: int| 0 <= k < i ==> #[trigger] v@[k]@ != a@,
        decreases v@.len() - i,
    {
        if str_eq(v[i].as_str(), a) {
            assert(string_views(v@)[i as int] == a@);
            return true;
        }
        i = i + 1;
    }
    proof {
        if has_arg(string_views(v@), a@) {
            let k = choose|k: int| 0 <= k < string_views(v@).len() && #[trigger] string_views(v@)[k] == a@;
            assert(v@[k]@ == a@);
        }
    }
    false
}

fn push_token(v: &mut Vec<(String, String)>, k: &str, val: String)
    ensures
        pair_views(final(v)@) == pair_views(old(v)@).push((k@, val@)),
{
    v.push((k.to_owned(), val));
    assert(pair_views(v@) =~= pair_views(old(v)@).push((k@, val@)));
}

fn token_list(
    version_info: &ManifestVersionInfo,
    instance: &InstanceConfig,
    instance_dir: &str,
    classpath: &str,
    account: &Option<Account>,
    os: &str,
) -> (r: Vec<(String, String)>)
    ensures
        pair_views(r@) == launch_tokens(*version_info, *instance, instance_dir@, classpath@, *account, os@),
{
    let game_dir = match &instance.game_dir {
        Some(g) => g.clone(),
        None => instance_dir.to_owned(),
    };
    let assets_dir = match &instance.minecraft_dir {
        Some(m) => m.clone(),
        None => join_path(instance_dir, "assets"),
    };
    let natives = join_path(instance_dir, "natives");
    let (name, uuid) = match account {
        Some(a) => (a.name.clone(), offline_uuid(a.name.as_str())),
        None => ("Steve".to_owned(), "00000000-0000-0000-0000-000000000000".to_owned()),
    };
    let mut zeros: Vec<char> = Vec::new();
    let mut z: usize = 0;
    while z < 32
        invariant
            z <= 32,
            zeros@ == Seq::new(z as nat, |i: int| '0'),
        decreases 32 - z,
    {
        zeros.push('0');
        z = z + 1;
        assert(zeros@ =~= Seq::new(z as nat, |i: int| '0'));
    }
    let width: u64 = match instance.resolution_width {
        Some(w) => w as u64,
        None => 854,
    };
    let height: u64 = match instance.resolution_height {
        Some(h) => h as u64,
        None => 480,
    };
    let mut tokens: Vec<(String, String)> = Vec::new();
    push_token(&mut tokens, "auth_player_name", name);
    push_token(&mut tokens, "auth_uuid", uuid.clone());
    push_token(&mut tokens, "auth_access_token", string_from_chars(&zeros));
    push_token(&mut tokens, "clientid", uuid.clone());
    push_token(&mut tokens, "auth_xuid", uuid);
    push_token(&mut tokens, "user_type", "msa".to_owned());
    push_token(&mut tokens, "user_properties", "{}".to_owned());
    push_token(&mut tokens, "version_name", version_info.id.clone());
    push_token(&mut tokens, "version_type", version_info.version_type.clone());
    push_token(&mut tokens, "game_directory", game_dir);
    push_token(&mut tokens, "assets_root", assets_dir);
    push_token(&mut tokens, "assets_index_name", version_info.asset_index.id.clone());
    push_token(&mut tokens, "launcher_name", "EraLauncher".to_owned());
    push_token(&mut tokens, "launcher_version", crate::argus::state::LAUNCHER_VERSION.to_owned());
    push_token(&mut tokens, "natives_directory", natives);
    push_token(&mut tokens, "classpath", classpath.to_owned());
    push_token(&mut tokens, "classpath_separator", separator_for(os));
    push_token(&mut tokens, "resolution_width", string_from_chars(&decimal_chars(width)));
    push_token(&mut tokens, "resolution_height", string_from_chars(&decimal_chars(height)));
    assert(pair_views(tokens@) =~= launch_tokens(*version_info, *instance, instance_dir@, classpath@, *account, os@));
    tokens
}

fn raw_jvm(
    version_info: &ManifestVersionInfo,
    instance: &InstanceConfig,
    optimization_profile: OptimizationProfile,
    os: &str,
) -> (r: Vec<String>)
    requires
        memory_fits(optimization_profile, instance.memory as int),
    ensures
        string_views(r@) == raw_jvm_args(*version_info, *instance, optimization_profile, os@),
{
    let mut jvm: Vec<String> = Vec::new();
    let profile_part = optimization_profile.jvm_args(instance.memory);
    proof {
        assert(string_views(profile_part@) =~= crate::minecraft::optimization::string_views(profile_part@));
    }
    append_args(&mut jvm, profile_part);
    let custom = instance.custom_jvm_args.clone();
    assert(custom@ =~= instance.custom_jvm_args@);
    append_args(&mut jvm, custom);
    push_arg(&mut jvm, "-Duser.language=en");
    let ghost base = string_views(jvm@);
    assert(base =~= profile_args(optimization_profile, instance.memory as int) + string_views(instance.custom_jvm_args@) + seq!["-Duser.language=en"@]);
    let none: Vec<(String, bool)> = Vec::new();
    assert(none@ =~= Seq::<(String, bool)>::empty());
    match &version_info.arguments {
        Some(a) => {
            let j = ArgumentBuilder::collect_args(a.jvm.as_slice(), none.as_slice(), os);
            proof {
                assert(string_views(j@) =~= crate::minecraft::arguments::string_views(j@));
            }
            append_args(&mut jvm, j);
        },
        None => {},
    }
    let ghost all = string_views(jvm@);
    assert(all == match version_info.arguments {
        Some(a) => base + collected(a.jvm@, Seq::empty(), os@),
        None => base,
    });
    if !contains_arg(&jvm, "-cp") {
        push_arg(&mut jvm, "-cp");
        push_arg(&mut jvm, "${classpath}");
    }
    jvm
}

fn raw_game(version_info: &ManifestVersionInfo, os: &str) -> (r: Vec<String>)
    ensures
        string_views(r@) == raw_game_args(*version_info, os@),
{
    let mut game: Vec<String> = Vec::new();
    let none: Vec<(String, bool)> = Vec::new();
    assert(none@ =~= Seq::<(String, bool)>::empty());
    match &version_info.arguments {
        Some(a) => {
            let g = ArgumentBuilder::collect_args(a.game.as_slice(), none.as_slice(), os);
            proof {
                assert(string_views(g@) =~= crate::minecraft::arguments::string_views(g@));
            }
            append_args(&mut game, g);
        },
        None => {},
    }
    assert(string_views(game@) =~= match version_info.arguments {
        Some(a) => collected(a.game@, Seq::empty(), os@),
        None => Seq::empty(),
    });
    if game.len() == 0 {
        push_arg(&mut game, "--username");
        push_arg(&mut game, "${auth_player_name}");
        push_arg(&mut game, "--version");
        push_arg(&mut game, "${version_name}");
        push_arg(&mut game, "--gameDir");
        push_arg(&mut game, "${game_directory}");
        push_arg(&mut game, "--assetsDir");
        push_arg(&mut game, "${assets_root}");
        push_arg(&mut game, "--assetIndex");
        push_arg(&mut game, "${assets_index_name}");
        push_arg(&mut game, "--uuid");
        push_arg(&mut game, "${auth_uuid}");
        push_arg(&mut game, "--accessToken");
        push_arg(&mut game, "${auth_access_token}");
        push_arg(&mut game, "--userType");
        push_arg(&mut game, "${user_type}");
        assert(string_views(game@) =~= legacy_game_args());
    } else {
        let ghost g0 = string_views(game@);
        let flags = ["--username", "--version", "--gameDir", "--assetsDir", "--assetIndex", "--uuid", "--accessToken"];
        let values = ["${auth_player_name}", "${version_name}", "${game_directory}", "${assets_root}", "${assets_index_name}", "${auth_uuid}", "${auth_access_token}"];
        let ghost es = essential_args();
        assert(es.len() == 7);
        assert(es.subrange(0, 0) =~= Seq::<(Seq<char>, Seq<char>)>::empty());
        let mut e: usize = 0;
        while e < 7
            invariant
                e <= 7,
                es == essential_args(),
                flags@.len() == 7,
                values@.len() == 7,
                forall|k: int| 0 <= k < 7 ==> (#[trigger] flags@[k])@ == es[k].0 && values@[k]@ == es[k].1,
                string_views(game@) == with_essentials(g0, es.subrange(0, e as int)),
            decreases 7 - e,
        {
            proof {
                assert(es.subrange(0, e + 1).drop_last() =~= es.subrange(0, e as int));
                assert(es.subrange(0, e + 1).last() == es[e as int]);
                assert(flags@[e as int]@ == es[e as int].0);
            }
            if !contains_arg(&game, flags[e]) {
                push_arg(&mut game, flags[e]);
                push_arg(&mut game, values[e]);
            }
            e = e + 1;
        }
        assert(es.subrange(0, 7) =~= es);
    }
    game
}

impl BackendBridge {
    /// The JVM arguments, game arguments and main class that launch an
    /// instance whose files live in `instance_dir`, for `os` (a manifest OS
    /// name) and the active account.
    pub fn build_launch_command(
        version_info: &ManifestVersionInfo,
        instance: &InstanceConfig,
        instance_dir: &str,
        classpath: &str,
        optimization_profile: OptimizationProfile,
        account: Option<Account>,
        os: &str,
    ) -> (r: (Vec<String>, Vec<String>, String))
        requires
            memory_fits(optimization_profile, instance.memory as int),
        ensures
            ({
                let tokens = launch_tokens(*version_info, *instance, instance_dir@, classpath@, account, os@);
                &&& string_views(r.0@) == all_substituted(raw_jvm_args(*version_info, *instance, optimization_profile, os@), tokens)
                &&& string_views(r.1@) == all_substituted(raw_game_args(*version_info, os@), tokens)
                &&& r.2@ == match version_info.main_class {
                    Some(m) => m@,
                    None => "net.minecraft.client.main.Main"@,
                }
            }),
    {
        let tokens = token_list(version_info, instance, instance_dir, classpath, &account, os);
        let ghost tv = launch_tokens(*version_info, *instance, instance_dir@, classpath@, account, os@);
        let jvm = raw_jvm(version_info, instance, optimization_profile, os);
        let game = raw_game(version_info, os);
        let jvm_out = ArgumentBuilder::substitute_tokens(jvm.as_slice(), tokens.as_slice());
        let game_out = ArgumentBuilder::substitute_tokens(game.as_slice(), tokens.as_slice());
        assert(string_views(jvm_out@) =~= all_substituted(raw_jvm_args(*version_info, *instance, optimization_profile, os@), tv));
        assert(string_views(game_out@) =~= all_substituted(raw_game_args(*version_info, os@), tv));
        let main_class = match &version_info.main_class {
            Some(m) => m.clone(),
            None => "net.minecraft.client.main.Main".to_owned(),
        };
        (jvm_out, game_out, main_class)
    }
}

} // verus!
