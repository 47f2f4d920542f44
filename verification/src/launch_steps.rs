//! The decisions of a launch between its downloads: which Java runs the
//! game, which loader is installed, the checks that stop a launch with a
//! clear reason, and the command line of the game process.

use vstd::prelude::*;
use crate::minecraft::java::{
    at_least_all, install_view, installs_of, last_max_index, required_java, JavaManager,
    JavaProbe,
};
use crate::paths::{join, join_path};
use crate::text::{chars_of, contains, contains_chars};

verus! {

/// The Java that runs the game.
pub enum JavaChoice {
    /// The executable configured for the instance.
    Configured(String),
    /// A detected installation that is new enough.
    Detected(String),
    /// None is there: install this major version first.
    Provision(u32),
}

/// How the mod loader of an instance is installed.
pub enum LoaderStage {
    /// Nothing to install.
    Vanilla,
    /// From the meta service at this URL.
    Meta(String),
    /// Not supported; the launch stops with this message.
    Unsupported(String),
}

/// The executable of a configured Java: the path itself, or its
/// `bin/java` (`bin/java.exe` on Windows) when it names a directory.
pub open spec fn configured_java(path: Seq<char>, is_dir: bool, windows: bool) -> Seq<char> {
    if is_dir {
        join(
            join(path, "bin"@),
            if windows {
                "java.exe"@
            } else {
                "java"@
            },
        )
    } else {
        path
    }
}

/// The executable of a configured Java.
pub fn java_from_setting(path: &str, is_dir: bool, windows: bool) -> (r: String)
    ensures
        r@ == configured_java(path@, is_dir, windows),
{
    proof {
        reveal_strlit("bin");
        reveal_strlit("java.exe");
        reveal_strlit("java");
    }
    if is_dir {
        let bin = join_path(path, "bin");
        join_path(
            bin.as_str(),
            if windows {
                "java.exe"
            } else {
                "java"
            },
        )
    } else {
        path.to_owned()
    }
}

/// The Java major version a launch needs: the one the manifest names, or
/// else the one the game version calls for.
pub fn required_major(manifest_major: Option<u32>, game_version: &str) -> (r: u32)
    ensures
        r == match manifest_major {
            Some(m) => m,
            None => required_java(game_version@),
        },
{
    match manifest_major {
        Some(m) => m,
        None => JavaManager::required_for_minecraft(game_version),
    }
}

/// The Java that runs the game: the configured one (given with whether it
/// names a directory), else the newest detected one of at least
/// `required`, else one to install.
pub fn choose_java(
    configured: Option<(String, bool)>,
    windows: bool,
    required: u32,
    probes: &[JavaProbe],
) -> (r: JavaChoice)
    ensures
        match configured {
            Some((p, d)) => r matches JavaChoice::Configured(e) && e@ == configured_java(
                p@,
                d,
                windows,
            ),
            None => {
                let c = at_least_all(installs_of(probes@), required);
                &&& c.len() == 0 ==> r == JavaChoice::Provision(required)
                &&& c.len() > 0 ==> (r matches JavaChoice::Detected(e) && e@ == c[last_max_index(
                    c,
                    c.len() as int,
                )].0)
            },
        },
{
    match configured {
        Some((p, d)) => JavaChoice::Configured(java_from_setting(p.as_str(), d, windows)),
        None => match JavaManager::find_compatible(probes, required) {
            Some(j) => {
                proof {
                    assert(install_view(j).0 == j.path@);
                }
                JavaChoice::Detected(j.path)
            },
            None => JavaChoice::Provision(required),
        },
    }
}

/// The Java to use after an install was attempted: its executable, or why
/// the launch stops.
pub fn provisioned_java(outcome: Result<Option<String>, String>) -> (r: Result<String, String>)
    ensures
        match outcome {
            Ok(Some(p)) => r == Ok::<String, String>(p),
            Ok(None) => r matches Err(m) && m@
                == "Java installation completed but runtime not found"@,
            Err(e) => r matches Err(m) && m@ == "Java install failed: "@ + e@,
        },
{
    match outcome {
        Ok(Some(p)) => Ok(p),
        Ok(None) => Err("Java installation completed but runtime not found".to_owned()),
        Err(e) => {
            let mut m = "Java install failed: ".to_owned();
            m.append(e.as_str());
            Err(m)
        },
    }
}

/// How an instance's loader is installed.
pub open spec fn loader_stage_of(loader: Seq<char>) -> (Seq<char>, Seq<char>) {
    if loader == "fabric"@ {
        ("meta"@, "https://meta.fabricmc.net/v2"@)
    } else if loader == "quilt"@ {
        ("meta"@, "https://meta.quiltmc.org/v3"@)
    } else if loader == "forge"@ {
        (
            "unsupported"@,
            "Forge is not supported by the terminal launcher yet \u{2014} use vanilla, fabric or quilt"@,
        )
    } else {
        ("vanilla"@, ""@)
    }
}

/// The view of a loader stage, in the form `loader_stage_of` gives.
pub open spec fn stage_view(s: LoaderStage) -> (Seq<char>, Seq<char>) {
    match s {
        LoaderStage::Vanilla => ("vanilla"@, ""@),
        LoaderStage::Meta(u) => ("meta"@, u@),
        LoaderStage::Unsupported(m) => ("unsupported"@, m@),
    }
}

/// How an instance's loader is installed.
pub fn loader_stage(loader: &str) -> (r: LoaderStage)
    ensures
        stage_view(r) == loader_stage_of(loader@),
{
    proof {
        reveal_strlit("fabric");
        reveal_strlit("quilt");
        reveal_strlit("forge");
        assert("quilt"@ != "fabric"@) by {
            assert("quilt"@.len() != "fabric"@.len());
        }
        assert("forge"@ != "fabric"@) by {
            assert("forge"@.len() != "fabric"@.len());
        }
        assert("forge"@ != "quilt"@) by {
            assert("forge"@[0] != "quilt"@[0]);
        }
    }
    if crate::text::str_eq(loader, "fabric") {
        LoaderStage::Meta("https://meta.fabricmc.net/v2".to_owned())
    } else if crate::text::str_eq(loader, "quilt") {
        LoaderStage::Meta("https://meta.quiltmc.org/v3".to_owned())
    } else if crate::text::str_eq(loader, "forge") {
        LoaderStage::Unsupported(
            "Forge is not supported by the terminal launcher yet \u{2014} use vanilla, fabric or quilt".to_owned(),
        )
    } else {
        LoaderStage::Vanilla
    }
}

/// Whether the classpath holds a Fabric or Quilt loader jar.
pub open spec fn has_loader_jar(classpath: Seq<char>) -> bool {
    contains(classpath, "fabric-loader"@) || contains(classpath, "quilt-loader"@)
}

/// A Fabric or Quilt launch stops when no loader jar reached the
/// classpath; otherwise the launch goes on.
pub fn check_loader_classpath(loader: &str, classpath: &str) -> (r: Result<(), String>)
    ensures
        ((loader@ == "fabric"@ || loader@ == "quilt"@) && !has_loader_jar(classpath@)) ==> (r matches Err(
            m,
        ) && m@ == loader@ + " loader jar missing from classpath \u{2014} install failed silently"@),
        !((loader@ == "fabric"@ || loader@ == "quilt"@) && !has_loader_jar(classpath@)) ==> r is Ok,
{
    let cp = chars_of(classpath);
    let found = contains_chars(&cp, &chars_of("fabric-loader")) || contains_chars(
        &cp,
        &chars_of("quilt-loader"),
    );
    let modded = crate::text::str_eq(loader, "fabric") || crate::text::str_eq(loader, "quilt");
    if modded && !found {
        let mut m = loader.to_owned();
        m.append(" loader jar missing from classpath \u{2014} install failed silently");
        Err(m)
    } else {
        Ok(())
    }
}

/// The client jar check: a published SHA-1 that the jar does not match
/// stops the launch.
pub fn check_client_jar(expected_sha1: &str, matches: bool) -> (r: Result<(), String>)
    ensures
        (expected_sha1@.len() > 0 && !matches) ==> (r matches Err(m) && m@
            == "Minecraft jar failed its SHA1 check \u{2014} delete it and relaunch to re-download"@),
        !(expected_sha1@.len() > 0 && !matches) ==> r is Ok,
{
    if expected_sha1.unicode_len() > 0 && !matches {
        Err(
            "Minecraft jar failed its SHA1 check \u{2014} delete it and relaunch to re-download".to_owned(),
        )
    } else {
        Ok(())
    }
}

/// The arguments of the game process: the JVM arguments, the main class,
/// then the game arguments.
pub fn launch_argv(jvm_args: &[String], main_class: &str, game_args: &[String]) -> (r: Vec<String>)
    ensures
        r@.map_values(|s: String| s@) == jvm_args@.map_values(|s: String| s@).push(main_class@)
            + game_args@.map_values(|s: String| s@),
{
    let mut out: Vec<String> = Vec::new();
    let mut i: usize = 0;
    while i < jvm_args.len()
        invariant
            i <= jvm_args@.len(),
            out@.map_values(|s: String| s@) == jvm_args@.subrange(0, i as int).map_values(
                |s: String| s@,
            ),
        decreases jvm_args@.len() - i,
    {
        let ghost before = out@;
        let x = jvm_args[i].clone();
        out.push(x);
        proof {
            assert(out@.map_values(|s: String| s@) =~= before.map_values(|s: String| s@).push(
                jvm_args@[i as int]@,
            ));
            assert(jvm_args@.subrange(0, i + 1).map_values(|s: String| s@) =~= jvm_args@.subrange(
                0,
                i as int,
            ).map_values(|s: String| s@).push(jvm_args@[i as int]@));
        }
        i = i + 1;
    }
    let ghost before_main = out@;
    out.push(main_class.to_owned());
    let mut j: usize = 0;
    proof {
        assert(jvm_args@.subrange(0, jvm_args@.len() as int) =~= jvm_args@);
        assert(out@.map_values(|s: String| s@) =~= jvm_args@.map_values(|s: String| s@).push(
            main_class@,
        ) + game_args@.subrange(0, 0).map_values(|s: String| s@));
    }
    while j < game_args.len()
        invariant
            j <= game_args@.len(),
            out@.map_values(|s: String| s@) == jvm_args@.map_values(|s: String| s@).push(
                main_class@,
            ) + game_args@.subrange(0, j as int).map_values(|s: String| s@),
        decreases game_args@.len() - j,
    {
        let ghost before = out@;
        let x = game_args[j].clone();
        out.push(x);
        proof {
            assert(out@.map_values(|s: String| s@) =~= before.map_values(|s: String| s@).push(
                game_args@[j as int]@,
            ));
            assert(game_args@.subrange(0, j + 1).map_values(|s: String| s@) =~= game_args@.subrange(
                0,
                j as int,
            ).map_values(|s: String| s@).push(game_args@[j as int]@));
            assert(out@.map_values(|s: String| s@) =~= jvm_args@.map_values(|s: String| s@).push(
                main_class@,
            ) + game_args@.subrange(0, j + 1).map_values(|s: String| s@));
        }
        j = j + 1;
    }
    proof {
        assert(game_args@.subrange(0, game_args@.len() as int) =~= game_args@);
    }
    out
}

/// The arguments that still hold a `${` placeholder, in order.
pub open spec fn unresolved(args: Seq<Seq<char>>) -> Seq<Seq<char>>
    decreases args.len(),
{
    if args.len() == 0 {
        Seq::empty()
    } else if contains(args.last(), "${"@) {
        unresolved(args.drop_last()).push(args.last())
    } else {
        unresolved(args.drop_last())
    }
}

/// The arguments left with an unresolved placeholder, to be reported.
pub fn unresolved_args(args: &[String]) -> (r: Vec<String>)
    ensures
        r@.map_values(|s: String| s@) == unresolved(args@.map_values(|s: String| s@)),
{
    let ghost all = args@.map_values(|s: String| s@);
    let mut out: Vec<String> = Vec::new();
    let mut i: usize = 0;
    let pat = chars_of("${");
    while i < args.len()
        invariant
            i <= args@.len(),
            all == args@.map_values(|s: String| s@),
            pat@ == "${"@,
            out@.map_values(|s: String| s@) == unresolved(all.subrange(0, i as int)),
        decreases args@.len() - i,
    {
        proof {
            assert(all.subrange(0, i + 1).drop_last() =~= all.subrange(0, i as int));
            assert(all.subrange(0, i + 1).last() == args@[i as int]@);
        }
        if contains_chars(&chars_of(args[i].as_str()), &pat) {
            let ghost before = out@;
            out.push(args[i].clone());
            proof {
                assert(out@.map_values(|s: String| s@) =~= before.map_values(|s: String| s@).push(
                    args@[i as int]@,
                ));
            }
        }
        i = i + 1;
    }
    proof {
        assert(all.subrange(0, args@.len() as int) =~= all);
    }
    out
}

} // verus!
