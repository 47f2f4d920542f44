//! Installing a Fabric or Quilt loader from its meta service: which URL to
//! ask, and which jars to fetch and put on the classpath according to the
//! profile the service returned. The application does the HTTP requests,
//! reads the profile into `LoaderMeta` and downloads what the plan lists.

use vstd::prelude::*;
use crate::argus::backend::{maven_jar, BackendBridge};
use crate::paths::{join, join_path};
use crate::text::{
    chars_of, contains, contains_chars, extend_chars, extend_str, string_from_chars,
    strip_trailing, strip_trailing_chars,
};

verus! {

/// A library entry of a loader profile.
pub struct MetaLibrary {
    /// Maven coordinate.
    pub name: String,
    /// The repository it comes from, if the profile names one.
    pub url: Option<String>,
}

/// The parts of a loader profile that installing reads.
pub struct LoaderMeta {
    /// `launcherMeta.mainClass.client`.
    pub main_class: Option<String>,
    /// `launcherMeta.libraries.common` followed by `.client`.
    pub libraries: Vec<MetaLibrary>,
    /// `loader.version`.
    pub loader_version: Option<String>,
    /// `loader.maven`.
    pub loader_maven: Option<String>,
    /// `intermediary.maven`.
    pub intermediary_maven: Option<String>,
}

/// One jar to have on disk.
pub struct LibraryFetch {
    /// The coordinate it was listed under.
    pub name: String,
    pub url: String,
    pub dest: String,
}

/// What installing a loader does.
pub struct LoaderPlan {
    pub main_class: String,
    /// The jars to fetch when missing, in order.
    pub fetches: Vec<LibraryFetch>,
    /// The jars to put on the classpath, each once, in first-seen order.
    pub classpath: Vec<String>,
    /// The directory, relative to the libraries, of the loader's versions.
    pub purge_dir: String,
    /// A version directory in `purge_dir` is kept when its name and this
    /// marker contain one another.
    pub keep_marker: String,
}

/// The profile request for a game version.
pub open spec fn meta_url(base: Seq<char>, game_version: Seq<char>) -> Seq<char> {
    strip_trailing(base, '/') + "/versions/loader/"@ + game_version
}

/// A jar's URL in a repository.
pub open spec fn repo_url(base: Seq<char>, rel: Seq<char>) -> Seq<char> {
    strip_trailing(base, '/') + "/"@ + rel
}

/// Whether the meta service is Quilt's.
pub open spec fn is_quilt(base: Seq<char>) -> bool {
    contains(base, "quilt"@)
}

/// The value of an optional field, or a default.
pub open spec fn or_default(v: Option<String>, d: Seq<char>) -> Seq<char> {
    match v {
        Some(s) => s@,
        None => d,
    }
}

/// The loader version the profile names, or the current default.
pub open spec fn loader_version_of(base: Seq<char>, m: LoaderMeta) -> Seq<char> {
    or_default(
        m.loader_version,
        if is_quilt(base) {
            "0.28.5"@
        } else {
            "0.19.3"@
        },
    )
}

/// The loader jar's coordinate.
pub open spec fn loader_coord(base: Seq<char>, m: LoaderMeta) -> Seq<char> {
    or_default(
        m.loader_maven,
        if is_quilt(base) {
            "org.quiltmc:quilt-loader:"@ + loader_version_of(base, m)
        } else {
            "net.fabricmc:fabric-loader:"@ + loader_version_of(base, m)
        },
    )
}

/// The mappings jar's coordinate.
pub open spec fn mapping_coord(base: Seq<char>, game_version: Seq<char>, m: LoaderMeta) -> Seq<
    char,
> {
    or_default(
        m.intermediary_maven,
        if is_quilt(base) {
            "org.quiltmc:hashed:"@ + game_version
        } else {
            "net.fabricmc:intermediary:"@ + game_version
        },
    )
}

/// The repository of the loader and mappings jars.
pub open spec fn loader_repo(base: Seq<char>) -> Seq<char> {
    if is_quilt(base) {
        "https://maven.quiltmc.org/repository/release/"@
    } else {
        "https://maven.fabricmc.net/"@
    }
}

/// A fetch by its coordinate, URL and destination.
pub open spec fn fetch_view(f: LibraryFetch) -> (Seq<char>, Seq<char>, Seq<char>) {
    (f.name@, f.url@, f.dest@)
}

/// The fetch of a coordinate from a repository, when it is a jar coordinate.
pub open spec fn fetch_of(coord: Seq<char>, repo: Seq<char>, libs: Seq<char>) -> Seq<
    (Seq<char>, Seq<char>, Seq<char>),
> {
    match maven_jar(coord) {
        Some(rel) => seq![(coord, repo_url(repo, rel), join(libs, rel))],
        None => Seq::empty(),
    }
}

/// The fetches of the profile's libraries, in order.
pub open spec fn library_fetches(libs: Seq<MetaLibrary>, dir: Seq<char>) -> Seq<
    (Seq<char>, Seq<char>, Seq<char>),
>
    decreases libs.len(),
{
    if libs.len() == 0 {
        Seq::empty()
    } else {
        let l = libs.last();
        library_fetches(libs.drop_last(), dir) + fetch_of(
            l.name@,
            or_default(l.url, "https://maven.fabricmc.net/"@),
            dir,
        )
    }
}

/// Every fetch of a loader install: the profile's libraries, then the
/// loader jar and the mappings jar.
pub open spec fn all_fetches(base: Seq<char>, game_version: Seq<char>, dir: Seq<char>, m: LoaderMeta) -> Seq<
    (Seq<char>, Seq<char>, Seq<char>),
> {
    library_fetches(m.libraries@, dir) + fetch_of(loader_coord(base, m), loader_repo(base), dir)
        + fetch_of(mapping_coord(base, game_version, m), loader_repo(base), dir)
}

/// The items of `s`, each once, in first-seen order.
pub open spec fn first_seen(s: Seq<Seq<char>>) -> Seq<Seq<char>>
    decreases s.len(),
{
    if s.len() == 0 {
        Seq::empty()
    } else {
        let p = first_seen(s.drop_last());
        if p.contains(s.last()) {
            p
        } else {
            p.push(s.last())
        }
    }
}

/// The destinations of some fetches.
pub open spec fn dests(f: Seq<(Seq<char>, Seq<char>, Seq<char>)>) -> Seq<Seq<char>> {
    f.map_values(|x: (Seq<char>, Seq<char>, Seq<char>)| x.2)
}

fn trimmed_slash(s: &str) -> (r: Vec<char>)
    ensures
        r@ == strip_trailing(s@, '/'),
{
    strip_trailing_chars(&chars_of(s), '/')
}

/// The loader profile request for a game version.
pub fn loader_meta_url(meta_base: &str, game_version: &str) -> (r: String)
    ensures
        r@ == meta_url(meta_base@, game_version@),
{
    let mut v = trimmed_slash(meta_base);
    extend_str(&mut v, "/versions/loader/");
    extend_str(&mut v, game_version);
    string_from_chars(&v)
}

fn push_fetch(
    fetches: &mut Vec<LibraryFetch>,
    coord: &str,
    repo: &str,
    libs_dir: &str,
)
    ensures
        final(fetches)@.map_values(|f: LibraryFetch| fetch_view(f)) == old(fetches)@.map_values(
            |f: LibraryFetch| fetch_view(f),
        ) + fetch_of(coord@, repo@, libs_dir@),
{
    proof {
        reveal_strlit("/");
    }
    match BackendBridge::maven_jar_path(coord) {
        Some(rel) => {
            let mut u = trimmed_slash(repo);
            u.push('/');
            extend_str(&mut u, rel.as_str());
            let url = string_from_chars(&u);
            let dest = join_path(libs_dir, rel.as_str());
            let ghost before = fetches@;
            fetches.push(LibraryFetch { name: coord.to_owned(), url, dest });
            proof {
                assert(u@ =~= repo_url(repo@, rel@));
                assert(fetches@.map_values(|f: LibraryFetch| fetch_view(f)) =~= before.map_values(
                    |f: LibraryFetch| fetch_view(f),
                ) + fetch_of(coord@, repo@, libs_dir@));
            }
        },
        None => {
            proof {
                assert(fetches@.map_values(|f: LibraryFetch| fetch_view(f)) =~= old(
                    fetches,
                )@.map_values(|f: LibraryFetch| fetch_view(f)) + fetch_of(
                    coord@,
                    repo@,
                    libs_dir@,
                ));
            }
        },
    }
}

fn first_seen_dests(fetches: &Vec<LibraryFetch>) -> (r: Vec<String>)
    ensures
        r@.map_values(|s: String| s@) == first_seen(
            dests(fetches@.map_values(|f: LibraryFetch| fetch_view(f))),
        ),
{
    let ghost all = dests(fetches@.map_values(|f: LibraryFetch| fetch_view(f)));
    let mut out: Vec<String> = Vec::new();
    let mut i: usize = 0;
    while i < fetches.len()
        invariant
            i <= fetches@.len(),
            all == dests(fetches@.map_values(|f: LibraryFetch| fetch_view(f))),
            out@.map_values(|s: String| s@) == first_seen(all.subrange(0, i as int)),
        decreases fetches@.len() - i,
    {
        let d = &fetches[i].dest;
        let ghost seen = out@.map_values(|s: String| s@);
        proof {
            assert(all.subrange(0, i + 1).drop_last() =~= all.subrange(0, i as int));
            assert(all.subrange(0, i + 1).last() == d@);
        }
        let mut j: usize = 0;
        let mut found = false;
        while j < out.len()
            invariant
                j <= out@.len(),
                seen == out@.map_values(|s: String| s@),
                found == exists|k: int| 0 <= k < j && #[trigger] seen[k] == d@,
            decreases out@.len() - j,
        {
            if crate::text::str_eq(out[j].as_str(), d.as_str()) {
                found = true;
            }
            proof {
                assert(seen[j as int] == out@[j as int]@);
            }
            j = j + 1;
        }
        proof {
            assert(found == seen.contains(d@));
        }
        if !found {
            out.push(d.clone());
            proof {
                assert(out@.map_values(|s: String| s@) =~= seen.push(d@));
            }
        }
        i = i + 1;
    }
    proof {
        assert(all.subrange(0, fetches@.len() as int) =~= all);
    }
    out
}

/// What installing the loader described by `meta` from the meta service at
/// `meta_base` does for `game_version`, with libraries kept in `libs_dir`.
pub fn loader_plan(meta_base: &str, game_version: &str, libs_dir: &str, meta: &LoaderMeta) -> (r:
    LoaderPlan)
    ensures
        r.main_class@ == or_default(
            meta.main_class,
            "net.fabricmc.loader.impl.launch.knot.KnotClient"@,
        ),
        r.fetches@.map_values(|f: LibraryFetch| fetch_view(f)) == all_fetches(
            meta_base@,
            game_version@,
            libs_dir@,
            *meta,
        ),
        r.classpath@.map_values(|s: String| s@) == first_seen(
            dests(all_fetches(meta_base@, game_version@, libs_dir@, *meta)),
        ),
        r.purge_dir@ == if is_quilt(meta_base@) {
            "org/quiltmc/quilt-loader"@
        } else {
            "net/fabricmc/fabric-loader"@
        },
        r.keep_marker@ == (if is_quilt(meta_base@) {
            "quilt-loader-"@
        } else {
            "fabric-loader-"@
        }) + loader_version_of(meta_base@, *meta),
{
    proof {
        reveal_strlit("quilt");
        reveal_strlit("");
    }
    let main_class = match &meta.main_class {
        Some(m) => m.clone(),
        None => "net.fabricmc.loader.impl.launch.knot.KnotClient".to_owned(),
    };
    let mut fetches: Vec<LibraryFetch> = Vec::new();
    let mut i: usize = 0;
    proof {
        assert(fetches@.map_values(|f: LibraryFetch| fetch_view(f)) =~= library_fetches(
            meta.libraries@.subrange(0, 0),
            libs_dir@,
        ));
    }
    while i < meta.libraries.len()
        invariant
            i <= meta.libraries@.len(),
            fetches@.map_values(|f: LibraryFetch| fetch_view(f)) == library_fetches(
                meta.libraries@.subrange(0, i as int),
                libs_dir@,
            ),
        decreases meta.libraries@.len() - i,
    {
        let lib = &meta.libraries[i];
        let repo = match &lib.url {
            Some(u) => u.clone(),
            None => "https://maven.fabricmc.net/".to_owned(),
        };
        proof {
            assert(meta.libraries@.subrange(0, i + 1).drop_last() =~= meta.libraries@.subrange(
                0,
                i as int,
            ));
        }
        push_fetch(&mut fetches, lib.name.as_str(), repo.as_str(), libs_dir);
        i = i + 1;
    }
    proof {
        assert(meta.libraries@.subrange(0, meta.libraries@.len() as int) =~= meta.libraries@);
    }
    let quilt = contains_chars(&chars_of(meta_base), &chars_of("quilt"));
    let version = match &meta.loader_version {
        Some(v) => v.clone(),
        None => if quilt {
            "0.28.5".to_owned()
        } else {
            "0.19.3".to_owned()
        },
    };
    let loader = match &meta.loader_maven {
        Some(c) => c.clone(),
        None => {
            let prefix = if quilt {
                "org.quiltmc:quilt-loader:"
            } else {
                "net.fabricmc:fabric-loader:"
            };
            crate::text::concat3(prefix, &chars_of(version.as_str()), "")
        },
    };
    let mapping = match &meta.intermediary_maven {
        Some(c) => c.clone(),
        None => {
            let prefix = if quilt {
                "org.quiltmc:hashed:"
            } else {
                "net.fabricmc:intermediary:"
            };
            crate::text::concat3(prefix, &chars_of(game_version), "")
        },
    };
    let repo = if quilt {
        "https://maven.quiltmc.org/repository/release/"
    } else {
        "https://maven.fabricmc.net/"
    };
    push_fetch(&mut fetches, loader.as_str(), repo, libs_dir);
    push_fetch(&mut fetches, mapping.as_str(), repo, libs_dir);
    proof {
        assert(loader@ =~= loader_coord(meta_base@, *meta));
        assert(mapping@ =~= mapping_coord(meta_base@, game_version@, *meta));
        assert(fetches@.map_values(|f: LibraryFetch| fetch_view(f)) =~= all_fetches(
            meta_base@,
            game_version@,
            libs_dir@,
            *meta,
        ));
    }
    let classpath = first_seen_dests(&fetches);
    let purge_dir = if quilt {
        "org/quiltmc/quilt-loader".to_owned()
    } else {
        "net/fabricmc/fabric-loader".to_owned()
    };
    let marker_prefix = if quilt {
        "quilt-loader-"
    } else {
        "fabric-loader-"
    };
    let keep_marker = crate::text::concat3(marker_prefix, &chars_of(version.as_str()), "");
    proof {
        assert(keep_marker@ =~= (if is_quilt(meta_base@) {
            "quilt-loader-"@
        } else {
            "fabric-loader-"@
        }) + loader_version_of(meta_base@, *meta));
    }
    LoaderPlan { main_class, fetches, classpath, purge_dir, keep_marker }
}

/// Whether an installed loader version directory is kept: its name and the
/// marker of the version being installed contain one another.
pub fn keep_loader_dir(dir_name: &str, marker: &str) -> (r: bool)
    ensures
        r == (contains(marker@, dir_name@) || contains(dir_name@, marker@)),
{
    let d = chars_of(dir_name);
    let m = chars_of(marker);
    contains_chars(&m, &d) || contains_chars(&d, &m)
}

/// The URL of the meta service of a loader, if it is installed from one.
pub fn loader_meta_base(loader: &str) -> (r: Option<&'static str>)
    ensures
        loader@ == "fabric"@ ==> (r matches Some(b) && b@ == "https://meta.fabricmc.net/v2"@),
        loader@ == "quilt"@ ==> (r matches Some(b) && b@ == "https://meta.quiltmc.org/v3"@),
        loader@ != "fabric"@ && loader@ != "quilt"@ ==> r is None,
{
    proof {
        reveal_strlit("fabric");
        reveal_strlit("quilt");
        assert("quilt"@ != "fabric"@) by {
            assert("quilt"@.len() != "fabric"@.len());
        }
    }
    if crate::text::str_eq(loader, "fabric") {
        Some("https://meta.fabricmc.net/v2")
    } else if crate::text::str_eq(loader, "quilt") {
        Some("https://meta.quiltmc.org/v3")
    } else {
        None
    }
}

} // verus!
