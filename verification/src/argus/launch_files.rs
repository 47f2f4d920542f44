//! The files a launch needs from a version manifest: which libraries (and
//! which of their native classifiers) to download and put on the class
//! path, which native jars to unpack and which of their entries, how
//! download failures are reported, and where each asset object lives.

use vstd::prelude::*;
use crate::argus::backend::{
    BackendBridge, classifier_rel_path, library_rel_path, natives_key_list, string_views,
};
use crate::minecraft::arguments::rules_allow;
use crate::minecraft::manifest::{Artifact, Library, ManifestVersionInfo, Rule};
use crate::paths::{file_name, join, path_file_name};
use crate::text::{chars_of, decimal, decimal_chars, ends_with, ends_with_chars, extend_chars, extend_str, str_eq, string_from_chars};

verus! {

/// The artifact a classifier list holds under `key` (the first one).
pub open spec fn classifier_for(cls: Seq<(String, Artifact)>, key: Seq<char>) -> Option<Artifact>
    decreases cls.len(),
{
    if cls.len() == 0 {
        None
    } else if cls[0].0@ == key {
        Some(cls[0].1)
    } else {
        classifier_for(cls.drop_first(), key)
    }
}

/// The first of `keys` that the classifier list holds, with its artifact.
pub open spec fn first_native(cls: Seq<(String, Artifact)>, keys: Seq<Seq<char>>) -> Option<(Seq<char>, Artifact)>
    decreases keys.len(),
{
    if keys.len() == 0 {
        None
    } else {
        match classifier_for(cls, keys[0]) {
            Some(a) => Some((keys[0], a)),
            None => first_native(cls, keys.drop_first()),
        }
    }
}

/// Whether a library applies on `os`.
pub open spec fn applies(l: Library, os: Seq<char>) -> bool {
    match l.rules {
        None => true,
        Some(rs) => rules_allow(rs@, Seq::empty(), os),
    }
}

/// A library's main artifact, when it has one with a URL.
pub open spec fn main_artifact(l: Library) -> Option<Artifact> {
    match l.downloads {
        Some(d) => match d.artifact {
            Some(a) => if a.url@.len() > 0 {
                Some(a)
            } else {
                None
            },
            None => None,
        },
        None => None,
    }
}

/// A library's native classifier for `os`/`arch`, when it has one.
pub open spec fn native_of(l: Library, os: Seq<char>, arch: Seq<char>) -> Option<(Seq<char>, Artifact)> {
    match l.downloads {
        Some(d) => first_native(d.classifiers@, natives_key_list(os, arch)),
        None => None,
    }
}

/// The downloads of one library, as (URL, path, label): its main artifact,
/// then its native classifier.
pub open spec fn library_downloads(l: Library, libs: Seq<char>, os: Seq<char>, arch: Seq<char>) -> Seq<(Seq<char>, Seq<char>, Seq<char>)> {
    if !applies(l, os) {
        Seq::empty()
    } else {
        (match main_artifact(l) {
            Some(a) => seq![(a.url@, join(libs, library_rel_path(l.name@)), l.name@)],
            None => Seq::empty(),
        }) + match native_of(l, os, arch) {
            Some((k, a)) => seq![(a.url@, join(libs, classifier_rel_path(l.name@, k)), l.name@ + ":"@ + k)],
            None => Seq::empty(),
        }
    }
}

/// The downloads of the first `n` libraries, in order.
pub open spec fn all_downloads(ls: Seq<Library>, n: nat, libs: Seq<char>, os: Seq<char>, arch: Seq<char>) -> Seq<(Seq<char>, Seq<char>, Seq<char>)>
    decreases n,
{
    if n == 0 {
        Seq::empty()
    } else {
        all_downloads(ls, (n - 1) as nat, libs, os, arch) + library_downloads(ls[n - 1], libs, os, arch)
    }
}

/// The views of (URL, path, label) triples.
pub open spec fn download_views(v: Seq<(String, String, String)>) -> Seq<(Seq<char>, Seq<char>, Seq<char>)> {
    v.map_values(|t: (String, String, String)| (t.0@, t.1@, t.2@))
}

/// The paths of (URL, path, label) triples.
pub open spec fn download_paths(v: Seq<(Seq<char>, Seq<char>, Seq<char>)>) -> Seq<Seq<char>> {
    v.map_values(|t: (Seq<char>, Seq<char>, Seq<char>)| t.1)
}

fn find_classifier(cls: &Vec<(String, Artifact)>, key: &str) -> (r: Option<usize>)
    ensures
        match classifier_for(cls@, key@) {
            None => r is None,
            Some(a) => r matches Some(i) && i < cls@.len() && cls@[i as int].1 == a,
        },
{
    let mut i: usize = 0;
    assert(cls@.skip(0) =~= cls@);
    while i < cls.len()
        invariant
            i <= cls@.len(),
            classifier_for(cls@.skip(i as int), key@) == classifier_for(cls@, key@),
        decreases cls@.len() - i,
    {
        assert(cls@.skip(i as int)[0] == cls@[i as int]);
        assert(cls@.skip(i as int).drop_first() =~= cls@.skip(i + 1));
        if str_eq(cls[i].0.as_str(), key) {
            return Some(i);
        }
        i = i + 1;
    }
    assert(cls@.skip(i as int) =~= Seq::<(String, Artifact)>::empty());
    None
}

fn find_native(cls: &Vec<(String, Artifact)>, keys: &Vec<String>) -> (r: Option<(usize, usize)>)
    ensures
        match first_native(cls@, string_views(keys@)) {
            None => r is None,
            Some((k, a)) => r matches Some((ki, ci)) && ki < keys@.len() && keys@[ki as int]@ == k && ci
                < cls@.len() && cls@[ci as int].1 == a,
        },
{
    let ghost kv = string_views(keys@);
    let mut j: usize = 0;
    assert(kv.skip(0) =~= kv);
    while j < keys.len()
        invariant
            j <= keys@.len(),
            kv == string_views(keys@),
            kv.len() == keys@.len(),
            first_native(cls@, kv.skip(j as int)) == first_native(cls@, kv),
        decreases keys@.len() - j,
    {
        assert(kv.skip(j as int)[0] == keys@[j as int]@);
        assert(kv.skip(j as int).drop_first() =~= kv.skip(j + 1));
        match find_classifier(cls, keys[j].as_str()) {
            Some(ci) => {
                return Some((j, ci));
            },
            None => {},
        }
        j = j + 1;
    }
    assert(kv.skip(j as int) =~= Seq::<Seq<char>>::empty());
    None
}

impl BackendBridge {
    /// The library downloads of a manifest for `os`/`arch`, as (URL, path,
    /// label), and the class path entries they give, in manifest order:
    /// for each library that applies, its main artifact (when it has a URL)
    /// and its first native classifier among the keys for the platform.
    pub fn library_plan(info: &ManifestVersionInfo, libs_dir: &str, os: &str, arch: &str) -> (r: (
        Vec<(String, String, String)>,
        Vec<String>,
    ))
        ensures
            download_views(r.0@) == all_downloads(info.libraries@, info.libraries@.len(), libs_dir@, os@, arch@),
            string_views(r.1@) == download_paths(all_downloads(info.libraries@, info.libraries@.len(), libs_dir@, os@, arch@)),
    {
        proof {
            reveal_strlit(":");
        }
        let keys = BackendBridge::natives_keys(os, arch);
        let ghost ls = info.libraries@;
        let mut out: Vec<(String, String, String)> = Vec::new();
        let mut paths: Vec<String> = Vec::new();
        let mut i: usize = 0;
        while i < info.libraries.len()
            invariant
                i <= ls.len(),
                ls == info.libraries@,
                string_views(keys@) == natives_key_list(os@, arch@),
                download_views(out@) == all_downloads(ls, i as nat, libs_dir@, os@, arch@),
                paths@.len() == out@.len(),
                forall|k: int| 0 <= k < paths@.len() ==> (#[trigger] paths@[k])@ == out@[k].1@,
            decreases ls.len() - i,
        {
            let lib = &info.libraries[i];
            let ghost before = download_views(out@);
            if BackendBridge::library_applies(&lib.rules, os) {
                match &lib.downloads {
                    Some(d) => {
                        match &d.artifact {
                            Some(a) => {
                                if a.url.unicode_len() > 0 {
                                    let p = BackendBridge::resolve_library_path(lib.name.as_str(), libs_dir);
                                    out.push((a.url.clone(), p.clone(), lib.name.clone()));
                                    paths.push(p);
                                }
                            },
                            None => {},
                        }
                        let ghost mid = download_views(out@);
                        match find_native(&d.classifiers, &keys) {
                            Some((ki, ci)) => {
                                let key = keys[ki].as_str();
                                let p = BackendBridge::resolve_classifier_path(lib.name.as_str(), libs_dir, key);
                                let mut label = chars_of(lib.name.as_str());
                                extend_str(&mut label, ":");
                                extend_str(&mut label, key);
                                out.push((d.classifiers[ci].1.url.clone(), p.clone(), string_from_chars(&label)));
                                paths.push(p);
                            },
                            None => {},
                        }
                    },
                    None => {},
                }
            }
            proof {
                assert(download_views(out@) =~= before + library_downloads(ls[i as int], libs_dir@, os@, arch@));
            }
            i = i + 1;
        }
        assert(string_views(paths@) =~= download_paths(download_views(out@)));
        (out, paths)
    }
}

/// The native jars of the first `n` libraries to unpack for `os`/`arch`:
/// for each library that applies, its first native classifier's path.
pub open spec fn native_jar_paths(ls: Seq<Library>, n: nat, libs: Seq<char>, os: Seq<char>, arch: Seq<char>) -> Seq<Seq<char>>
    decreases n,
{
    if n == 0 {
        Seq::empty()
    } else {
        let p = native_jar_paths(ls, (n - 1) as nat, libs, os, arch);
        let l = ls[n - 1];
        if applies(l, os) {
            match native_of(l, os, arch) {
                Some((k, _)) => p.push(join(libs, classifier_rel_path(l.name@, k))),
                None => p,
            }
        } else {
            p
        }
    }
}

impl BackendBridge {
    /// The native jars to unpack before a launch.
    pub fn native_jars(info: &ManifestVersionInfo, libs_dir: &str, os: &str, arch: &str) -> (r: Vec<String>)
        ensures
            string_views(r@) == native_jar_paths(info.libraries@, info.libraries@.len(), libs_dir@, os@, arch@),
    {
        let keys = BackendBridge::natives_keys(os, arch);
        let ghost ls = info.libraries@;
        let mut out: Vec<String> = Vec::new();
        let mut i: usize = 0;
        while i < info.libraries.len()
            invariant
                i <= ls.len(),
                ls == info.libraries@,
                string_views(keys@) == natives_key_list(os@, arch@),
                string_views(out@) == native_jar_paths(ls, i as nat, libs_dir@, os@, arch@),
            decreases ls.len() - i,
        {
            let lib = &info.libraries[i];
            let ghost before = out@;
            if BackendBridge::library_applies(&lib.rules, os) {
                match &lib.downloads {
                    Some(d) => match find_native(&d.classifiers, &keys) {
                        Some((ki, _)) => {
                            out.push(BackendBridge::resolve_classifier_path(lib.name.as_str(), libs_dir, keys[ki].as_str()));
                        },
                        None => {},
                    },
                    None => {},
                }
            }
            proof {
                assert(string_views(out@) =~= native_jar_paths(ls, (i + 1) as nat, libs_dir@, os@, arch@));
            }
            i = i + 1;
        }
        out
    }

    /// The file a native jar entry is unpacked to: the entry's file name for
    /// native libraries (`.so`, `.dll`, `.dylib`), nothing for other entries.
    pub fn native_entry_target(name: &str) -> (r: Option<String>)
        ensures
            (ends_with(name@, ".so"@) || ends_with(name@, ".dll"@) || ends_with(name@, ".dylib"@)) ==> match file_name(name@) {
                Some(f) => r matches Some(s) && s@ == f,
                None => r is None,
            },
            !(ends_with(name@, ".so"@) || ends_with(name@, ".dll"@) || ends_with(name@, ".dylib"@)) ==> r is None,
    {
        proof {
            reveal_strlit(".so");
            reveal_strlit(".dll");
            reveal_strlit(".dylib");
        }
        let cs = chars_of(name);
        if ends_with_chars(&cs, &chars_of(".so")) || ends_with_chars(&cs, &chars_of(".dll")) || ends_with_chars(
            &cs,
            &chars_of(".dylib"),
        ) {
            path_file_name(name)
        } else {
            None
        }
    }
}

/// The warnings about failed library downloads: the first five with their
/// label and error, a count of the rest, and a closing summary.
pub open spec fn failure_warnings(f: Seq<(Seq<char>, Seq<char>)>) -> Seq<Seq<char>> {
    let shown = if f.len() <= 5 {
        f
    } else {
        f.take(5)
    };
    shown.map_values(|e: (Seq<char>, Seq<char>)| "Library download failed ("@ + e.0 + "): "@ + e.1) + (if f.len() > 5 {
        seq!["... and "@ + decimal((f.len() - 5) as nat) + " more library failures"@]
    } else {
        Seq::empty()
    }) + (if f.len() > 0 {
        seq![decimal(f.len()) + " library download(s) failed \u{2014} launch may not work"@]
    } else {
        Seq::empty()
    })
}

/// The views of (label, error) pairs.
pub open spec fn pair_views(v: Seq<(String, String)>) -> Seq<(Seq<char>, Seq<char>)> {
    v.map_values(|p: (String, String)| (p.0@, p.1@))
}

impl BackendBridge {
    /// What to warn about the library downloads that failed, given as
    /// (label, error).
    pub fn library_failure_warnings(failures: &Vec<(String, String)>) -> (r: Vec<String>)
        ensures
            string_views(r@) == failure_warnings(pair_views(failures@)),
    {
        proof {
            reveal_strlit("Library download failed (");
            reveal_strlit("): ");
            reveal_strlit("... and ");
            reveal_strlit(" more library failures");
            reveal_strlit(" library download(s) failed \u{2014} launch may not work");
        }
        let ghost fv = pair_views(failures@);
        let n = failures.len();
        let shown: usize = if n <= 5 {
            n
        } else {
            5
        };
        let mut out: Vec<String> = Vec::new();
        let mut i: usize = 0;
        while i < shown
            invariant
                i <= shown,
                shown <= n,
                n == failures@.len(),
                fv == pair_views(failures@),
                shown == if n <= 5 { n } else { 5 },
                out@.len() == i,
                forall|k: int| 0 <= k < i ==> (#[trigger] out@[k])@ == "Library download failed ("@ + fv[k].0 + "): "@ + fv[k].1,
            decreases shown - i,
        {
            let mut line = chars_of("Library download failed (");
            extend_str(&mut line, failures[i].0.as_str());
            extend_str(&mut line, "): ");
            extend_str(&mut line, failures[i].1.as_str());
            out.push(string_from_chars(&line));
            i = i + 1;
        }
        let ghost head = out@;
        if n > 5 {
            let mut line = chars_of("... and ");
            extend_chars(&mut line, &decimal_chars((n - 5) as u64));
            extend_str(&mut line, " more library failures");
            out.push(string_from_chars(&line));
        }
        let ghost mid = out@;
        if n > 0 {
            let mut line = decimal_chars(n as u64);
            extend_str(&mut line, " library download(s) failed \u{2014} launch may not work");
            out.push(string_from_chars(&line));
        }
        proof {
            let shown_seq = if fv.len() <= 5 {
                fv
            } else {
                fv.take(5)
            };
            assert(string_views(head) =~= shown_seq.map_values(|e: (Seq<char>, Seq<char>)| "Library download failed ("@ + e.0 + "): "@ + e.1));
            assert(string_views(out@) =~= failure_warnings(fv));
        }
        out
    }

    /// Where an asset object with this hash lives under the assets
    /// directory, and the URL it is fetched from; nothing for a hash shorter
    /// than two characters.
    pub fn asset_object(hash: &str) -> (r: Option<(String, String)>)
        ensures
            hash@.len() < 2 ==> r is None,
            hash@.len() >= 2 ==> (r matches Some((path, url)) && path@ == "objects/"@ + hash@.take(2) + "/"@ + hash@
                && url@ == "https://resources.download.minecraft.net/"@ + hash@.take(2) + "/"@ + hash@),
    {
        proof {
            reveal_strlit("objects/");
            reveal_strlit("/");
            reveal_strlit("https://resources.download.minecraft.net/");
        }
        let cs = chars_of(hash);
        if cs.len() < 2 {
            return None;
        }
        let prefix = crate::text::sub_chars(&cs, 0, 2);
        assert(prefix@ =~= hash@.take(2));
        let mut path = chars_of("objects/");
        extend_chars(&mut path, &prefix);
        extend_str(&mut path, "/");
        extend_str(&mut path, hash);
        let mut url = chars_of("https://resources.download.minecraft.net/");
        extend_chars(&mut url, &prefix);
        extend_str(&mut url, "/");
        extend_str(&mut url, hash);
        Some((string_from_chars(&path), string_from_chars(&url)))
    }
}

} // verus!
