//! Installing and tracking content in an instance: which instance an
//! install goes to, which version and file it takes and where the file
//! lands, the files a modpack declares and its override entries, the
//! install records, and the JVM crash logs found next to an instance.

use vstd::prelude::*;
use crate::argus::backend::{BackendBridge, InstallRecord};
use crate::argus::mod_files::pick_index;
use crate::instances::{InstanceConfig, same_instance};
use crate::modrinth::{Version, VersionFile, same_version};
use crate::paths::{file_name, path_file_name, safe_relative, sanitize_rel_path};
use crate::text::{
    chars_of, decimal, decimal_chars, ends_with, ends_with_chars, extend_chars, extend_str, starts_with,
    starts_with_chars, str_eq, string_from_chars,
};

verus! {

/// The instance an install goes to: the one with the requested id, else
/// the first instance.
pub open spec fn target_index(instances: Seq<InstanceConfig>, id: Option<Seq<char>>) -> Option<int> {
    let by_id = match id {
        Some(k) => if exists|i: int| 0 <= i < instances.len() && instances[i].id@ == k {
            Some(choose|i: int| 0 <= i < instances.len() && instances[i].id@ == k && forall|j: int| 0 <= j < i ==> instances[j].id@ != k)
        } else {
            None
        },
        None => None,
    };
    match by_id {
        Some(i) => Some(i),
        None => if instances.len() > 0 {
            Some(0)
        } else {
            None
        },
    }
}

impl BackendBridge {
    /// The instance content goes to: the one with the requested id, else the
    /// first; refused when there is no instance at all.
    pub fn install_target(&self, instance_id: Option<&str>) -> (r: Result<InstanceConfig, String>)
        ensures
            match target_index(self.manager.instances@, match instance_id {
                Some(s) => Some(s@),
                None => None,
            }) {
                Some(i) => r matches Ok(inst) && same_instance(inst, self.manager.instances@[i]),
                None => r matches Err(m) && m@ == "No instance available \u{2014} create one on the HOME screen first"@,
            },
    {
        let list = self.manager.list();
        if let Some(id) = instance_id {
            let mut i: usize = 0;
            while i < list.len()
                invariant
                    i <= list@.len(),
                    list@ == self.manager.instances@,
                    instance_id matches Some(x) && x@ == id@,
                    forall|j: int| 0 <= j < i ==> list@[j].id@ != id@,
                decreases list@.len() - i,
            {
                if str_eq(list[i].id.as_str(), id) {
                    proof {
                        assert(0 <= i < list@.len() && list@[i as int].id@ == id@ && forall|j: int| 0 <= j < i ==> list@[j].id@ != id@);
                        let c = choose|c: int| 0 <= c < list@.len() && list@[c].id@ == id@ && forall|j: int| 0 <= j < c ==> list@[j].id@ != id@;
                        assert(c == i as int) by {
                            if c < i {
                                assert(list@[c].id@ != id@);
                            } else if c > i {
                                assert(list@[i as int].id@ != id@);
                            }
                        }
                    }
                    return Ok(list[i].clone());
                }
                i = i + 1;
            }
        }
        if list.len() > 0 {
            return Ok(list[0].clone());
        }
        proof {
            reveal_strlit("No instance available \u{2014} create one on the HOME screen first");
        }
        Err(string_from_chars(&chars_of("No instance available \u{2014} create one on the HOME screen first")))
    }
}

/// The directory of an instance that content of a type goes to.
pub open spec fn dest_dir_for(content_type: Seq<char>) -> Seq<char> {
    if content_type == "modpack"@ {
        "modpacks"@
    } else if content_type == "resourcepack"@ {
        "resourcepacks"@
    } else if content_type == "shader"@ {
        "shaderpacks"@
    } else {
        "mods"@
    }
}

/// Mods and modpacks need the instance's loader.
pub open spec fn loader_bound(content_type: Seq<char>) -> bool {
    content_type == "mod"@ || content_type == "modpack"@
}

/// The message that refuses loader-bound content on a vanilla instance.
pub open spec fn vanilla_refusal(title: Seq<char>, content_type: Seq<char>) -> Seq<char> {
    "'"@ + title + "' is for modded instances \u{2014} vanilla can't load "@ + (if content_type == "mod"@ {
        "mods"@
    } else {
        "modpacks"@
    }) + ". Create a Fabric or Quilt instance first."@
}

/// The first version with this id.
pub open spec fn version_with_id(vs: Seq<Version>, id: Seq<char>) -> Option<int> {
    if exists|i: int| 0 <= i < vs.len() && vs[i].id@ == id {
        Some(choose|i: int| 0 <= i < vs.len() && vs[i].id@ == id && forall|j: int| 0 <= j < i ==> vs[j].id@ != id)
    } else {
        None
    }
}

/// What an install downloads and where.
#[derive(Debug)]
pub struct InstallPlan {
    /// The instance subdirectory the file goes to.
    pub dest_dir: String,
    pub url: String,
    /// The file name as the version lists it.
    pub filename: String,
    /// Its last path component, the name written to disk.
    pub safe_name: String,
    pub version_id: String,
    pub modpack: bool,
}

/// The plan's file: the chosen version's first file, written under its last
/// path component in the content type's directory.
pub open spec fn plan_of(p: InstallPlan, v: Version, content_type: Seq<char>) -> bool {
    &&& v.files@.len() > 0
    &&& p.dest_dir@ == dest_dir_for(content_type)
    &&& p.url == v.files@[0].url
    &&& p.filename == v.files@[0].filename
    &&& file_name(v.files@[0].filename@) == Some(p.safe_name@)
    &&& p.version_id == v.id
    &&& p.modpack == (content_type == "modpack"@)
}

/// What happens after a chosen version: it needs a file with a usable name.
pub open spec fn file_checked(r: Result<InstallPlan, String>, v: Version, content_type: Seq<char>) -> bool {
    if v.files@.len() == 0 {
        r matches Err(m) && m@ == "No files attached to this version"@
    } else {
        match file_name(v.files@[0].filename@) {
            None => r matches Err(m) && m@ == "Invalid filename '"@ + v.files@[0].filename@ + "'"@,
            Some(_) => r matches Ok(p) && plan_of(p, v, content_type),
        }
    }
}

fn plan_from(v: &Version, content_type: &str) -> (r: Result<InstallPlan, String>)
    ensures
        file_checked(r, *v, content_type@),
{
    proof {
        reveal_strlit("No files attached to this version");
        reveal_strlit("Invalid filename '");
        reveal_strlit("'");
        reveal_strlit("modpack");
        reveal_strlit("resourcepack");
        reveal_strlit("shader");
        reveal_strlit("modpacks");
        reveal_strlit("resourcepacks");
        reveal_strlit("shaderpacks");
        reveal_strlit("mods");
    }
    if v.files.len() == 0 {
        return Err(string_from_chars(&chars_of("No files attached to this version")));
    }
    let file = &v.files[0];
    let safe = match path_file_name(file.filename.as_str()) {
        Some(n) => n,
        None => {
            let mut msg = chars_of("Invalid filename '");
            extend_str(&mut msg, file.filename.as_str());
            extend_str(&mut msg, "'");
            return Err(string_from_chars(&msg));
        },
    };
    let dest: &str = if str_eq(content_type, "modpack") {
        "modpacks"
    } else if str_eq(content_type, "resourcepack") {
        "resourcepacks"
    } else if str_eq(content_type, "shader") {
        "shaderpacks"
    } else {
        "mods"
    };
    Ok(InstallPlan {
        dest_dir: dest.to_owned(),
        url: file.url.clone(),
        filename: file.filename.clone(),
        safe_name: safe,
        version_id: v.id.clone(),
        modpack: str_eq(content_type, "modpack"),
    })
}

fn find_version(versions: &[Version], id: &str) -> (r: Option<usize>)
    ensures
        match version_with_id(versions@, id@) {
            Some(i) => r == Some(i as usize) && 0 <= i < versions@.len(),
            None => r is None,
        },
{
    let mut i: usize = 0;
    while i < versions.len()
        invariant
            i <= versions@.len(),
            forall|j: int| 0 <= j < i ==> versions@[j].id@ != id@,
        decreases versions@.len() - i,
    {
        if str_eq(versions[i].id.as_str(), id) {
            proof {
                let c = choose|c: int| 0 <= c < versions@.len() && versions@[c].id@ == id@ && forall|j: int| 0 <= j < c ==> versions@[j].id@ != id@;
                assert(c == i as int) by {
                    if c < i {
                        assert(versions@[c].id@ != id@);
                    } else if c > i {
                        assert(versions@[i as int].id@ != id@);
                    }
                }
            }
            return Some(i);
        }
        i = i + 1;
    }
    None
}

impl BackendBridge {
    /// What installing a project's version into an instance downloads and
    /// where: mods and modpacks are refused on a vanilla instance; the
    /// pinned version when one was chosen (refused when the project no
    /// longer has it), else the best build for the instance.
    pub fn plan_install(
        instance: &InstanceConfig,
        project_title: &str,
        content_type: &str,
        pinned_version_id: Option<&str>,
        versions: &[Version],
    ) -> (r: Result<InstallPlan, String>)
        ensures
            loader_bound(content_type@) && instance.loader@ == "vanilla"@ ==> (r matches Err(m) && m@ == vanilla_refusal(
                project_title@,
                content_type@,
            )),
            !(loader_bound(content_type@) && instance.loader@ == "vanilla"@) ==> match pinned_version_id {
                Some(vid) => match version_with_id(versions@, vid@) {
                    Some(i) => file_checked(r, versions@[i], content_type@),
                    None => r matches Err(m) && m@ == "Chosen version no longer exists"@,
                },
                None => match pick_index(versions@, if loader_bound(content_type@) {
                    Some(instance.loader@)
                } else {
                    None
                }, instance.game_version@) {
                    Ok(j) => file_checked(r, versions@[j], content_type@),
                    Err(e) => r matches Err(m) && m@ == e,
                },
            },
    {
        proof {
            reveal_strlit("mod");
            reveal_strlit("modpack");
            reveal_strlit("vanilla");
            reveal_strlit("'");
            reveal_strlit("' is for modded instances \u{2014} vanilla can't load ");
            reveal_strlit("mods");
            reveal_strlit("modpacks");
            reveal_strlit(". Create a Fabric or Quilt instance first.");
            reveal_strlit("Chosen version no longer exists");
        }
        let is_mod = str_eq(content_type, "mod");
        let needs = is_mod || str_eq(content_type, "modpack");
        if needs && str_eq(instance.loader.as_str(), "vanilla") {
            let mut msg = chars_of("'");
            extend_str(&mut msg, project_title);
            extend_str(&mut msg, "' is for modded instances \u{2014} vanilla can't load ");
            extend_str(&mut msg, if is_mod {
                "mods"
            } else {
                "modpacks"
            });
            extend_str(&mut msg, ". Create a Fabric or Quilt instance first.");
            return Err(string_from_chars(&msg));
        }
        match pinned_version_id {
            Some(vid) => match find_version(versions, vid) {
                Some(i) => plan_from(&versions[i], content_type),
                None => Err(string_from_chars(&chars_of("Chosen version no longer exists"))),
            },
            None => {
                let loader_filter: Option<&str> = if needs {
                    Some(instance.loader.as_str())
                } else {
                    None
                };
                match BackendBridge::pick_compatible_version(versions, loader_filter, instance.game_version.as_str()) {
                    Ok(v) => {
                        let r = plan_from(&v, content_type);
                        assert(same_version(v, versions@[pick_index(versions@, if loader_bound(content_type@) {
                            Some(instance.loader@)
                        } else {
                            None
                        }, instance.game_version@)->Ok_0]));
                        r
                    },
                    Err(e) => Err(e),
                }
            },
        }
    }

    /// A modpack install needs at least one file from its index or its
    /// overrides.
    pub fn check_modpack_contents(provisioned: usize, overridden: usize) -> (r: Result<(), String>)
        ensures
            provisioned == 0 && overridden == 0 ==> (r matches Err(m) && m@
                == "Modpack archive had no indexed files and no overrides"@),
            provisioned > 0 || overridden > 0 ==> r is Ok,
    {
        if provisioned == 0 && overridden == 0 {
            proof {
                reveal_strlit("Modpack archive had no indexed files and no overrides");
            }
            return Err(string_from_chars(&chars_of("Modpack archive had no indexed files and no overrides")));
        }
        Ok(())
    }
}

/// One file entry of a `modrinth.index.json`, as the launcher reads it.
pub struct ModpackIndexFile {
    pub path: String,
    pub downloads: Vec<String>,
    /// The `sha1` of its hashes, if listed.
    pub sha1: Option<String>,
    /// Its `client` environment, if listed.
    pub client_env: Option<String>,
}

/// A file the pack's client needs: not marked client-`unsupported`, and
/// with at least one download.
pub open spec fn client_file(f: ModpackIndexFile) -> bool {
    !(f.client_env matches Some(e) && e@ == "unsupported"@) && f.downloads@.len() > 0
}

/// The files a modpack index declares for the client, as (safe relative
/// path, first download, sha1); `Err` with the first needed file whose path
/// is unsafe.
pub open spec fn index_result(files: Seq<ModpackIndexFile>, n: nat) -> Result<Seq<(Seq<char>, Seq<char>, Option<Seq<char>>)>, Seq<char>>
    decreases n,
{
    if n == 0 {
        Ok(Seq::empty())
    } else {
        match index_result(files, (n - 1) as nat) {
            Err(e) => Err(e),
            Ok(p) => {
                let f = files[n - 1];
                if !client_file(f) {
                    Ok(p)
                } else {
                    match safe_relative(f.path@) {
                        None => Err("Unsafe path in modpack index: "@ + f.path@),
                        Some(rel) => Ok(p.push((rel, f.downloads@[0]@, match f.sha1 {
                            Some(h) => Some(h@),
                            None => None,
                        }))),
                    }
                }
            },
        }
    }
}

/// The views of the (path, url, sha1) triples.
pub open spec fn triple_views(v: Seq<(String, String, Option<String>)>) -> Seq<(Seq<char>, Seq<char>, Option<Seq<char>>)> {
    v.map_values(|t: (String, String, Option<String>)| (t.0@, t.1@, match t.2 {
        Some(h) => Some(h@),
        None => None,
    }))
}

proof fn lemma_index_err(files: Seq<ModpackIndexFile>, k: nat, n: nat)
    requires
        k <= n,
        index_result(files, k) is Err,
    ensures
        index_result(files, n) == index_result(files, k),
    decreases n - k,
{
    if k < n {
        lemma_index_err(files, k, (n - 1) as nat);
    }
}

impl BackendBridge {
    /// The client files of a modpack index to download: entries marked
    /// client-`unsupported` or without a download are skipped, each path is
    /// checked to stay inside the instance.
    pub fn modpack_files(files: &[ModpackIndexFile]) -> (r: Result<Vec<(String, String, Option<String>)>, String>)
        ensures
            match (r, index_result(files@, files@.len())) {
                (Ok(v), Ok(w)) => triple_views(v@) == w,
                (Err(m), Err(e)) => m@ == e,
                _ => false,
            },
    {
        proof {
            reveal_strlit("unsupported");
            reveal_strlit("Unsafe path in modpack index: ");
        }
        let mut out: Vec<(String, String, Option<String>)> = Vec::new();
        let mut i: usize = 0;
        while i < files.len()
            invariant
                i <= files@.len(),
                index_result(files@, i as nat) matches Ok(w) && triple_views(out@) == w,
            decreases files@.len() - i,
        {
            let f = &files[i];
            let unsupported = match &f.client_env {
                Some(e) => str_eq(e.as_str(), "unsupported"),
                None => false,
            };
            if !unsupported && f.downloads.len() > 0 {
                match sanitize_rel_path(f.path.as_str()) {
                    None => {
                        let mut msg = chars_of("Unsafe path in modpack index: ");
                        extend_str(&mut msg, f.path.as_str());
                        proof {
                            lemma_index_err(files@, (i + 1) as nat, files@.len());
                        }
                        return Err(string_from_chars(&msg));
                    },
                    Some(rel) => {
                        let ghost before = out@;
                        let sha: Option<String> = match &f.sha1 {
                            Some(h) => Some(h.clone()),
                            None => None,
                        };
                        out.push((rel, f.downloads[0].clone(), sha));
                        assert(triple_views(out@) =~= triple_views(before).push(triple_views(out@).last()));
                    },
                }
            }
            i = i + 1;
        }
        Ok(out)
    }
}

/// Where an archive entry of a modpack goes: entries under `overrides/` or
/// `client-overrides/` (with `\` read as `/`) go to the rest of their path,
/// checked to stay inside the instance; other entries and the prefix
/// directories themselves are skipped.
pub open spec fn override_target_of(name: Seq<char>) -> Result<Option<Seq<char>>, Seq<char>> {
    let n = crate::paths::unify_seps(name);
    let rest = if starts_with(n, "overrides/"@) {
        Some(n.skip(10))
    } else if starts_with(n, "client-overrides/"@) {
        Some(n.skip(17))
    } else {
        None
    };
    match rest {
        None => Ok(None),
        Some(r) => if r.len() == 0 {
            Ok(None)
        } else {
            match safe_relative(r) {
                None => Err("Unsafe path in modpack overrides: "@ + r),
                Some(p) => Ok(Some(p)),
            }
        },
    }
}

impl BackendBridge {
    /// Where a modpack archive entry is written, if anywhere.
    pub fn override_target(name: &str) -> (r: Result<Option<String>, String>)
        ensures
            match (r, override_target_of(name@)) {
                (Ok(None), Ok(None)) => true,
                (Ok(Some(s)), Ok(Some(p))) => s@ == p,
                (Err(m), Err(e)) => m@ == e,
                _ => false,
            },
    {
        proof {
            reveal_strlit("overrides/");
            reveal_strlit("client-overrides/");
            reveal_strlit("Unsafe path in modpack overrides: ");
        }
        let cs = chars_of(name);
        let mut u: Vec<char> = Vec::new();
        let mut i: usize = 0;
        while i < cs.len()
            invariant
                i <= cs@.len(),
                cs@ == name@,
                u@ == crate::paths::unify_seps(cs@.take(i as int)),
            decreases cs@.len() - i,
        {
            u.push(if cs[i] == '\\' {
                '/'
            } else {
                cs[i]
            });
            i = i + 1;
            assert(u@ =~= crate::paths::unify_seps(cs@.take(i as int)));
        }
        assert(cs@.take(cs@.len() as int) =~= cs@);
        let skip: usize = if starts_with_chars(&u, &chars_of("overrides/")) {
            10
        } else if starts_with_chars(&u, &chars_of("client-overrides/")) {
            17
        } else {
            return Ok(None);
        };
        let rest = crate::text::sub_chars(&u, skip, u.len());
        assert(rest@ =~= u@.skip(skip as int));
        if rest.len() == 0 {
            return Ok(None);
        }
        let rs = string_from_chars(&rest);
        match sanitize_rel_path(rs.as_str()) {
            None => {
                let mut msg = chars_of("Unsafe path in modpack overrides: ");
                extend_chars(&mut msg, &rest);
                Err(string_from_chars(&msg))
            },
            Some(p) => Ok(Some(p)),
        }
    }

    /// Whether a file name is a JVM crash log (`hs_err_pid*.log`).
    pub fn is_crash_log(name: &str) -> (r: bool)
        ensures
            r == (starts_with(name@, "hs_err_pid"@) && ends_with(name@, ".log"@)),
    {
        proof {
            reveal_strlit("hs_err_pid");
            reveal_strlit(".log");
        }
        let cs = chars_of(name);
        starts_with_chars(&cs, &chars_of("hs_err_pid")) && ends_with_chars(&cs, &chars_of(".log"))
    }

    /// How old a crash log reads: in whole hours under a day, else in days.
    pub fn crash_age(secs: u64) -> (r: String)
        ensures
            r@ == if secs < 86400 {
                decimal((secs / 3600) as nat) + "h ago"@
            } else {
                decimal((secs / 86400) as nat) + "d ago"@
            },
    {
        proof {
            reveal_strlit("h ago");
            reveal_strlit("d ago");
        }
        if secs < 86400 {
            let mut v = decimal_chars(secs / 3600);
            extend_str(&mut v, "h ago");
            string_from_chars(&v)
        } else {
            let mut v = decimal_chars(secs / 86400);
            extend_str(&mut v, "d ago");
            string_from_chars(&v)
        }
    }
}

/// The install records without those of a deleted file.
pub open spec fn records_without(rs: Seq<InstallRecord>, fname: Seq<char>) -> Seq<InstallRecord>
    decreases rs.len(),
{
    if rs.len() == 0 {
        rs
    } else {
        let p = records_without(rs.drop_last(), fname);
        if rs.last().filename@ == fname {
            p
        } else {
            p.push(rs.last())
        }
    }
}

impl BackendBridge {
    /// Drops the records of a deleted file, so Discover offers its project
    /// again.
    pub fn forget_file(records: Vec<InstallRecord>, fname: &str) -> (r: Vec<InstallRecord>)
        ensures
            r@ == records_without(records@, fname@),
    {
        let mut out: Vec<InstallRecord> = Vec::new();
        let ghost all = records@;
        let n = records.len();
        let mut i: usize = 0;
        while i < n
            invariant
                n == all.len(),
                i <= n,
                out@ == records_without(all.take(i as int), fname@),
                records@ == all,
            decreases n - i,
        {
            assert(all.take(i + 1).drop_last() =~= all.take(i as int));
            let r = &records[i];
            if !str_eq(r.filename.as_str(), fname) {
                out.push(InstallRecord {
                    project_id: r.project_id.clone(),
                    version_id: match &r.version_id {
                        Some(v) => Some(v.clone()),
                        None => None,
                    },
                    filename: r.filename.clone(),
                    content_type: r.content_type.clone(),
                });
            }
            i = i + 1;
        }
        assert(all.take(n as int) =~= all);
        out
    }
}

} // verus!
