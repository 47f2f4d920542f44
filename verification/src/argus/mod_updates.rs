//! Which installed mods have a newer release: one install record at a time,
//! against the versions Modrinth lists for its project.

use vstd::prelude::*;
use crate::argus::backend::{BackendBridge, InstallRecord};
use crate::argus::mod_files::{version_in_name, version_order};
use crate::argus::state::UpdatableMod;
use crate::modrinth::Version;
use crate::text::{lowercase, str_eq, to_lowercase};

verus! {

/// Whether a version lists loader `l`, compared lower-cased.
pub open spec fn lists_loader(v: Version, l: Seq<char>) -> bool {
    exists|k: int| 0 <= k < v.loaders@.len() && lowercase((#[trigger] v.loaders@[k])@) == lowercase(l)
}

/// The indices of the versions below `n` that list loader `l`, in order.
pub open spec fn loader_indices(vs: Seq<Version>, n: nat, l: Seq<char>) -> Seq<int>
    decreases n,
{
    if n == 0 {
        Seq::empty()
    } else {
        let p = loader_indices(vs, (n - 1) as nat, l);
        if lists_loader(vs[n - 1], l) {
            p.push(n - 1)
        } else {
            p
        }
    }
}

/// Indices as integers.
pub open spec fn ints(s: Seq<usize>) -> Seq<int> {
    s.map_values(|x: usize| x as int)
}

/// The indices `0..n`.
pub open spec fn all_indices(n: nat) -> Seq<int> {
    Seq::new(n, |i: int| i)
}

/// The versions an update is looked for in: those for the instance's
/// loader, or all of them when none is.
pub open spec fn update_candidates(vs: Seq<Version>, l: Seq<char>) -> Seq<int> {
    let c = loader_indices(vs, vs.len(), l);
    if c.len() > 0 {
        c
    } else {
        all_indices(vs.len())
    }
}

/// The first index in `idx` whose version is a release.
pub open spec fn first_release(vs: Seq<Version>, idx: Seq<int>) -> Option<int>
    decreases idx.len(),
{
    if idx.len() == 0 {
        None
    } else if vs[idx[0]].version_type@ == "release"@ {
        Some(idx[0])
    } else {
        first_release(vs, idx.drop_first())
    }
}

/// Whether the installed file is behind the latest release: by version id
/// when the install recorded one, else by the version in the file name.
pub open spec fn behind(rec: InstallRecord, latest: Option<Version>) -> bool {
    match latest {
        None => false,
        Some(v) => match rec.version_id {
            Some(iid) => v.id@ != iid@,
            None => match version_in_name(rec.filename@) {
                Some(iv) => version_order(v.version_number@, Some(iv)) > 0,
                None => false,
            },
        },
    }
}

/// The update a mod's install record has among `vs` for loader `l`:
/// records of other content have none.
pub open spec fn update_for(rec: InstallRecord, vs: Seq<Version>, l: Seq<char>) -> Option<int> {
    if rec.content_type@ != "mod"@ {
        None
    } else {
        match first_release(vs, update_candidates(vs, l)) {
            Some(i) => if behind(rec, Some(vs[i])) {
                Some(i)
            } else {
                None
            },
            None => None,
        }
    }
}

proof fn lemma_loader_indices(vs: Seq<Version>, n: nat, l: Seq<char>)
    requires
        n <= vs.len(),
    ensures
        forall|k: int| 0 <= k < loader_indices(vs, n, l).len() ==> 0 <= #[trigger] loader_indices(vs, n, l)[k] < n,
    decreases n,
{
    if n > 0 {
        lemma_loader_indices(vs, (n - 1) as nat, l);
        let p = loader_indices(vs, (n - 1) as nat, l);
        if lists_loader(vs[n - 1], l) {
            assert forall|k: int| 0 <= k < p.push(n - 1).len() implies 0 <= #[trigger] p.push(n - 1)[k] < n by {
                if k < p.len() {
                    assert(p.push(n - 1)[k] == p[k]);
                }
            }
        }
    }
}

proof fn lemma_first_release(vs: Seq<Version>, idx: Seq<int>)
    requires
        forall|k: int| 0 <= k < idx.len() ==> 0 <= #[trigger] idx[k] < vs.len(),
    ensures
        first_release(vs, idx) matches Some(i) ==> 0 <= i < vs.len(),
    decreases idx.len(),
{
    if idx.len() > 0 && vs[idx[0]].version_type@ != "release"@ {
        lemma_first_release(vs, idx.drop_first());
    }
}

fn version_lists_loader(v: &Version, l: &str) -> (r: bool)
    ensures
        r == exists|k: int| 0 <= k < v.loaders@.len() && lowercase((#[trigger] v.loaders@[k])@) == l@,
{
    let mut k: usize = 0;
    while k < v.loaders.len()
        invariant
            k <= v.loaders@.len(),
            forall|j: int| 0 <= j < k ==> lowercase((#[trigger] v.loaders@[j])@) != l@,
        decreases v.loaders@.len() - k,
    {
        let low = to_lowercase(v.loaders[k].as_str());
        if str_eq(low.as_str(), l) {
            return true;
        }
        k = k + 1;
    }
    false
}

fn find_release(versions: &[Version], cand: &Vec<usize>) -> (r: Option<usize>)
    requires
        forall|k: int| 0 <= k < cand@.len() ==> (#[trigger] cand@[k]) < versions@.len(),
    ensures
        match first_release(versions@, ints(cand@)) {
            None => r is None,
            Some(i) => r == Some(i as usize) && 0 <= i < versions@.len(),
        },
{
    proof {
        reveal_strlit("release");
    }
    let ghost c = ints(cand@);
    let mut j: usize = 0;
    assert(c.subrange(0, c.len() as int) =~= c);
    while j < cand.len()
        invariant
            j <= cand@.len(),
            c == ints(cand@),
            c.len() == cand@.len(),
            forall|k: int| 0 <= k < cand@.len() ==> (#[trigger] cand@[k]) < versions@.len(),
            first_release(versions@, c.subrange(j as int, c.len() as int)) == first_release(versions@, c),
        decreases cand@.len() - j,
    {
        let idx = cand[j];
        proof {
            assert(c[j as int] == idx as int);
            assert(c.subrange(j as int, c.len() as int)[0] == idx as int);
            assert(c.subrange(j as int, c.len() as int).drop_first() =~= c.subrange(j + 1, c.len() as int));
        }
        if str_eq(versions[idx].version_type.as_str(), "release") {
            return Some(idx);
        }
        j = j + 1;
    }
    assert(c.subrange(j as int, c.len() as int) =~= Seq::<int>::empty());
    None
}

impl BackendBridge {
    /// The update of one installed mod: the first release among the project's
    /// versions for the instance's loader (among all its versions when none
    /// is for that loader), when the installed file is behind it.
    pub fn mod_update(record: &InstallRecord, loader: &str, versions: &[Version]) -> (r: Option<UpdatableMod>)
        ensures
            match update_for(*record, versions@, loader@) {
                None => r is None,
                Some(i) => r matches Some(u) && u.project_id@ == record.project_id@ && u.title@ == record.filename@
                    && u.installed_version@ == match record.version_id {
                    Some(iid) => iid@,
                    None => "unknown"@,
                } && u.latest_version@ == versions@[i].version_number@ && u.latest_version_id@ == versions@[i].id@
                    && u.content_type@ == record.content_type@ && u.filename@ == record.filename@,
            },
    {
        proof {
            reveal_strlit("mod");
            reveal_strlit("release");
            reveal_strlit("unknown");
        }
        if !str_eq(record.content_type.as_str(), "mod") {
            return None;
        }
        let l = to_lowercase(loader);
        let n = versions.len();
        let mut compat: Vec<usize> = Vec::new();
        let mut i: usize = 0;
        while i < n
            invariant
                n == versions@.len(),
                i <= n,
                l@ == lowercase(loader@),
                ints(compat@) == loader_indices(versions@, i as nat, loader@),
            decreases n - i,
        {
            let ghost before = compat@;
            if version_lists_loader(&versions[i], l.as_str()) {
                compat.push(i);
                assert(ints(compat@) =~= ints(before).push(i as int));
            }
            i = i + 1;
        }
        proof {
            lemma_loader_indices(versions@, n as nat, loader@);
        }
        let cand: Vec<usize> = if compat.len() == 0 {
            let mut all: Vec<usize> = Vec::new();
            let mut k: usize = 0;
            while k < n
                invariant
                    k <= n,
                    all@.len() == k,
                    forall|i: int| 0 <= i < k ==> all@[i] == i,
                decreases n - k,
            {
                all.push(k);
                k = k + 1;
            }
            assert(ints(all@) =~= all_indices(n as nat));
            all
        } else {
            compat
        };
        assert(ints(cand@) == update_candidates(versions@, loader@)) by {
            assert(ints(compat@).len() == compat@.len());
        }
        assert forall|k: int| 0 <= k < cand@.len() implies (#[trigger] cand@[k]) < versions@.len() by {
            assert(ints(cand@)[k] == cand@[k] as int);
            if compat@.len() > 0 {
                assert(loader_indices(versions@, n as nat, loader@)[k] < n);
            } else {
                assert(all_indices(n as nat)[k] == k);
            }
        }
        let latest = match find_release(versions, &cand) {
            None => {
                return None;
            },
            Some(x) => x,
        };
        let v = &versions[latest];
        let is_behind = match &record.version_id {
            Some(iid) => !str_eq(v.id.as_str(), iid.as_str()),
            None => match BackendBridge::extract_version_from_filename(record.filename.as_str()) {
                Some(iv) => BackendBridge::compare_versions(v.version_number.as_str(), Some(iv.as_str())) > 0,
                None => false,
            },
        };
        if !is_behind {
            return None;
        }
        Some(UpdatableMod {
            project_id: record.project_id.clone(),
            title: record.filename.clone(),
            installed_version: match &record.version_id {
                Some(iid) => iid.clone(),
                None => "unknown".to_owned(),
            },
            latest_version: v.version_number.clone(),
            latest_version_id: v.id.clone(),
            content_type: record.content_type.clone(),
            filename: record.filename.clone(),
        })
    }
}

/// An update is always a release, and one that lists the instance's loader
/// whenever any version does.
pub proof fn law_update_is_a_release(rec: InstallRecord, vs: Seq<Version>, l: Seq<char>)
    ensures
        update_for(rec, vs, l) matches Some(i) ==> 0 <= i < vs.len() && vs[i].version_type@ == "release"@ && (
        loader_indices(vs, vs.len(), l).len() > 0 ==> lists_loader(vs[i], l)),
{
    let cand = update_candidates(vs, l);
    lemma_loader_indices(vs, vs.len(), l);
    lemma_loader_indices_list(vs, vs.len(), l);
    assert forall|k: int| 0 <= k < cand.len() implies 0 <= #[trigger] cand[k] < vs.len() by {
        if loader_indices(vs, vs.len(), l).len() == 0 {
            assert(cand[k] == k);
        }
    }
    lemma_first_release(vs, cand);
    lemma_first_release_is_release(vs, cand);
    lemma_first_release_member(vs, cand);
}

proof fn lemma_loader_indices_list(vs: Seq<Version>, n: nat, l: Seq<char>)
    requires
        n <= vs.len(),
    ensures
        forall|k: int| 0 <= k < loader_indices(vs, n, l).len() ==> lists_loader(vs[#[trigger] loader_indices(vs, n, l)[k]], l),
    decreases n,
{
    if n > 0 {
        lemma_loader_indices_list(vs, (n - 1) as nat, l);
        let p = loader_indices(vs, (n - 1) as nat, l);
        if lists_loader(vs[n - 1], l) {
            assert forall|k: int| 0 <= k < p.push(n - 1).len() implies lists_loader(vs[#[trigger] p.push(n - 1)[k]], l) by {
                if k < p.len() {
                    assert(p.push(n - 1)[k] == p[k]);
                }
            }
        }
    }
}

proof fn lemma_first_release_is_release(vs: Seq<Version>, idx: Seq<int>)
    ensures
        first_release(vs, idx) matches Some(i) ==> vs[i].version_type@ == "release"@,
    decreases idx.len(),
{
    if idx.len() > 0 && vs[idx[0]].version_type@ != "release"@ {
        lemma_first_release_is_release(vs, idx.drop_first());
    }
}

proof fn lemma_first_release_member(vs: Seq<Version>, idx: Seq<int>)
    ensures
        first_release(vs, idx) matches Some(i) ==> exists|k: int| 0 <= k < idx.len() && idx[k] == i,
    decreases idx.len(),
{
    if idx.len() > 0 {
        if vs[idx[0]].version_type@ == "release"@ {
            assert(idx[0] == idx[0]);
        } else {
            lemma_first_release_member(vs, idx.drop_first());
            if first_release(vs, idx.drop_first()) is Some {
                let i = first_release(vs, idx.drop_first())->Some_0;
                let k = choose|k: int| 0 <= k < idx.drop_first().len() && idx.drop_first()[k] == i;
                assert(idx[k + 1] == i);
            }
        }
    }
}

} // verus!
