//! World backups: where a world's saves live, what its backup archive is
//! called, how files are named inside the archive, and which archives a
//! backup directory holds. Zipping, unzipping and the file system are the
//! caller's part.

use vstd::prelude::*;
use crate::errors::LauncherError;
use crate::paths::{file_name, join, join_path, last_dot, path_file_name};
use crate::text::{chars_of, decimal, decimal_chars, replace_char, replace_char_str, starts_with};

verus! {

/// The directory that holds world backups.
pub open spec fn backups_path(data_local: Seq<char>) -> Seq<char> {
    join(data_local, "backups"@)
}

/// The saves directory of a world.
pub open spec fn world_path(instances: Seq<char>, instance_id: Seq<char>, world: Seq<char>) -> Seq<
    char,
> {
    join(join(join(instances, instance_id), "saves"@), world)
}

/// The archive a backup taken at `ts` (seconds since the epoch) goes to.
pub open spec fn archive_path(data_local: Seq<char>, world: Seq<char>, ts: u64) -> Seq<char> {
    join(backups_path(data_local), world + "-"@ + decimal(ts as nat) + ".zip"@)
}

/// `path` relative to the directory `prefix` it was found under (itself
/// when it does not lie under it).
pub open spec fn relative_to(prefix: Seq<char>, path: Seq<char>) -> Seq<char> {
    if path == prefix {
        Seq::empty()
    } else if prefix.len() > 0 && prefix.last() == '/' && starts_with(path, prefix) {
        path.skip(prefix.len() as int)
    } else if starts_with(path, prefix + "/"@) {
        path.skip(prefix.len() as int + 1)
    } else {
        path
    }
}

/// The name a file gets inside a backup archive: its path relative to the
/// world directory, with `/` separators; none for the directory itself.
pub open spec fn entry_name(prefix: Seq<char>, path: Seq<char>) -> Option<Seq<char>> {
    let rel = replace_char(relative_to(prefix, path), '\\', '/');
    if rel.len() == 0 {
        None
    } else {
        Some(rel)
    }
}

/// `Path::extension`: what follows the last `.` of the file name, unless
/// that dot begins the name.
pub open spec fn extension(p: Seq<char>) -> Option<Seq<char>> {
    match file_name(p) {
        None => None,
        Some(n) => if last_dot(n) <= 0 {
            None
        } else {
            Some(n.skip(last_dot(n) + 1))
        },
    }
}

/// The directory that holds world backups.
pub fn backups_dir(data_local: &str) -> (r: String)
    ensures
        r@ == backups_path(data_local@),
{
    proof {
        reveal_strlit("backups");
    }
    join_path(data_local, "backups")
}

/// The saves directory of a world of an instance.
pub fn world_dir(instances_dir: &str, instance_id: &str, world: &str) -> (r: String)
    ensures
        r@ == world_path(instances_dir@, instance_id@, world@),
{
    proof {
        reveal_strlit("saves");
    }
    let a = join_path(instances_dir, instance_id);
    let b = join_path(a.as_str(), "saves");
    join_path(b.as_str(), world)
}

/// Where the backup of `world` taken at `ts` is written.
pub fn backup_archive_path(data_local: &str, world: &str, ts: u64) -> (r: String)
    ensures
        r@ == archive_path(data_local@, world@, ts),
{
    proof {
        reveal_strlit("-");
        reveal_strlit(".zip");
    }
    let mut name: Vec<char> = chars_of(world);
    crate::text::extend_str(&mut name, "-");
    let d = decimal_chars(ts);
    crate::text::extend_chars(&mut name, &d);
    crate::text::extend_str(&mut name, ".zip");
    let n = crate::text::string_from_chars(&name);
    assert(n@ =~= world@ + "-"@ + decimal(ts as nat) + ".zip"@);
    let dir = backups_dir(data_local);
    join_path(dir.as_str(), n.as_str())
}

/// The error for a world whose saves directory is missing.
pub fn missing_world(saves_dir: &str) -> (e: LauncherError)
    ensures
        e matches LauncherError::NotFound(m) && m@ == "world directory not found: "@ + saves_dir@,
{
    proof {
        reveal_strlit("world directory not found: ");
    }
    let mut m = String::from_str("world directory not found: ");
    m.append(saves_dir);
    LauncherError::NotFound(m)
}

fn relative_path(prefix: &str, path: &str) -> (r: Vec<char>)
    ensures
        r@ == relative_to(prefix@, path@),
{
    proof {
        reveal_strlit("/");
    }
    let p = chars_of(prefix);
    let q = chars_of(path);
    if crate::text::chars_eq(&q, &p) {
        return Vec::new();
    }
    if p.len() > 0 && p[p.len() - 1] == '/' && crate::text::starts_with_chars(&q, &p) {
        return crate::text::sub_chars(&q, p.len(), q.len());
    }
    let mut ps = p.clone();
    ps.push('/');
    assert(ps@ =~= prefix@ + "/"@);
    if crate::text::starts_with_chars(&q, &ps) {
        crate::text::sub_chars(&q, ps.len(), q.len())
    } else {
        q
    }
}

/// The name under which a file found below the world directory `prefix`
/// is stored in its backup archive.
pub fn zip_entry_name(prefix: &str, path: &str) -> (r: Option<String>)
    ensures
        match entry_name(prefix@, path@) {
            None => r is None,
            Some(n) => r matches Some(s) && s@ == n,
        },
{
    let rel = crate::text::string_from_chars(&relative_path(prefix, path));
    let named = replace_char_str(rel.as_str(), '\\', '/');
    if named.as_str().unicode_len() == 0 {
        None
    } else {
        Some(named)
    }
}

/// Whether a file in the backup directory is a backup archive (its
/// extension is `zip`).
pub fn is_backup_archive(path: &str) -> (r: bool)
    ensures
        r == (extension(path@) == Some("zip"@)),
{
    proof {
        reveal_strlit("zip");
    }
    match path_file_name(path) {
        None => false,
        Some(n) => {
            let cs = chars_of(n.as_str());
            match crate::text::rfind_char(&cs, '.') {
                None => false,
                Some(i) => {
                    let len = cs.len();
                    assert(i < len);
                    if i == 0 {
                        false
                    } else {
                        let ext = crate::text::sub_chars(&cs, i + 1, len);
                        let z = chars_of("zip");
                        assert(ext@ == n@.skip(i + 1));
                        crate::text::chars_eq(&ext, &z)
                    }
                },
            }
        },
    }
}

/// `a` comes before `b` in code-point order (as paths of one directory are
/// ordered by their names).
pub open spec fn lex_lt(a: Seq<char>, b: Seq<char>) -> bool
    decreases a.len(),
{
    if b.len() == 0 {
        false
    } else if a.len() == 0 {
        true
    } else if a[0] < b[0] {
        true
    } else if a[0] == b[0] {
        lex_lt(a.drop_first(), b.drop_first())
    } else {
        false
    }
}

proof fn lemma_lex_irreflexive(a: Seq<char>)
    ensures
        !lex_lt(a, a),
    decreases a.len(),
{
    if a.len() > 0 {
        lemma_lex_irreflexive(a.drop_first());
    }
}

proof fn lemma_lex_asymmetric(a: Seq<char>, b: Seq<char>)
    ensures
        lex_lt(a, b) ==> !lex_lt(b, a),
    decreases a.len(),
{
    if a.len() > 0 && b.len() > 0 && a[0] == b[0] {
        lemma_lex_asymmetric(a.drop_first(), b.drop_first());
    }
}

proof fn lemma_lex_transitive(a: Seq<char>, b: Seq<char>, c: Seq<char>)
    ensures
        lex_lt(a, b) && lex_lt(b, c) ==> lex_lt(a, c),
    decreases a.len(),
{
    if a.len() > 0 && b.len() > 0 && c.len() > 0 {
        lemma_lex_transitive(a.drop_first(), b.drop_first(), c.drop_first());
    }
}

proof fn lemma_lex_total(a: Seq<char>, b: Seq<char>)
    ensures
        a != b ==> lex_lt(a, b) || lex_lt(b, a),
    decreases a.len(),
{
    if a.len() > 0 && b.len() > 0 {
        lemma_lex_total(a.drop_first(), b.drop_first());
        if a[0] == b[0] && a.drop_first() == b.drop_first() {
            assert(a =~= seq![a[0]] + a.drop_first());
            assert(b =~= seq![b[0]] + b.drop_first());
        }
    } else if a.len() == 0 && b.len() == 0 {
        assert(a =~= b);
    }
}

/// The names come newest first: none is followed by a later one.
pub open spec fn newest_first(s: Seq<String>) -> bool {
    forall|i: int, j: int| 0 <= i < j < s.len() ==> !lex_lt(#[trigger] s[i]@, #[trigger] s[j]@)
}

fn lex_less(a: &str, b: &str) -> (r: bool)
    ensures
        r == lex_lt(a@, b@),
{
    let x = chars_of(a);
    let y = chars_of(b);
    let mut i: usize = 0;
    assert(a@.skip(0) =~= a@);
    assert(b@.skip(0) =~= b@);
    while i < x.len() && i < y.len() && x[i] == y[i]
        invariant
            i <= x@.len(),
            i <= y@.len(),
            x@ == a@,
            y@ == b@,
            lex_lt(a@, b@) == lex_lt(a@.skip(i as int), b@.skip(i as int)),
        decreases x@.len() - i,
    {
        proof {
            assert(a@.skip(i as int).drop_first() =~= a@.skip(i + 1));
            assert(b@.skip(i as int).drop_first() =~= b@.skip(i + 1));
        }
        i = i + 1;
    }
    proof {
        if i < x@.len() {
            assert(a@.skip(i as int)[0] == x@[i as int]);
        }
        if i < y@.len() {
            assert(b@.skip(i as int)[0] == y@[i as int]);
        }
    }
    if i == y.len() {
        false
    } else if i == x.len() {
        true
    } else {
        x[i] < y[i]
    }
}

/// Where `x` goes in a list kept newest first: before the first older name.
fn insertion_point(out: &Vec<String>, x: &String) -> (p: usize)
    requires
        newest_first(out@),
    ensures
        p <= out@.len(),
        forall|k: int| 0 <= k < p ==> !lex_lt(#[trigger] out@[k]@, x@),
        p < out@.len() ==> lex_lt(out@[p as int]@, x@),
{
    let mut p: usize = 0;
    while p < out.len()
        invariant
            p <= out@.len(),
            forall|k: int| 0 <= k < p ==> !lex_lt(#[trigger] out@[k]@, x@),
        decreases out@.len() - p,
    {
        if lex_less(out[p].as_str(), x.as_str()) {
            return p;
        }
        p = p + 1;
    }
    p
}

/// The backup archives among the files of the backup directory, newest
/// first by name.
pub fn list_backups(files: Vec<String>) -> (r: Vec<String>)
    ensures
        newest_first(r@),
        forall|k: int| 0 <= k < r@.len() ==> extension(#[trigger] r@[k]@) == Some("zip"@),
        r@.to_multiset() == backup_files(files@).to_multiset(),
{
    broadcast use vstd::seq_lib::to_multiset_insert, vstd::seq_lib::to_multiset_build;
    let ghost all = files@;
    let mut rest = files;
    let n = rest.len();
    let mut out: Vec<String> = Vec::new();
    let mut k: usize = 0;
    proof {
        assert(all.subrange(0, 0) =~= Seq::<String>::empty());
        assert(out@ =~= backup_files(all.subrange(0, 0)));
    }
    while rest.len() > 0
        invariant
            k <= all.len(),
            n == all.len(),
            rest@ == all.skip(k as int),
            newest_first(out@),
            forall|j: int| 0 <= j < out@.len() ==> extension(#[trigger] out@[j]@) == Some("zip"@),
            out@.to_multiset() == backup_files(all.subrange(0, k as int)).to_multiset(),
        decreases rest@.len(),
    {
        let ghost before = rest@;
        let f = rest.remove(0);
        proof {
            assert(f == all[k as int]);
            assert(rest@ =~= all.skip(k + 1));
            assert(all.subrange(0, k + 1).drop_last() =~= all.subrange(0, k as int));
            assert(all.subrange(0, k + 1).last() == f);
        }
        if is_backup_archive(f.as_str()) {
            assert(backup_files(all.subrange(0, k + 1)) == backup_files(all.subrange(0, k as int)).push(f));
            let p = insertion_point(&out, &f);
            let ghost old_out = out@;
            out.insert(p, f);
            proof {
                assert(out@ == old_out.insert(p as int, f));
                vstd::seq_lib::to_multiset_insert(old_out, p as int, f);
                vstd::seq_lib::to_multiset_build(backup_files(all.subrange(0, k as int)), f);
                assert(out@.to_multiset() == backup_files(all.subrange(0, k + 1)).to_multiset());
                assert forall|i: int, j: int| 0 <= i < j < out@.len() implies !lex_lt(
                    #[trigger] out@[i]@,
                    #[trigger] out@[j]@,
                ) by {
                    if j < p {
                        assert(out@[i] == old_out[i] && out@[j] == old_out[j]);
                    } else if j == p {
                        assert(out@[i] == old_out[i]);
                    } else if i < p {
                        assert(out@[i] == old_out[i] && out@[j] == old_out[j - 1]);
                        assert(!lex_lt(old_out[i]@, old_out[j - 1]@));
                    } else if i == p {
                        assert(out@[j] == old_out[j - 1]);
                        let q = old_out[p as int];
                        assert(lex_lt(q@, f@));
                        if p < j - 1 {
                            assert(!lex_lt(q@, old_out[j - 1]@));
                            lemma_lex_total(q@, old_out[j - 1]@);
                            if q@ != old_out[j - 1]@ {
                                lemma_lex_transitive(old_out[j - 1]@, q@, f@);
                            }
                        }
                        lemma_lex_asymmetric(old_out[j - 1]@, f@);
                    } else {
                        assert(out@[i] == old_out[i - 1] && out@[j] == old_out[j - 1]);
                    }
                }
                assert forall|j: int| 0 <= j < out@.len() implies extension(#[trigger] out@[j]@)
                    == Some("zip"@) by {
                    if j < p {
                        assert(out@[j] == old_out[j]);
                    } else if j > p {
                        assert(out@[j] == old_out[j - 1]);
                    }
                }
            }
        } else {
            assert(backup_files(all.subrange(0, k + 1)) == backup_files(all.subrange(0, k as int)));
        }
        k = k + 1;
    }
    proof {
        assert(all.subrange(0, all.len() as int) =~= all);
    }
    out
}

/// The backup archives among some files, in their order.
pub open spec fn backup_files(s: Seq<String>) -> Seq<String>
    decreases s.len(),
{
    if s.len() == 0 {
        Seq::empty()
    } else if extension(s.last()@) == Some("zip"@) {
        backup_files(s.drop_last()).push(s.last())
    } else {
        backup_files(s.drop_last())
    }
}

} // verus!
