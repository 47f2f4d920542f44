//! Paths as strings. Components are separated by `/` or `\` (so Windows
//! style paths read the same everywhere); paths that this module builds
//! use `/`. Joining follows `Path::join` on Unix.

use vstd::prelude::*;
use crate::text::{chars_of, split_chars, split_on, string_from_chars, views};

verus! {

/// `base.join(name)`: an absolute `name` replaces `base`; otherwise `name`
/// is appended after a `/` unless `base` is empty or already ends in one.
pub open spec fn join(base: Seq<char>, name: Seq<char>) -> Seq<char> {
    if name.len() > 0 && name[0] == '/' {
        name
    } else if base.len() == 0 {
        name
    } else if base[base.len() - 1] == '/' {
        base + name
    } else {
        base + "/"@ + name
    }
}

/// `Path::new(base).join(name)` as a string.
pub fn join_path(base: &str, name: &str) -> (r: String)
    ensures
        r@ == join(base@, name@),
{
    proof {
        reveal_strlit("/");
    }
    let nn = name.unicode_len();
    if nn > 0 && name.get_char(0) == '/' {
        return name.to_owned();
    }
    let bn = base.unicode_len();
    if bn == 0 {
        return name.to_owned();
    }
    let mut r = base.to_owned();
    if base.get_char(bn - 1) != '/' {
        r.append("/");
    }
    r.append(name);
    r
}

/// `s` with every `\` read as `/`.
pub open spec fn unify_seps(s: Seq<char>) -> Seq<char> {
    s.map_values(|c: char| if c == '\\' { '/' } else { c })
}

/// The pieces of a path between separators.
pub open spec fn segments(s: Seq<char>) -> Seq<Seq<char>> {
    split_on(unify_seps(s), '/')
}

/// Whether a segment names a component (it is neither empty nor `.`).
pub open spec fn is_named(seg: Seq<char>) -> bool {
    seg.len() > 0 && seg != "."@
}

/// The named segments, in order.
pub open spec fn named(segs: Seq<Seq<char>>) -> Seq<Seq<char>>
    decreases segs.len(),
{
    if segs.len() == 0 {
        segs
    } else {
        let p = named(segs.drop_last());
        if is_named(segs.last()) {
            p.push(segs.last())
        } else {
            p
        }
    }
}

/// `Path::file_name`: the last component, unless it is `..` or there is
/// none.
pub open spec fn file_name(p: Seq<char>) -> Option<Seq<char>> {
    let n = named(segments(p));
    if n.len() == 0 || n.last() == ".."@ {
        None
    } else {
        Some(n.last())
    }
}

/// Index of the last `.` in `s`, or -1.
pub open spec fn last_dot(s: Seq<char>) -> int {
    crate::text::last_index(s, '.')
}

/// `Path::file_stem` of a file name: the whole name when it has no `.`
/// after its first character, otherwise the part before the last `.`.
pub open spec fn stem_of(name: Seq<char>) -> Seq<char> {
    if last_dot(name) <= 0 {
        name
    } else {
        name.subrange(0, last_dot(name))
    }
}

/// `Path::file_stem`.
pub open spec fn file_stem(p: Seq<char>) -> Option<Seq<char>> {
    match file_name(p) {
        None => None,
        Some(n) => Some(stem_of(n)),
    }
}

/// A relative path that stays below the directory it is joined to: not
/// starting with a separator, no drive letter, no `.` or `..` component,
/// at least one component. Its components joined with `/`.
pub open spec fn safe_relative(raw: Seq<char>) -> Option<Seq<char>> {
    let segs = segments(raw);
    let n = named(segs);
    if raw.len() > 0 && (raw[0] == '/' || raw[0] == '\\') {
        None
    } else if raw.len() > 1 && raw[1] == ':' {
        None
    } else if exists|i: int| 0 <= i < segs.len() && (segs[i] == "."@ || segs[i] == ".."@) {
        None
    } else if n.len() == 0 {
        None
    } else {
        Some(join_all(n))
    }
}

/// Segments joined with `/`.
pub open spec fn join_all(s: Seq<Seq<char>>) -> Seq<char>
    decreases s.len(),
{
    if s.len() == 0 {
        Seq::empty()
    } else if s.len() == 1 {
        s[0]
    } else {
        join_all(s.drop_last()) + "/"@ + s.last()
    }
}

fn unify(s: &[char]) -> (r: Vec<char>)
    ensures
        r@ == unify_seps(s@),
{
    let mut out: Vec<char> = Vec::new();
    let mut i: usize = 0;
    while i < s.len()
        invariant
            i <= s@.len(),
            out@ == unify_seps(s@.subrange(0, i as int)),
        decreases s@.len() - i,
    {
        let c = s[i];
        out.push(if c == '\\' { '/' } else { c });
        proof {
            assert(unify_seps(s@.subrange(0, i + 1)) =~= unify_seps(s@.subrange(0, i as int)).push(
                if c == '\\' { '/' } else { c },
            ));
        }
        i = i + 1;
    }
    assert(s@.subrange(0, s@.len() as int) =~= s@);
    out
}

fn is_dot(seg: &[char]) -> (r: bool)
    ensures
        r == (seg@ == "."@),
{
    proof {
        reveal_strlit(".");
    }
    let r = seg.len() == 1 && seg[0] == '.';
    proof {
        if seg@.len() == 1 && seg@[0] == '.' {
            assert(seg@ =~= "."@);
        }
    }
    r
}

fn is_dot_dot(seg: &[char]) -> (r: bool)
    ensures
        r == (seg@ == ".."@),
{
    proof {
        reveal_strlit("..");
    }
    let r = seg.len() == 2 && seg[0] == '.' && seg[1] == '.';
    proof {
        if seg@.len() == 2 && seg@[0] == '.' && seg@[1] == '.' {
            assert(seg@ =~= ".."@);
        }
    }
    r
}

/// The named segments of a path.
pub(crate) fn named_segments(p: &[char]) -> (r: Vec<Vec<char>>)
    ensures
        views(r@) == named(segments(p@)),
{
    let u = unify(p);
    let segs = split_chars(&u, '/');
    let ghost sv = views(segs@);
    let mut out: Vec<Vec<char>> = Vec::new();
    let mut i: usize = 0;
    while i < segs.len()
        invariant
            i <= segs@.len(),
            sv == views(segs@),
            sv == segments(p@),
            views(out@) == named(sv.subrange(0, i as int)),
        decreases segs@.len() - i,
    {
        proof {
            assert(sv.subrange(0, i + 1).drop_last() =~= sv.subrange(0, i as int));
            assert(sv[i as int] == segs@[i as int]@);
        }
        if segs[i].len() > 0 && !is_dot(&segs[i]) {
            let seg = sub_all(&segs[i]);
            out.push(seg);
            proof {
                assert(views(out@) =~= named(sv.subrange(0, i as int)).push(sv[i as int]));
            }
        }
        i = i + 1;
    }
    assert(sv.subrange(0, segs@.len() as int) =~= sv);
    out
}

fn sub_all(s: &Vec<char>) -> (r: Vec<char>)
    ensures
        r@ == s@,
{
    let r = s.clone();
    assert(r@ =~= s@);
    r
}

/// The last component of a path (`Path::file_name`).
pub fn path_file_name(p: &str) -> (r: Option<String>)
    ensures
        match file_name(p@) {
            None => r is None,
            Some(n) => r matches Some(s) && s@ == n,
        },
{
    let cs = chars_of(p);
    let n = named_segments(&cs);
    if n.len() == 0 {
        return None;
    }
    let last = &n[n.len() - 1];
    assert(views(n@).last() == last@);
    if is_dot_dot(last) {
        return None;
    }
    Some(string_from_chars(last))
}

/// The file stem of a path (`Path::file_stem`).
pub fn path_file_stem(p: &str) -> (r: Option<String>)
    ensures
        match file_stem(p@) {
            None => r is None,
            Some(n) => r matches Some(s) && s@ == n,
        },
{
    match path_file_name(p) {
        None => None,
        Some(name) => {
            let cs = chars_of(name.as_str());
            match crate::text::rfind_char(&cs, '.') {
                Some(k) => {
                    if k == 0 {
                        Some(name)
                    } else {
                        Some(string_from_chars(&crate::text::sub_chars(&cs, 0, k)))
                    }
                },
                None => Some(name),
            }
        },
    }
}

pub(crate) fn join_segments(s: &Vec<Vec<char>>) -> (r: Vec<char>)
    ensures
        r@ == join_all(views(s@)),
{
    let mut out: Vec<char> = Vec::new();
    let mut i: usize = 0;
    while i < s.len()
        invariant
            i <= s@.len(),
            out@ == join_all(views(s@).subrange(0, i as int)),
        decreases s@.len() - i,
    {
        proof {
            assert(views(s@).subrange(0, i + 1).drop_last() =~= views(s@).subrange(0, i as int));
            assert(views(s@)[i as int] == s@[i as int]@);
            reveal_strlit("/");
        }
        if i > 0 {
            out.push('/');
        }
        crate::text::extend_chars(&mut out, &s[i]);
        proof {
            if i == 0 {
                assert(out@ =~= join_all(views(s@).subrange(0, i + 1)));
            } else {
                assert(out@ =~= join_all(views(s@).subrange(0, i + 1)));
            }
        }
        i = i + 1;
    }
    assert(views(s@).subrange(0, s@.len() as int) =~= views(s@));
    out
}

/// Maps an archive-relative path to a safe relative path, rejecting
/// absolute paths, drive letters and `.`/`..` components, so that a
/// crafted archive cannot write outside the directory it is unpacked to.
pub fn sanitize_rel_path(raw: &str) -> (r: Option<String>)
    ensures
        match safe_relative(raw@) {
            None => r is None,
            Some(p) => r matches Some(s) && s@ == p,
        },
{
    let cs = chars_of(raw);
    if cs.len() > 0 && (cs[0] == '/' || cs[0] == '\\') {
        return None;
    }
    if cs.len() > 1 && cs[1] == ':' {
        return None;
    }
    let u = unify(&cs);
    let segs = split_chars(&u, '/');
    let ghost sv = views(segs@);
    let mut i: usize = 0;
    while i < segs.len()
        invariant
            i <= segs@.len(),
            sv == views(segs@),
            sv == segments(raw@),
            forall|k: int| 0 <= k < i ==> !(sv[k] == "."@ || sv[k] == ".."@),
        decreases segs@.len() - i,
    {
        assert(sv[i as int] == segs@[i as int]@);
        if is_dot(&segs[i]) || is_dot_dot(&segs[i]) {
            return None;
        }
        i = i + 1;
    }
    let n = named_segments(&cs);
    if n.len() == 0 {
        return None;
    }
    let joined = join_segments(&n);
    Some(string_from_chars(&joined))
}

/// Whether `c` separates path components.
pub open spec fn is_sep(c: char) -> bool {
    c == '/' || c == '\\'
}

/// `p` without trailing separators and trailing `.` components.
pub open spec fn strip_tail(p: Seq<char>) -> Seq<char>
    decreases p.len(),
{
    if p.len() > 0 && is_sep(p.last()) {
        strip_tail(p.drop_last())
    } else if p.len() > 0 && p.last() == '.' && (p.len() == 1 || is_sep(p[p.len() - 2])) {
        strip_tail(p.drop_last())
    } else {
        p
    }
}

/// The text after the last separator of `q`.
pub open spec fn tail_component(q: Seq<char>) -> Seq<char>
    decreases q.len(),
{
    if q.len() == 0 || is_sep(q.last()) {
        Seq::empty()
    } else {
        tail_component(q.drop_last()).push(q.last())
    }
}

/// `Path::with_extension(ext)`: the path up to the stem of its last
/// component, then `.` and `ext` (nothing when `ext` is empty); unchanged
/// when it has no file name.
pub open spec fn with_extension(p: Seq<char>, ext: Seq<char>) -> Seq<char> {
    let q = strip_tail(p);
    let c = tail_component(q);
    if c.len() == 0 || c == ".."@ {
        p
    } else if ext.len() == 0 {
        q.subrange(0, q.len() - c.len()) + stem_of(c)
    } else {
        q.subrange(0, q.len() - c.len()) + stem_of(c) + "."@ + ext
    }
}

fn strip_tail_end(cs: &Vec<char>) -> (end: usize)
    ensures
        end <= cs@.len(),
        strip_tail(cs@) == cs@.subrange(0, end as int),
{
    let mut end: usize = cs.len();
    assert(cs@.subrange(0, end as int) =~= cs@);
    while end > 0 && ((cs[end - 1] == '/' || cs[end - 1] == '\\') || (cs[end - 1] == '.' && (end == 1 || cs[end - 2] == '/' || cs[end - 2] == '\\')))
        invariant
            end <= cs@.len(),
            strip_tail(cs@.subrange(0, end as int)) == strip_tail(cs@),
        decreases end,
    {
        proof {
            let t = cs@.subrange(0, end as int);
            assert(t.drop_last() =~= cs@.subrange(0, end - 1));
            if end >= 2 {
                assert(t[t.len() - 2] == cs@[end - 2]);
            }
        }
        end = end - 1;
    }
    proof {
        let q = cs@.subrange(0, end as int);
        if end >= 2 {
            assert(q[q.len() - 2] == cs@[end - 2]);
        }
        assert(strip_tail(q) == q);
    }
    end
}

fn tail_start(cs: &Vec<char>, end: usize) -> (start: usize)
    requires
        end <= cs@.len(),
    ensures
        start <= end,
        tail_component(cs@.subrange(0, end as int)) == cs@.subrange(start as int, end as int),
{
    let mut start: usize = end;
    while start > 0 && cs[start - 1] != '/' && cs[start - 1] != '\\'
        invariant
            start <= end <= cs@.len(),
            tail_component(cs@.subrange(0, end as int)) == tail_component(cs@.subrange(0, start as int)) + cs@.subrange(start as int, end as int),
        decreases start,
    {
        proof {
            let t = cs@.subrange(0, start as int);
            assert(t.drop_last() =~= cs@.subrange(0, start - 1));
            assert(cs@.subrange(start - 1, end as int) =~= seq![cs@[start - 1]] + cs@.subrange(start as int, end as int));
        }
        start = start - 1;
    }
    assert(tail_component(cs@.subrange(0, start as int)) =~= Seq::<char>::empty());
    assert(Seq::<char>::empty() + cs@.subrange(start as int, end as int) =~= cs@.subrange(start as int, end as int));
    start
}

fn stem_chars(comp: &Vec<char>) -> (r: Vec<char>)
    ensures
        r@ == stem_of(comp@),
{
    assert(comp@.subrange(0, comp@.len() as int) =~= comp@);
    match crate::text::rfind_char(comp, '.') {
        Some(k) => {
            if k == 0 {
                crate::text::sub_chars(comp, 0, comp.len())
            } else {
                crate::text::sub_chars(comp, 0, k)
            }
        },
        None => crate::text::sub_chars(comp, 0, comp.len()),
    }
}

/// `Path::new(p).with_extension(ext)` as a string.
pub fn set_extension(p: &str, ext: &str) -> (r: String)
    ensures
        r@ == with_extension(p@, ext@),
{
    proof {
        reveal_strlit("..");
        reveal_strlit(".");
    }
    let cs = chars_of(p);
    let end = strip_tail_end(&cs);
    let ghost q = cs@.subrange(0, end as int);
    let start = tail_start(&cs, end);
    let comp = crate::text::sub_chars(&cs, start, end);
    let dotdot = comp.len() == 2 && comp[0] == '.' && comp[1] == '.';
    proof {
        if comp@.len() == 2 && comp@[0] == '.' && comp@[1] == '.' {
            assert(comp@ =~= ".."@);
        }
    }
    if comp.len() == 0 || dotdot {
        return p.to_owned();
    }
    let mut out = crate::text::sub_chars(&cs, 0, start);
    let stem = stem_chars(&comp);
    crate::text::extend_chars(&mut out, &stem);
    if ext.unicode_len() > 0 {
        out.push('.');
        crate::text::extend_str(&mut out, ext);
    }
    proof {
        assert(q.subrange(0, q.len() - comp@.len()) =~= cs@.subrange(0, start as int));
    }
    string_from_chars(&out)
}


/// `Path::with_file_name(name)`: the path with its last component replaced
/// by `name`; `name` joined to it when it has no file name.
pub open spec fn with_file_name(p: Seq<char>, name: Seq<char>) -> Seq<char> {
    let q = strip_tail(p);
    let c = tail_component(q);
    if c.len() == 0 || c == ".."@ {
        join(p, name)
    } else {
        q.subrange(0, q.len() - c.len()) + name
    }
}

/// `Path::new(p).with_file_name(name)` as a string.
pub fn set_file_name(p: &str, name: &str) -> (r: String)
    ensures
        r@ == with_file_name(p@, name@),
{
    proof {
        reveal_strlit("..");
    }
    let cs = chars_of(p);
    let end = strip_tail_end(&cs);
    let ghost q = cs@.subrange(0, end as int);
    let start = tail_start(&cs, end);
    let comp = crate::text::sub_chars(&cs, start, end);
    let dotdot = comp.len() == 2 && comp[0] == '.' && comp[1] == '.';
    proof {
        if comp@.len() == 2 && comp@[0] == '.' && comp@[1] == '.' {
            assert(comp@ =~= ".."@);
        }
    }
    if comp.len() == 0 || dotdot {
        return join_path(p, name);
    }
    let mut out = crate::text::sub_chars(&cs, 0, start);
    crate::text::extend_str(&mut out, name);
    proof {
        assert(q.subrange(0, q.len() - comp@.len()) =~= cs@.subrange(0, start as int));
    }
    string_from_chars(&out)
}

/// The first component of a relative path, if it has one.
pub open spec fn first_component(p: Seq<char>) -> Option<Seq<char>> {
    let n = named(segments(p));
    if n.len() == 0 {
        None
    } else {
        Some(n[0])
    }
}

/// The path without its first component (`components().skip(1)`),
/// its remaining components joined with `/`.
pub open spec fn without_first(p: Seq<char>) -> Seq<char> {
    let n = named(segments(p));
    if n.len() == 0 {
        Seq::empty()
    } else {
        join_all(n.skip(1))
    }
}

/// The first component of a path.
pub fn path_first_component(p: &str) -> (r: Option<String>)
    ensures
        match first_component(p@) {
            None => r is None,
            Some(c) => r matches Some(s) && s@ == c,
        },
{
    let cs = chars_of(p);
    let n = named_segments(&cs);
    if n.len() == 0 {
        None
    } else {
        assert(views(n@)[0] == n@[0]@);
        Some(string_from_chars(&n[0]))
    }
}

/// The path with its first component taken off.
pub fn strip_first_component(p: &str) -> (r: String)
    ensures
        r@ == without_first(p@),
{
    let cs = chars_of(p);
    let n = named_segments(&cs);
    let mut rest: Vec<Vec<char>> = Vec::new();
    if n.len() == 0 {
        assert(views(rest@) =~= Seq::<Seq<char>>::empty());
        return string_from_chars(&join_segments(&rest));
    }
    let mut i: usize = 1;
    while i < n.len()
        invariant
            1 <= i <= n@.len(),
            views(rest@) =~= views(n@).subrange(1, i as int),
        decreases n@.len() - i,
    {
        let ghost before = rest@;
        rest.push(sub_all(&n[i]));
        proof {
            assert(views(rest@) =~= views(before).push(n@[i as int]@));
            assert(views(rest@) =~= views(n@).subrange(1, i + 1));
        }
        i = i + 1;
    }
    assert(views(n@).skip(1) =~= views(rest@));
    string_from_chars(&join_segments(&rest))
}

} // verus!
