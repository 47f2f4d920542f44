//! Heuristics on installed content and crash logs, and the choice of a
//! Modrinth version for an instance.

use vstd::prelude::*;
use crate::argus::backend::BackendBridge;
use crate::argus::state::{max_len, part_at};
use crate::modrinth::{Version, same_version};
use crate::paths::{file_stem, path_file_stem};
use crate::text::{
    chars_of, contains, eq_ignore_case, extend_chars, is_ascii_alnum, is_ascii_alpha, is_digit,
    is_ws, lowercase, parse_u64, parse_unsigned, split_chars, split_on, starts_with,
    starts_with_chars, string_from_chars, strip_leading, strip_leading_chars, sub_chars,
    to_lowercase, trim, trim_chars, views,
};

verus! {

// ===================== version in a file name =====================

pub open spec fn has_digit(p: Seq<char>) -> bool {
    exists|i: int| 0 <= i < p.len() && is_digit(#[trigger] p[i])
}

pub open spec fn has_char(p: Seq<char>, c: char) -> bool {
    exists|i: int| 0 <= i < p.len() && #[trigger] p[i] == c
}

/// A dash-separated piece that looks like a version: it has a digit and a
/// `.` or `+`, and is not a Minecraft version tag (`mc…`/`MC…`).
pub open spec fn looks_like_version(p: Seq<char>) -> bool {
    &&& has_digit(p)
    &&& (has_char(p, '.') || has_char(p, '+'))
    &&& !starts_with(p, "mc"@)
    &&& !starts_with(p, "MC"@)
}

pub open spec fn first_version_piece(ps: Seq<Seq<char>>) -> Option<Seq<char>>
    decreases ps.len(),
{
    if ps.len() == 0 {
        None
    } else if looks_like_version(ps[0]) {
        Some(ps[0])
    } else {
        first_version_piece(ps.drop_first())
    }
}

/// The version a mod file name carries: the first dash-separated piece of
/// its stem that looks like a version, else the last piece.
pub open spec fn version_in_name(filename: Seq<char>) -> Option<Seq<char>> {
    match file_stem(filename) {
        None => None,
        Some(st) => {
            let ps = split_on(st, '-');
            match first_version_piece(ps) {
                Some(p) => Some(p),
                None => Some(ps.last()),
            }
        },
    }
}

fn has_char_exec(p: &Vec<char>, c: char) -> (r: bool)
    ensures
        r == has_char(p@, c),
{
    let mut i: usize = 0;
    while i < p.len()
        invariant
            i <= p@.len(),
            forall|k: int| 0 <= k < i ==> p@[k] != c,
        decreases p@.len() - i,
    {
        if p[i] == c {
            return true;
        }
        i = i + 1;
    }
    false
}

fn has_digit_exec(p: &Vec<char>) -> (r: bool)
    ensures
        r == has_digit(p@),
{
    let mut i: usize = 0;
    while i < p.len()
        invariant
            i <= p@.len(),
            forall|k: int| 0 <= k < i ==> !is_digit(#[trigger] p@[k]),
        decreases p@.len() - i,
    {
        if crate::text::is_ascii_digit(p[i]) {
            return true;
        }
        i = i + 1;
    }
    false
}

// ===================== version order =====================

/// The numeric components of a version string: trimmed, leading `v`s
/// removed, split at dots, keeping only the components that parse as `u64`.
pub open spec fn numeric_parts(s: Seq<char>) -> Seq<nat> {
    parsed_only(split_on(strip_leading(trim(s), 'v'), '.'))
}

pub open spec fn parsed_only(ps: Seq<Seq<char>>) -> Seq<nat>
    decreases ps.len(),
{
    if ps.len() == 0 {
        Seq::empty()
    } else {
        let p = parsed_only(ps.drop_last());
        match parse_unsigned(ps.last(), u64::MAX as int) {
            Some(n) => p.push(n),
            None => p,
        }
    }
}

/// -1, 0 or 1 as `a` is below, equal to or above `b`, comparing components
/// from index `i` on (missing ones read as 0).
pub open spec fn order_from(a: Seq<nat>, b: Seq<nat>, i: int) -> int
    decreases max_len(a, b) - i,
{
    if i < 0 || i >= max_len(a, b) {
        0
    } else if part_at(a, i) > part_at(b, i) {
        1
    } else if part_at(a, i) < part_at(b, i) {
        -1
    } else {
        order_from(a, b, i + 1)
    }
}

/// How version `a` relates to version `b`; any version is above none.
pub open spec fn version_order(a: Seq<char>, b: Option<Seq<char>>) -> int {
    match b {
        None => 1,
        Some(b) => order_from(numeric_parts(a), numeric_parts(b), 0),
    }
}

fn numeric_parts_exec(s: &str) -> (r: Vec<u64>)
    ensures
        r@.map_values(|x: u64| x as nat) == numeric_parts(s@),
{
    let cs = chars_of(s);
    let t = trim_chars(&cs);
    let u = strip_leading_chars(&t, 'v');
    let pieces = split_chars(&u, '.');
    let ghost ps = views(pieces@);
    let mut out: Vec<u64> = Vec::new();
    let mut i: usize = 0;
    while i < pieces.len()
        invariant
            i <= pieces@.len(),
            ps == views(pieces@),
            ps == split_on(strip_leading(trim(s@), 'v'), '.'),
            out@.map_values(|x: u64| x as nat) == parsed_only(ps.subrange(0, i as int)),
        decreases pieces@.len() - i,
    {
        proof {
            assert(ps.subrange(0, i + 1).drop_last() =~= ps.subrange(0, i as int));
            assert(ps[i as int] == pieces@[i as int]@);
        }
        let ghost before = out@;
        match parse_u64(&pieces[i]) {
            Some(n) => {
                out.push(n);
                proof {
                    assert(out@.map_values(|x: u64| x as nat) =~= before.map_values(
                        |x: u64| x as nat,
                    ).push(n as nat));
                }
            },
            None => {},
        }
        i = i + 1;
    }
    assert(ps.subrange(0, pieces@.len() as int) =~= ps);
    out
}

// ===================== title and file name =====================

/// The maximal runs of ASCII letters and digits.
pub open spec fn alnum_runs(s: Seq<char>) -> Seq<Seq<char>>
    decreases s.len(),
{
    if s.len() == 0 {
        Seq::empty()
    } else {
        let p = alnum_runs(s.drop_last());
        if !is_ascii_alnum(s.last()) {
            p
        } else if s.len() >= 2 && is_ascii_alnum(s[s.len() - 2]) {
            p.update(p.len() - 1, p.last().push(s.last()))
        } else {
            p.push(seq![s.last()])
        }
    }
}

/// The runs concatenated.
pub open spec fn concat_all(t: Seq<Seq<char>>) -> Seq<char>
    decreases t.len(),
{
    if t.len() == 0 {
        Seq::empty()
    } else {
        concat_all(t.drop_last()) + t.last()
    }
}

/// Whether an installed file name looks like it came from the project with
/// this title: the title's words (lower-cased, split at everything but
/// ASCII letters and digits) lead the file stem's words, or their
/// concatenation is a prefix of the stem that no letter continues.
pub open spec fn title_matches(title: Seq<char>, filename: Seq<char>) -> bool {
    let stem = match file_stem(filename) {
        Some(st) => lowercase(st),
        None => Seq::empty(),
    };
    let tl = lowercase(trim(title));
    let tt = alnum_runs(tl);
    let ft = alnum_runs(stem);
    if tl.len() == 0 || stem.len() == 0 || tt.len() == 0 || ft.len() == 0 {
        false
    } else if ft.len() >= tt.len() && ft.subrange(0, tt.len() as int) == tt {
        true
    } else {
        let cc = concat_all(tt);
        starts_with(stem, cc) && (stem.len() == cc.len() || !is_ascii_alpha(stem[cc.len() as int]))
    }
}

fn alnum_runs_exec(s: &[char]) -> (r: Vec<Vec<char>>)
    ensures
        views(r@) == alnum_runs(s@),
{
    let mut out: Vec<Vec<char>> = Vec::new();
    let mut cur: Vec<char> = Vec::new();
    let mut i: usize = 0;
    let mut in_run = false;
    while i < s.len()
        invariant
            i <= s@.len(),
            in_run == (i > 0 && is_ascii_alnum(s@[i - 1])),
            !in_run ==> cur@.len() == 0 && views(out@) == alnum_runs(s@.subrange(0, i as int)),
            in_run ==> views(out@).push(cur@) == alnum_runs(s@.subrange(0, i as int)),
        decreases s@.len() - i,
    {
        let c = s[i];
        let ghost pre = s@.subrange(0, i as int);
        let ghost next = s@.subrange(0, i + 1);
        proof {
            assert(next.drop_last() =~= pre);
            assert(next.last() == c);
            if i > 0 {
                assert(next[next.len() - 2] == s@[i - 1]);
            }
        }
        if crate::text::is_alnum(c) {
            cur.push(c);
            proof {
                if !in_run {
                    assert(cur@ =~= seq![c]);
                    assert(views(out@).push(cur@) =~= alnum_runs(next));
                } else {
                    let p = alnum_runs(pre);
                    assert(views(out@).push(cur@) =~= p.update(p.len() - 1, p.last().push(c)));
                }
            }
            in_run = true;
        } else {
            if in_run {
                let done = cur;
                out.push(done);
                cur = Vec::new();
                proof {
                    assert(views(out@) =~= alnum_runs(next));
                }
            }
            in_run = false;
        }
        i = i + 1;
    }
    if in_run {
        out.push(cur);
    }
    proof {
        assert(s@.subrange(0, s@.len() as int) =~= s@);
        assert(views(out@) =~= alnum_runs(s@));
    }
    out
}

fn runs_prefix_equal(ft: &Vec<Vec<char>>, tt: &Vec<Vec<char>>) -> (r: bool)
    requires
        ft@.len() >= tt@.len(),
    ensures
        r == (views(ft@).subrange(0, tt@.len() as int) == views(tt@)),
{
    let mut i: usize = 0;
    while i < tt.len()
        invariant
            i <= tt@.len(),
            tt@.len() <= ft@.len(),
            forall|k: int| 0 <= k < i ==> ft@[k]@ == tt@[k]@,
        decreases tt@.len() - i,
    {
        if !crate::text::chars_eq(&ft[i], &tt[i]) {
            proof {
                assert(views(ft@).subrange(0, tt@.len() as int)[i as int] == ft@[i as int]@);
                assert(views(tt@)[i as int] == tt@[i as int]@);
            }
            return false;
        }
        i = i + 1;
    }
    assert(views(ft@).subrange(0, tt@.len() as int) =~= views(tt@));
    true
}

fn concat_runs(t: &Vec<Vec<char>>) -> (r: Vec<char>)
    ensures
        r@ == concat_all(views(t@)),
{
    let mut out: Vec<char> = Vec::new();
    let mut i: usize = 0;
    while i < t.len()
        invariant
            i <= t@.len(),
            out@ == concat_all(views(t@).subrange(0, i as int)),
        decreases t@.len() - i,
    {
        proof {
            assert(views(t@).subrange(0, i + 1).drop_last() =~= views(t@).subrange(0, i as int));
            assert(views(t@)[i as int] == t@[i as int]@);
        }
        extend_chars(&mut out, &t[i]);
        i = i + 1;
    }
    assert(views(t@).subrange(0, t@.len() as int) =~= views(t@));
    out
}

// ===================== crash reports =====================

/// A crash log line that names the exception: it starts with `# ` and
/// mentions `EXCEPTION`.
pub open spec fn exception_line(t: Seq<char>) -> bool {
    starts_with(t, "# "@) && contains(t, "EXCEPTION"@)
}

/// `s` with every leading occurrence of `p` removed
/// (`str::trim_start_matches` with a string pattern).
pub open spec fn strip_prefix_all(s: Seq<char>, p: Seq<char>) -> Seq<char>
    decreases s.len(),
{
    if p.len() > 0 && starts_with(s, p) {
        strip_prefix_all(s.subrange(p.len() as int, s.len() as int), p)
    } else {
        s
    }
}

/// What a crash report's lines give, read from line `i` on with what was
/// found so far: the exception line, the thread, and the JVM line, at
/// which reading stops.
pub open spec fn report_fields(
    lines: Seq<Seq<char>>,
    i: int,
    exc: Seq<char>,
    thr: Seq<char>,
) -> (Seq<char>, Seq<char>, Seq<char>)
    decreases lines.len() - i,
{
    if i < 0 || i >= lines.len() {
        (exc, thr, Seq::empty())
    } else {
        let t = trim(lines[i]);
        if exception_line(t) {
            report_fields(lines, i + 1, t, thr)
        } else if starts_with(t, "Thread:"@) {
            report_fields(lines, i + 1, exc, trim(strip_prefix_all(t, "Thread:"@)))
        } else if contains(t, "OpenJDK"@) || contains(t, "jdk"@) {
            (exc, thr, t)
        } else {
            report_fields(lines, i + 1, exc, thr)
        }
    }
}

/// The first exception line of a crash log, trimmed.
pub open spec fn first_exception(lines: Seq<Seq<char>>) -> Option<Seq<char>>
    decreases lines.len(),
{
    if lines.len() == 0 {
        None
    } else if exception_line(trim(lines[0])) {
        Some(trim(lines[0]))
    } else {
        first_exception(lines.drop_first())
    }
}

pub(crate) fn strip_prefix_all_exec(s: &Vec<char>, p: &Vec<char>) -> (r: Vec<char>)
    requires
        p@.len() > 0,
    ensures
        r@ == strip_prefix_all(s@, p@),
{
    let mut i: usize = 0;
    assert(s@.subrange(0, s@.len() as int) =~= s@);
    while p.len() <= s.len() - i && crate::text::matches_at(s, p, i)
        invariant
            i <= s@.len(),
            p@.len() > 0,
            strip_prefix_all(s@.subrange(i as int, s@.len() as int), p@) == strip_prefix_all(
                s@,
                p@,
            ),
        decreases s@.len() - i,
    {
        proof {
            let rest = s@.subrange(i as int, s@.len() as int);
            assert(rest.subrange(0, p@.len() as int) =~= s@.subrange(i as int, i + p@.len()));
            assert(rest.subrange(p@.len() as int, rest.len() as int) =~= s@.subrange(
                i + p@.len(),
                s@.len() as int,
            ));
        }
        i = i + p.len();
    }
    proof {
        let rest = s@.subrange(i as int, s@.len() as int);
        if starts_with(rest, p@) {
            assert(rest.subrange(0, p@.len() as int) =~= s@.subrange(i as int, i + p@.len()));
        }
    }
    sub_chars(s, i, s.len())
}

impl BackendBridge {
    /// The version a mod file name carries, such as `0.5.11` in
    /// `sodium-0.5.11.jar`.
    pub fn extract_version_from_filename(filename: &str) -> (r: Option<String>)
        ensures
            match version_in_name(filename@) {
                None => r is None,
                Some(v) => r matches Some(s) && s@ == v,
            },
    {
        proof {
            reveal_strlit("mc");
            reveal_strlit("MC");
        }
        let stem = match path_file_stem(filename) {
            None => {
                return None;
            },
            Some(s) => s,
        };
        let sc = chars_of(stem.as_str());
        let parts = split_chars(&sc, '-');
        let ghost ps = views(parts@);
        let mc = chars_of("mc");
        let mc_up = chars_of("MC");
        let mut i: usize = 0;
        assert(ps.subrange(0, ps.len() as int) =~= ps);
        while i < parts.len()
            invariant
                i <= parts@.len(),
                ps == views(parts@),
                ps == split_on(stem@, '-'),
                file_stem(filename@) == Some(stem@),
                mc@ == "mc"@,
                mc_up@ == "MC"@,
                first_version_piece(ps.subrange(i as int, ps.len() as int)) == first_version_piece(
                    ps,
                ),
            decreases parts@.len() - i,
        {
            let p = &parts[i];
            proof {
                assert(ps.subrange(i as int, ps.len() as int).drop_first() =~= ps.subrange(
                    i + 1,
                    ps.len() as int,
                ));
                assert(ps.subrange(i as int, ps.len() as int)[0] == p@);
            }
            if has_digit_exec(p) && (has_char_exec(p, '.') || has_char_exec(p, '+'))
                && !starts_with_chars(p, &mc) && !starts_with_chars(p, &mc_up) {
                assert(looks_like_version(p@));
                assert(first_version_piece(ps.subrange(i as int, ps.len() as int)) == Some(p@));
                return Some(string_from_chars(p));
            }
            i = i + 1;
        }
        let last = &parts[parts.len() - 1];
        assert(ps.last() == last@);
        Some(string_from_chars(last))
    }

    /// How version `a` relates to version `b`: 1 above, -1 below, 0 equal;
    /// components that do not parse are skipped, missing ones read as 0,
    /// and any version is above `None`.
    pub fn compare_versions(a: &str, b: Option<&str>) -> (r: i32)
        ensures
            r as int == version_order(a@, match b {
                Some(s) => Some(s@),
                None => None,
            }),
    {
        let bs = match b {
            None => {
                return 1;
            },
            Some(s) => s,
        };
        let av = numeric_parts_exec(a);
        let bv = numeric_parts_exec(bs);
        let ghost an = av@.map_values(|x: u64| x as nat);
        let ghost bn = bv@.map_values(|x: u64| x as nat);
        let n = if av.len() < bv.len() {
            bv.len()
        } else {
            av.len()
        };
        let mut i: usize = 0;
        while i < n
            invariant
                an == numeric_parts(a@),
                bn == numeric_parts(bs@),
                b == Some(bs),
                an == av@.map_values(|x: u64| x as nat),
                bn == bv@.map_values(|x: u64| x as nat),
                n == max_len(an, bn),
                i <= n,
                order_from(an, bn, i as int) == order_from(an, bn, 0),
            decreases n - i,
        {
            let x: u64 = if i < av.len() {
                av[i]
            } else {
                0
            };
            let y: u64 = if i < bv.len() {
                bv[i]
            } else {
                0
            };
            assert(x as nat == part_at(an, i as int));
            assert(y as nat == part_at(bn, i as int));
            if x > y {
                assert(order_from(an, bn, i as int) == 1);
                return 1;
            } else if x < y {
                assert(order_from(an, bn, i as int) == -1);
                return -1;
            }
            i = i + 1;
        }
        0
    }

    /// Whether an installed file name looks like it came from the project
    /// with this title.
    pub fn title_matches_file(title: &str, filename: &str) -> (r: bool)
        ensures
            r == title_matches(title@, filename@),
    {
        let stem = match path_file_stem(filename) {
            Some(st) => to_lowercase(st.as_str()),
            None => String::new(),
        };
        let tcs = chars_of(title);
        let tt_trim = string_from_chars(&trim_chars(&tcs));
        let tl = to_lowercase(tt_trim.as_str());
        let tlc = chars_of(tl.as_str());
        let sc = chars_of(stem.as_str());
        if tlc.len() == 0 || sc.len() == 0 {
            return false;
        }
        let tt = alnum_runs_exec(&tlc);
        let ft = alnum_runs_exec(&sc);
        if tt.len() == 0 || ft.len() == 0 {
            return false;
        }
        if ft.len() >= tt.len() && runs_prefix_equal(&ft, &tt) {
            return true;
        }
        let cc = concat_runs(&tt);
        if starts_with_chars(&sc, &cc) {
            if sc.len() == cc.len() {
                true
            } else {
                !crate::text::is_alpha(sc[cc.len()])
            }
        } else {
            false
        }
    }

    /// Reads a JVM crash report: its exception line, its thread, and its
    /// JVM line (reading stops at the first line that mentions `OpenJDK` or
    /// `jdk`).
    pub fn parse_crash_report(content: &str) -> (r: (String, String, String))
        ensures
            (r.0@, r.1@, r.2@) == report_fields(
                split_on(content@, '\n'),
                0,
                Seq::empty(),
                Seq::empty(),
            ),
    {
        proof {
            reveal_strlit("# ");
            reveal_strlit("EXCEPTION");
            reveal_strlit("Thread:");
            reveal_strlit("OpenJDK");
            reveal_strlit("jdk");
        }
        let cs = chars_of(content);
        let lines = split_chars(&cs, '\n');
        let ghost ls = views(lines@);
        let hash = chars_of("# ");
        let exc_word = chars_of("EXCEPTION");
        let thread_word = chars_of("Thread:");
        let openjdk = chars_of("OpenJDK");
        let jdk = chars_of("jdk");
        let mut exception: Vec<char> = Vec::new();
        let mut thread: Vec<char> = Vec::new();
        let mut i: usize = 0;
        while i < lines.len()
            invariant
                i <= lines@.len(),
                ls == views(lines@),
                ls == split_on(content@, '\n'),
                hash@ == "# "@,
                exc_word@ == "EXCEPTION"@,
                thread_word@ == "Thread:"@,
                openjdk@ == "OpenJDK"@,
                jdk@ == "jdk"@,
                report_fields(ls, i as int, exception@, thread@) == report_fields(
                    ls,
                    0,
                    Seq::empty(),
                    Seq::empty(),
                ),
            decreases lines@.len() - i,
        {
            assert(ls[i as int] == lines@[i as int]@);
            let t = trim_chars(&lines[i]);
            if starts_with_chars(&t, &hash) && crate::text::contains_chars(&t, &exc_word) {
                exception = t;
            } else if starts_with_chars(&t, &thread_word) {
                proof {
                    reveal_strlit("Thread:");
                }
                assert(thread_word@.len() > 0);
                let rest = strip_prefix_all_exec(&t, &thread_word);
                thread = trim_chars(&rest);
            } else if crate::text::contains_chars(&t, &openjdk) || crate::text::contains_chars(
                &t,
                &jdk,
            ) {
                return (string_from_chars(&exception), string_from_chars(&thread), string_from_chars(&t));
            }
            i = i + 1;
        }
        (string_from_chars(&exception), string_from_chars(&thread), String::new())
    }

    /// The first exception line of a crash report, or `Unknown crash`.
    pub fn summarize_crash(content: &str) -> (r: String)
        ensures
            r@ == match first_exception(split_on(content@, '\n')) {
                Some(t) => t,
                None => "Unknown crash"@,
            },
    {
        proof {
            reveal_strlit("# ");
            reveal_strlit("EXCEPTION");
        }
        let cs = chars_of(content);
        let lines = split_chars(&cs, '\n');
        let ghost ls = views(lines@);
        let hash = chars_of("# ");
        let exc_word = chars_of("EXCEPTION");
        let mut i: usize = 0;
        assert(ls.subrange(0, ls.len() as int) =~= ls);
        while i < lines.len()
            invariant
                i <= lines@.len(),
                ls == views(lines@),
                ls == split_on(content@, '\n'),
                hash@ == "# "@,
                exc_word@ == "EXCEPTION"@,
                first_exception(ls.subrange(i as int, ls.len() as int)) == first_exception(ls),
            decreases lines@.len() - i,
        {
            proof {
                assert(ls.subrange(i as int, ls.len() as int).drop_first() =~= ls.subrange(
                    i + 1,
                    ls.len() as int,
                ));
                assert(ls.subrange(i as int, ls.len() as int)[0] == lines@[i as int]@);
            }
            let t = trim_chars(&lines[i]);
            if starts_with_chars(&t, &hash) && crate::text::contains_chars(&t, &exc_word) {
                return string_from_chars(&t);
            }
            i = i + 1;
        }
        "Unknown crash".to_owned()
    }
}

// ===================== choosing a Modrinth version =====================

/// Release builds rank 0, betas 1, everything else 2 (by the lower-cased
/// version type).
pub open spec fn rank_of(v: Version) -> nat {
    if lowercase(v.version_type@) == "release"@ {
        0
    } else if lowercase(v.version_type@) == "beta"@ {
        1
    } else {
        2
    }
}

/// The indices below `n` of the versions of rank `k`, in order.
pub open spec fn indices_of_rank(vs: Seq<Version>, k: nat, n: int) -> Seq<int>
    decreases n,
{
    if n <= 0 {
        Seq::empty()
    } else if rank_of(vs[n - 1]) == k {
        indices_of_rank(vs, k, n - 1).push(n - 1)
    } else {
        indices_of_rank(vs, k, n - 1)
    }
}

/// The version indices ordered releases first, then betas, then the rest,
/// keeping the listed order within each rank (a stable sort by rank).
pub open spec fn ranked_indices(vs: Seq<Version>) -> Seq<int> {
    indices_of_rank(vs, 0, vs.len() as int) + indices_of_rank(vs, 1, vs.len() as int)
        + indices_of_rank(vs, 2, vs.len() as int)
}

/// Whether a version declares loader `l` (ignoring ASCII case).
pub open spec fn supports_loader(v: Version, l: Seq<char>) -> bool {
    exists|i: int| 0 <= i < v.loaders@.len() && eq_ignore_case(#[trigger] v.loaders@[i]@, l)
}

/// Whether a version lists game version `g`.
pub open spec fn targets_game(v: Version, g: Seq<char>) -> bool {
    exists|i: int| 0 <= i < v.game_versions@.len() && #[trigger] v.game_versions@[i]@ == g
}

/// The indices of `idx` whose version supports loader `l`, in order.
pub open spec fn for_loader(vs: Seq<Version>, idx: Seq<int>, l: Seq<char>) -> Seq<int>
    decreases idx.len(),
{
    if idx.len() == 0 {
        idx
    } else if supports_loader(vs[idx.last()], l) {
        for_loader(vs, idx.drop_last(), l).push(idx.last())
    } else {
        for_loader(vs, idx.drop_last(), l)
    }
}

/// The first index of `idx` whose version targets game version `g`.
pub open spec fn first_for_game(vs: Seq<Version>, idx: Seq<int>, g: Seq<char>) -> Option<int>
    decreases idx.len(),
{
    if idx.len() == 0 {
        None
    } else if targets_game(vs[idx[0]], g) {
        Some(idx[0])
    } else {
        first_for_game(vs, idx.drop_first(), g)
    }
}

/// The index of the version to install, or the error message: among the
/// builds for `loader` (all builds when none is given), ranked releases
/// first, the first that targets `game`, else the first of them.
pub open spec fn pick_index(vs: Seq<Version>, loader: Option<Seq<char>>, game: Seq<char>) -> Result<int, Seq<char>> {
    let pool = match loader {
        Some(l) => for_loader(vs, ranked_indices(vs), l),
        None => ranked_indices(vs),
    };
    if pool.len() == 0 {
        match loader {
            Some(l) => Err(
                "This project has no '"@ + l + "' builds — it targets a different mod loader"@,
            ),
            None => Err("No downloadable versions found"@),
        }
    } else {
        match first_for_game(vs, pool, game) {
            Some(j) => Ok(j),
            None => Ok(pool[0]),
        }
    }
}

/// The indices of the versions that list `game` and (when given) support
/// `loader`, releases first (by ASCII-case-insensitive `release`), each
/// group in listed order.
pub open spec fn scoped_indices(vs: Seq<Version>, loader: Option<Seq<char>>, game: Seq<char>) -> Seq<int> {
    scoped_part(vs, loader, game, true, vs.len() as int) + scoped_part(
        vs,
        loader,
        game,
        false,
        vs.len() as int,
    )
}

pub open spec fn is_release(v: Version) -> bool {
    eq_ignore_case(v.version_type@, "release"@)
}

pub open spec fn in_scope(v: Version, loader: Option<Seq<char>>, game: Seq<char>) -> bool {
    targets_game(v, game) && match loader {
        Some(l) => supports_loader(v, l),
        None => true,
    }
}

pub open spec fn scoped_part(
    vs: Seq<Version>,
    loader: Option<Seq<char>>,
    game: Seq<char>,
    release: bool,
    n: int,
) -> Seq<int>
    decreases n,
{
    if n <= 0 {
        Seq::empty()
    } else if in_scope(vs[n - 1], loader, game) && is_release(vs[n - 1]) == release {
        scoped_part(vs, loader, game, release, n - 1).push(n - 1)
    } else {
        scoped_part(vs, loader, game, release, n - 1)
    }
}

fn rank_exec(v: &Version) -> (r: u8)
    ensures
        r as nat == rank_of(*v),
{
    proof {
        reveal_strlit("release");
        reveal_strlit("beta");
    }
    let t = to_lowercase(v.version_type.as_str());
    if crate::text::str_eq(t.as_str(), "release") {
        0
    } else if crate::text::str_eq(t.as_str(), "beta") {
        1
    } else {
        2
    }
}

fn supports_loader_exec(v: &Version, l: &str) -> (r: bool)
    ensures
        r == supports_loader(*v, l@),
{
    let lc = chars_of(l);
    let mut i: usize = 0;
    while i < v.loaders.len()
        invariant
            i <= v.loaders@.len(),
            lc@ == l@,
            forall|k: int| 0 <= k < i ==> !eq_ignore_case(#[trigger] v.loaders@[k]@, l@),
        decreases v.loaders@.len() - i,
    {
        let x = chars_of(v.loaders[i].as_str());
        if crate::text::eq_ignore_ascii_case(&x, &lc) {
            return true;
        }
        i = i + 1;
    }
    false
}

fn targets_game_exec(v: &Version, g: &str) -> (r: bool)
    ensures
        r == targets_game(*v, g@),
{
    let mut i: usize = 0;
    while i < v.game_versions.len()
        invariant
            i <= v.game_versions@.len(),
            forall|k: int| 0 <= k < i ==> #[trigger] v.game_versions@[k]@ != g@,
        decreases v.game_versions@.len() - i,
    {
        if crate::text::str_eq(v.game_versions[i].as_str(), g) {
            return true;
        }
        i = i + 1;
    }
    false
}

fn push_rank(vs: &[Version], k: u8, out: &mut Vec<usize>)
    requires
        k <= 2,
    ensures
        final(out)@.map_values(|x: usize| x as int) == old(out)@.map_values(|x: usize| x as int)
            + indices_of_rank(vs@, k as nat, vs@.len() as int),
        forall|m: int| 0 <= m < final(out)@.len() ==> m < old(out)@.len() || #[trigger] final(out)@[m] < vs@.len(),
        forall|m: int| 0 <= m < old(out)@.len() ==> final(out)@[m] == old(out)@[m],
{
    let ghost base = out@.map_values(|x: usize| x as int);
    let ghost n0 = out@.len();
    let mut j: usize = 0;
    while j < vs.len()
        invariant
            j <= vs@.len(),
            n0 == old(out)@.len(),
            n0 <= out@.len(),
            base == old(out)@.map_values(|x: usize| x as int),
            out@.map_values(|x: usize| x as int) == base + indices_of_rank(vs@, k as nat, j as int),
            forall|m: int| 0 <= m < out@.len() ==> m < n0 || #[trigger] out@[m] < vs@.len(),
            forall|m: int| 0 <= m < n0 ==> out@[m] == old(out)@[m],
        decreases vs@.len() - j,
    {
        if rank_exec(&vs[j]) == k {
            let ghost before = out@;
            out.push(j);
            proof {
                assert(out@.map_values(|x: usize| x as int) =~= before.map_values(|x: usize| x as int).push(j as int));
            }
        }
        j = j + 1;
    }
}

impl BackendBridge {
    /// The version to install for an instance: among builds for `loader`
    /// (all builds when `None`), releases before betas before alphas, the
    /// first that lists `game_version`, else the first. Refused when no
    /// build supports the loader, or when there is no build at all.
    pub fn pick_compatible_version(versions: &[Version], loader: Option<&str>, game_version: &str) -> (r: Result<Version, String>)
        ensures
            match (r, pick_index(versions@, match loader {
                Some(l) => Some(l@),
                None => None,
            }, game_version@)) {
                (Ok(v), Ok(j)) => 0 <= j < versions@.len() && same_version(v, versions@[j]),
                (Err(m), Err(e)) => m@ == e,
                _ => false,
            },
    {
        let ghost lv: Option<Seq<char>> = match loader {
            Some(l) => Some(l@),
            None => None,
        };
        let mut ranked: Vec<usize> = Vec::new();
        push_rank(versions, 0, &mut ranked);
        push_rank(versions, 1, &mut ranked);
        push_rank(versions, 2, &mut ranked);
        let ghost rk = ranked@.map_values(|x: usize| x as int);
        assert(rk =~= ranked_indices(versions@));
        let pool: Vec<usize> = match loader {
            Some(l) => {
                let mut m: Vec<usize> = Vec::new();
                let mut i: usize = 0;
                while i < ranked.len()
                    invariant
                        i <= ranked@.len(),
                        rk == ranked@.map_values(|x: usize| x as int),
                        forall|q: int| 0 <= q < ranked@.len() ==> #[trigger] ranked@[q] < versions@.len(),
                        m@.map_values(|x: usize| x as int) == for_loader(versions@, rk.subrange(0, i as int), l@),
                        forall|q: int| 0 <= q < m@.len() ==> #[trigger] m@[q] < versions@.len(),
                    decreases ranked@.len() - i,
                {
                    proof {
                        assert(rk.subrange(0, i + 1).drop_last() =~= rk.subrange(0, i as int));
                        assert(rk.subrange(0, i + 1).last() == ranked@[i as int] as int);
                    }
                    let j = ranked[i];
                    if supports_loader_exec(&versions[j], l) {
                        let ghost before = m@;
                        m.push(j);
                        proof {
                            assert(m@.map_values(|x: usize| x as int) =~= before.map_values(|x: usize| x as int).push(j as int));
                        }
                    }
                    i = i + 1;
                }
                assert(rk.subrange(0, ranked@.len() as int) =~= rk);
                if m.len() == 0 {
                    let mut msg: Vec<char> = Vec::new();
                    extend_chars(&mut msg, &chars_of("This project has no '"));
                    extend_chars(&mut msg, &chars_of(l));
                    extend_chars(&mut msg, &chars_of("' builds — it targets a different mod loader"));
                    return Err(string_from_chars(&msg));
                }
                m
            },
            None => ranked,
        };
        let ghost pv = pool@.map_values(|x: usize| x as int);
        assert(pv == match lv {
            Some(l) => for_loader(versions@, ranked_indices(versions@), l),
            None => ranked_indices(versions@),
        });
        if pool.len() == 0 {
            return Err("No downloadable versions found".to_owned());
        }
        let mut i: usize = 0;
        assert(pv.subrange(0, pv.len() as int) =~= pv);
        while i < pool.len()
            invariant
                i <= pool@.len(),
                pool@.len() > 0,
                pv == pool@.map_values(|x: usize| x as int),
                lv == match loader {
                    Some(l) => Some(l@),
                    None => None::<Seq<char>>,
                },
                pv == match lv {
                    Some(l) => for_loader(versions@, ranked_indices(versions@), l),
                    None => ranked_indices(versions@),
                },
                forall|q: int| 0 <= q < pool@.len() ==> #[trigger] pool@[q] < versions@.len(),
                first_for_game(versions@, pv.subrange(i as int, pv.len() as int), game_version@) == first_for_game(versions@, pv, game_version@),
            decreases pool@.len() - i,
        {
            proof {
                assert(pv.subrange(i as int, pv.len() as int).drop_first() =~= pv.subrange(i + 1, pv.len() as int));
                assert(pv.subrange(i as int, pv.len() as int)[0] == pool@[i as int] as int);
            }
            let j = pool[i];
            if targets_game_exec(&versions[j], game_version) {
                return Ok(versions[j].clone());
            }
            i = i + 1;
        }
        Ok(versions[pool[0]].clone())
    }

    /// The versions of a project that list `game_version` and (when given)
    /// support `loader`, releases first, each group in listed order.
    pub fn list_project_versions_scoped(all: &[Version], loader: Option<&str>, game_version: &str) -> (r: Vec<Version>)
        ensures
            ({
                let idx = scoped_indices(all@, match loader {
                    Some(l) => Some(l@),
                    None => None,
                }, game_version@);
                &&& r@.len() == idx.len()
                &&& forall|i: int| 0 <= i < idx.len() ==> 0 <= idx[i] < all@.len() && same_version(#[trigger] r@[i], all@[idx[i]])
            }),
    {
        proof {
            reveal_strlit("release");
        }
        let ghost lv: Option<Seq<char>> = match loader {
            Some(l) => Some(l@),
            None => None,
        };
        let rel = chars_of("release");
        let mut picked: Vec<usize> = Vec::new();
        let mut pass: usize = 0;
        while pass < 2
            invariant
                pass <= 2,
                rel@ == "release"@,
                forall|q: int| 0 <= q < picked@.len() ==> #[trigger] picked@[q] < all@.len(),
                pass == 0 ==> picked@.map_values(|x: usize| x as int) == Seq::<int>::empty(),
                pass == 1 ==> picked@.map_values(|x: usize| x as int) == scoped_part(all@, lv, game_version@, true, all@.len() as int),
                pass == 2 ==> picked@.map_values(|x: usize| x as int) == scoped_indices(all@, lv, game_version@),
                lv == match loader {
                    Some(l) => Some(l@),
                    None => None::<Seq<char>>,
                },
            decreases 2 - pass,
        {
            let want_release = pass == 0;
            let ghost base = picked@.map_values(|x: usize| x as int);
            let mut j: usize = 0;
            while j < all.len()
                invariant
                    j <= all@.len(),
                    rel@ == "release"@,
                    forall|q: int| 0 <= q < picked@.len() ==> #[trigger] picked@[q] < all@.len(),
                    picked@.map_values(|x: usize| x as int) == base + scoped_part(all@, lv, game_version@, want_release, j as int),
                    lv == match loader {
                        Some(l) => Some(l@),
                        None => None::<Seq<char>>,
                    },
                decreases all@.len() - j,
            {
                let v = &all[j];
                let scoped = targets_game_exec(v, game_version) && match loader {
                    Some(l) => supports_loader_exec(v, l),
                    None => true,
                };
                let tc = chars_of(v.version_type.as_str());
                let is_rel = crate::text::eq_ignore_ascii_case(&tc, &rel);
                if scoped && is_rel == want_release {
                    let ghost before = picked@;
                    picked.push(j);
                    proof {
                        assert(picked@.map_values(|x: usize| x as int) =~= before.map_values(|x: usize| x as int).push(j as int));
                    }
                }
                j = j + 1;
            }
            pass = pass + 1;
        }
        let ghost pk = picked@.map_values(|x: usize| x as int);
        let mut out: Vec<Version> = Vec::new();
        let mut k: usize = 0;
        while k < picked.len()
            invariant
                k <= picked@.len(),
                pk == picked@.map_values(|x: usize| x as int),
                forall|q: int| 0 <= q < picked@.len() ==> #[trigger] picked@[q] < all@.len(),
                out@.len() == k,
                forall|i: int| 0 <= i < k ==> same_version(#[trigger] out@[i], all@[pk[i]]),
            decreases picked@.len() - k,
        {
            let c = all[picked[k]].clone();
            out.push(c);
            k = k + 1;
        }
        out
    }
}

// ===================== laws =====================

proof fn lemma_order_from_antisymmetric(a: Seq<nat>, b: Seq<nat>, i: int)
    ensures
        order_from(a, b, i) == -order_from(b, a, i),
    decreases max_len(a, b) - i,
{
    assert(max_len(a, b) == max_len(b, a));
    if 0 <= i < max_len(a, b) && part_at(a, i) == part_at(b, i) {
        lemma_order_from_antisymmetric(a, b, i + 1);
    }
}

proof fn lemma_order_from_reflexive(a: Seq<nat>, i: int)
    ensures
        order_from(a, a, i) == 0,
    decreases max_len(a, a) - i,
{
    if 0 <= i < max_len(a, a) {
        lemma_order_from_reflexive(a, i + 1);
    }
}

/// Comparing two versions one way gives the opposite of comparing them the
/// other way, and every version equals itself.
pub proof fn law_version_order_antisymmetric(a: Seq<char>, b: Seq<char>)
    ensures
        version_order(a, Some(b)) == -version_order(b, Some(a)),
        version_order(a, Some(a)) == 0,
        -1 <= version_order(a, Some(b)) <= 1,
{
    lemma_order_from_antisymmetric(numeric_parts(a), numeric_parts(b), 0);
    lemma_order_from_reflexive(numeric_parts(a), 0);
    lemma_order_range(numeric_parts(a), numeric_parts(b), 0);
}

proof fn lemma_order_range(a: Seq<nat>, b: Seq<nat>, i: int)
    ensures
        -1 <= order_from(a, b, i) <= 1,
    decreases max_len(a, b) - i,
{
    if 0 <= i < max_len(a, b) {
        lemma_order_range(a, b, i + 1);
    }
}

} // verus!
