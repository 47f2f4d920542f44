//! Java runtimes: which major version a Minecraft release needs, reading
//! `java -version` output, and choosing among detected installations.
//!
//! Running `java -version` and walking the disk for candidates is the
//! application's part; the functions here take what it found.

use vstd::prelude::*;
use crate::text::{all_digits, chars_of, contains, contains_chars, decimal, digits_value, is_digit, lemma_decimal_value, parse_u32, parse_unsigned, split_chars, split_on, views};

verus! {

/// A parsed Java version.
pub struct JavaVersion {
    pub major: u32,
    pub minor: u32,
    pub path: String,
}

impl Clone for JavaVersion {
    fn clone(&self) -> (r: Self)
        ensures
            r == *self,
    {
        JavaVersion { major: self.major, minor: self.minor, path: self.path.clone() }
    }
}

/// A Java executable found on this machine, with its version when
/// `java -version` could be read.
pub struct JavaInstallation {
    pub path: String,
    pub version: Option<JavaVersion>,
}

impl Clone for JavaInstallation {
    fn clone(&self) -> (r: Self)
        ensures
            r == *self,
    {
        JavaInstallation { path: self.path.clone(), version: self.version.clone() }
    }
}

/// What probing one candidate executable gave: its path and the text that
/// `java -version` printed, or `None` when it could not be run.
pub struct JavaProbe {
    pub path: String,
    pub output: Option<String>,
}

/// `char::is_numeric`: whether the character's Unicode general category is
/// a number category (Nd, Nl or No).
pub uninterp spec fn numeric_char(c: char) -> bool;

/// `char::is_numeric`. Among ASCII characters exactly the digits `0`-`9`
/// are numeric; beyond ASCII the result is the Unicode category test.
#[verifier::external_body]
fn char_is_numeric(c: char) -> (r: bool)
    ensures
        r == numeric_char(c),
        (c as u32) < 128 ==> (r <==> crate::text::is_digit(c)),
{
    c.is_numeric()
}

/// The characters of `s` that are numeric or `.`, in order.
pub open spec fn numeric_and_dots(s: Seq<char>) -> Seq<char>
    decreases s.len(),
{
    if s.len() == 0 {
        s
    } else {
        let p = numeric_and_dots(s.drop_last());
        if numeric_char(s.last()) || s.last() == '.' {
            p.push(s.last())
        } else {
            p
        }
    }
}

/// The first of `lines` that contains `pat`.
pub open spec fn first_containing(lines: Seq<Seq<char>>, pat: Seq<char>) -> Option<Seq<char>>
    decreases lines.len(),
{
    if lines.len() == 0 {
        None
    } else if contains(lines[0], pat) {
        Some(lines[0])
    } else {
        first_containing(lines.drop_first(), pat)
    }
}

/// The major Java version that `java -version` output announces: take the
/// first line mentioning `version`, keep its numeric characters and dots,
/// split at dots; the first piece is the major version, except that a
/// leading `1` (as in `1.8.0`) means the second piece (0 when it does not
/// parse). `None` when there is no such line or the first piece does not
/// parse as a `u32`.
///
/// Lines are taken between `\n` characters; a trailing `\r` or a final empty
/// line, which `str::lines` would drop, changes neither which line mentions
/// `version` nor its numeric characters.
pub open spec fn announced_major(output: Seq<char>) -> Option<u32> {
    match first_containing(split_on(output, '\n'), "version"@) {
        None => None,
        Some(line) => {
            let parts = split_on(numeric_and_dots(line), '.');
            match parse_unsigned(parts[0], u32::MAX as int) {
                None => None,
                Some(major) => {
                    let minor: nat = if parts.len() > 1 {
                        match parse_unsigned(parts[1], u32::MAX as int) {
                            Some(m) => m,
                            None => 0,
                        }
                    } else {
                        0
                    };
                    Some((if major == 1 {
                        minor
                    } else {
                        major
                    }) as u32)
                },
            }
        },
    }
}

/// The major Java version that a Minecraft release (`1.x.y`, or the
/// year-based `YY.n`) needs. Year-based versions from 17 to 21 and 24 need
/// Java 21, from 25 on Java 25, and all others (22 and 23 among them)
/// Java 8.
pub open spec fn required_java(version: Seq<char>) -> u32 {
    let parts = split_on(version, '.');
    let major: nat = match parse_unsigned(parts[0], u32::MAX as int) {
        Some(m) => m,
        None => 1,
    };
    if major == 1 {
        let minor: nat = if parts.len() > 1 {
            match parse_unsigned(parts[1], u32::MAX as int) {
                Some(m) => m,
                None => 0,
            }
        } else {
            0
        };
        if minor <= 16 {
            8
        } else if minor <= 18 {
            17
        } else {
            21
        }
    } else if major >= 25 {
        25
    } else if major == 24 || (17 <= major && major <= 21) {
        21
    } else {
        8
    }
}

fn keep_numeric_and_dots(s: &[char]) -> (r: Vec<char>)
    ensures
        r@ == numeric_and_dots(s@),
{
    let mut out: Vec<char> = Vec::new();
    let mut i: usize = 0;
    while i < s.len()
        invariant
            i <= s@.len(),
            out@ == numeric_and_dots(s@.subrange(0, i as int)),
        decreases s@.len() - i,
    {
        let c = s[i];
        proof {
            assert(s@.subrange(0, i + 1).drop_last() =~= s@.subrange(0, i as int));
        }
        if char_is_numeric(c) || c == '.' {
            out.push(c);
        }
        i = i + 1;
    }
    assert(s@.subrange(0, s@.len() as int) =~= s@);
    out
}

impl JavaVersion {
    /// Reads the version that `java -version` printed for the executable at
    /// `path`.
    pub fn parse_output(path: &str, output: &str) -> (r: Option<JavaVersion>)
        ensures
            match announced_major(output@) {
                None => r is None,
                Some(m) => r matches Some(v) && v.major == m && v.minor == 0 && v.path@ == path@,
            },
    {
        let text = chars_of(output);
        let lines = split_chars(&text, '\n');
        let pat = chars_of("version");
        proof {
            reveal_strlit("version");
        }
        let mut i: usize = 0;
        let ghost ls = views(lines@);
        assert(ls.subrange(0, ls.len() as int) =~= ls);
        while i < lines.len()
            invariant
                i <= lines@.len(),
                ls == views(lines@),
                ls == split_on(output@, '\n'),
                pat@ == "version"@,
                first_containing(ls.subrange(i as int, ls.len() as int), "version"@)
                    == first_containing(ls, "version"@),
            decreases lines@.len() - i,
        {
            proof {
                assert(ls.subrange(i as int, ls.len() as int).drop_first() =~= ls.subrange(
                    i + 1,
                    ls.len() as int,
                ));
                assert(ls.subrange(i as int, ls.len() as int)[0] == lines@[i as int]@);
            }
            if contains_chars(&lines[i], &pat) {
                let num = keep_numeric_and_dots(&lines[i]);
                let parts = split_chars(&num, '.');
                let ghost ps = views(parts@);
                assert(ps[0] == parts@[0]@);
                let major = match parse_u32(&parts[0]) {
                    Some(m) => m,
                    None => {
                        return None;
                    },
                };
                let minor: u32 = if parts.len() > 1 {
                    assert(ps[1] == parts@[1]@);
                    match parse_u32(&parts[1]) {
                        Some(m) => m,
                        None => 0,
                    }
                } else {
                    0
                };
                let major = if major == 1 {
                    minor
                } else {
                    major
                };
                return Some(JavaVersion { major, minor: 0, path: path.to_owned() });
            }
            i = i + 1;
        }
        None
    }
}

/// The installations that the probed candidates give: every candidate
/// whose `java -version` ran, with its version when the output was
/// readable, in probe order.
pub open spec fn installs_of(probes: Seq<JavaProbe>) -> Seq<(Seq<char>, Option<u32>)>
    decreases probes.len(),
{
    if probes.len() == 0 {
        Seq::empty()
    } else {
        let p = installs_of(probes.drop_last());
        match probes.last().output {
            None => p,
            Some(out) => p.push((probes.last().path@, announced_major(out@))),
        }
    }
}

/// An installation by its path and major version.
pub open spec fn install_view(i: JavaInstallation) -> (Seq<char>, Option<u32>) {
    (
        i.path@,
        match i.version {
            Some(v) => Some(v.major),
            None => None,
        },
    )
}

/// An installation as detection builds it: a version read from `java
/// -version` has minor 0 and the installation's own path. With
/// [`install_view`] this fixes every field.
pub open spec fn detected(i: JavaInstallation) -> bool {
    i.version matches Some(v) ==> v.minor == 0 && v.path@ == i.path@
}

pub open spec fn install_views(s: Seq<JavaInstallation>) -> Seq<(Seq<char>, Option<u32>)> {
    s.map_values(|i: JavaInstallation| install_view(i))
}

/// Whether an installation's major version is at least `m`.
pub open spec fn at_least(v: Option<u32>, m: u32) -> bool {
    match v {
        Some(x) => x >= m,
        None => false,
    }
}

/// The installations among `s` whose version is at least `m`, in order.
pub open spec fn at_least_all(s: Seq<(Seq<char>, Option<u32>)>, m: u32) -> Seq<(Seq<char>, Option<u32>)>
    decreases s.len(),
{
    if s.len() == 0 {
        s
    } else {
        let p = at_least_all(s.drop_last(), m);
        if at_least(s.last().1, m) {
            p.push(s.last())
        } else {
            p
        }
    }
}

/// The index of the last installation with the highest version among
/// those from index 0 to `n`, each of which has a version.
pub open spec fn last_max_index(s: Seq<(Seq<char>, Option<u32>)>, n: int) -> int
    decreases n,
{
    if n <= 1 {
        0
    } else {
        let k = last_max_index(s, n - 1);
        if s[n - 1].1.unwrap() >= s[k].1.unwrap() {
            n - 1
        } else {
            k
        }
    }
}

proof fn lemma_last_max_index(s: Seq<(Seq<char>, Option<u32>)>, t: Seq<(Seq<char>, Option<u32>)>, n: int)
    requires
        1 <= n <= s.len(),
        n <= t.len(),
        forall|k: int| 0 <= k < n ==> s[k] == t[k],
    ensures
        0 <= last_max_index(s, n) < n,
        last_max_index(s, n) == last_max_index(t, n),
    decreases n,
{
    if n > 1 {
        lemma_last_max_index(s, t, n - 1);
    }
}

/// The Java managers' selection rules.
pub struct JavaManager;

impl JavaManager {
    /// The installations found among the probed candidates.
    pub fn detect_all(probes: &[JavaProbe]) -> (r: Vec<JavaInstallation>)
        ensures
            install_views(r@) == installs_of(probes@),
            forall|k: int| 0 <= k < r@.len() ==> detected(#[trigger] r@[k]),
    {
        let mut out: Vec<JavaInstallation> = Vec::new();
        let mut i: usize = 0;
        while i < probes.len()
            invariant
                i <= probes@.len(),
                install_views(out@) == installs_of(probes@.subrange(0, i as int)),
                forall|k: int| 0 <= k < out@.len() ==> detected(#[trigger] out@[k]),
            decreases probes@.len() - i,
        {
            proof {
                assert(probes@.subrange(0, i + 1).drop_last() =~= probes@.subrange(0, i as int));
            }
            let p = &probes[i];
            match &p.output {
                Some(text) => {
                    let version = JavaVersion::parse_output(p.path.as_str(), text.as_str());
                    out.push(JavaInstallation { path: p.path.clone(), version });
                    proof {
                        assert(install_views(out@) =~= installs_of(probes@.subrange(0, i + 1)));
                    }
                },
                None => {
                    proof {
                        assert(install_views(out@) =~= installs_of(probes@.subrange(0, i + 1)));
                    }
                },
            }
            i = i + 1;
        }
        assert(probes@.subrange(0, probes@.len() as int) =~= probes@);
        out
    }

    /// The installations of Java 17 or newer among the probed candidates.
    pub fn detect_compatible(probes: &[JavaProbe]) -> (r: Vec<JavaInstallation>)
        ensures
            install_views(r@) == at_least_all(installs_of(probes@), 17),
    {
        let all = Self::detect_all(probes);
        let mut out: Vec<JavaInstallation> = Vec::new();
        let mut i: usize = 0;
        while i < all.len()
            invariant
                i <= all@.len(),
                install_views(out@) == at_least_all(install_views(all@.subrange(0, i as int)), 17),
            decreases all@.len() - i,
        {
            proof {
                assert(install_views(all@.subrange(0, i + 1)).drop_last() =~= install_views(
                    all@.subrange(0, i as int),
                ));
            }
            let ok = match &all[i].version {
                Some(v) => v.major >= 17,
                None => false,
            };
            if ok {
                out.push(all[i].clone());
            }
            proof {
                assert(install_views(out@) =~= at_least_all(
                    install_views(all@.subrange(0, i + 1)),
                    17,
                ));
            }
            i = i + 1;
        }
        assert(all@.subrange(0, all@.len() as int) =~= all@);
        out
    }

    /// The newest installation of at least `required_major` among the probed
    /// candidates; among equally new ones, the last found.
    pub fn find_compatible(probes: &[JavaProbe], required_major: u32) -> (r: Option<JavaInstallation>)
        ensures
            ({
                let c = at_least_all(installs_of(probes@), required_major);
                &&& c.len() == 0 ==> r is None
                &&& c.len() > 0 ==> (r matches Some(i) && install_view(i) == c[last_max_index(
                    c,
                    c.len() as int,
                )])
            }),
            r matches Some(i) ==> detected(i),
    {
        let all = Self::detect_all(probes);
        let ghost views_all = install_views(all@);
        let mut best: Option<JavaInstallation> = None;
        let mut best_major: u32 = 0;
        let mut i: usize = 0;
        let ghost mut c: Seq<(Seq<char>, Option<u32>)> = Seq::empty();
        while i < all.len()
            invariant
                i <= all@.len(),
                views_all == install_views(all@),
                c == at_least_all(views_all.subrange(0, i as int), required_major),
                c.len() == 0 ==> best is None,
                c.len() > 0 ==> (best matches Some(b) && install_view(b) == c[last_max_index(
                    c,
                    c.len() as int,
                )] && c[last_max_index(c, c.len() as int)].1 == Some(best_major)),
                forall|k: int| 0 <= k < c.len() ==> at_least(#[trigger] c[k].1, required_major),
                forall|k: int| 0 <= k < all@.len() ==> detected(#[trigger] all@[k]),
                best matches Some(b) ==> detected(b),
            decreases all@.len() - i,
        {
            proof {
                assert(views_all.subrange(0, i + 1).drop_last() =~= views_all.subrange(0, i as int));
            }
            let m: Option<u32> = match &all[i].version {
                Some(v) => Some(v.major),
                None => None,
            };
            match m {
                Some(major) => {
                    if major >= required_major {
                        let ghost c0 = c;
                        proof {
                            c = c.push(views_all[i as int]);
                            assert(c.drop_last() =~= c0);
                            assert(c[c0.len() as int].1 == Some(major));
                            if c0.len() > 0 {
                                lemma_last_max_index(c, c0, c0.len() as int);
                            }
                        }
                        if best.is_none() || major >= best_major {
                            best = Some(all[i].clone());
                            best_major = major;
                        }
                    }
                },
                None => {},
            }
            i = i + 1;
        }
        assert(views_all.subrange(0, all@.len() as int) =~= views_all);
        best
    }

    /// The major Java version that Minecraft `version` needs.
    pub fn required_for_minecraft(version: &str) -> (r: u32)
        ensures
            r == required_java(version@),
    {
        let v = chars_of(version);
        let parts = split_chars(&v, '.');
        let ghost ps = views(parts@);
        assert(ps[0] == parts@[0]@);
        let major: u32 = match parse_u32(&parts[0]) {
            Some(m) => m,
            None => 1,
        };
        if major == 1 {
            let minor: u32 = if parts.len() > 1 {
                assert(ps[1] == parts@[1]@);
                match parse_u32(&parts[1]) {
                    Some(m) => m,
                    None => 0,
                }
            } else {
                0
            };
            if minor <= 16 {
                8
            } else if minor <= 18 {
                17
            } else {
                21
            }
        } else if major >= 25 {
            25
        } else if major == 24 || (17 <= major && major <= 21) {
            21
        } else {
            8
        }
    }
}

/// The runtime directories whose Java announces a major version below
/// `min`: those of the first `n` probes (runtime directory, probe of its
/// executable) whose output names a version.
pub open spec fn outdated_dirs(rs: Seq<(String, JavaProbe)>, n: nat, min: u32) -> Seq<Seq<char>>
    decreases n,
{
    if n == 0 {
        Seq::empty()
    } else {
        let p = outdated_dirs(rs, (n - 1) as nat, min);
        let (dir, probe) = rs[n - 1];
        match probe.output {
            Some(out) => match announced_major(out@) {
                Some(m) => if m < min {
                    p.push(dir@)
                } else {
                    p
                },
                None => p,
            },
            None => p,
        }
    }
}

impl JavaManager {
    /// The launcher-managed runtimes to delete because their Java is older
    /// than `min_major`; each is given with the probe of its executable
    /// (no output when it could not be run).
    pub fn outdated_runtimes(runtimes: &[(String, JavaProbe)], min_major: u32) -> (r: Vec<String>)
        ensures
            r@.map_values(|s: String| s@) == outdated_dirs(runtimes@, runtimes@.len(), min_major),
    {
        let mut out: Vec<String> = Vec::new();
        let mut i: usize = 0;
        while i < runtimes.len()
            invariant
                i <= runtimes@.len(),
                out@.map_values(|s: String| s@) == outdated_dirs(runtimes@, i as nat, min_major),
            decreases runtimes@.len() - i,
        {
            let (dir, probe) = &runtimes[i];
            let ghost before = out@;
            match &probe.output {
                Some(text) => match JavaVersion::parse_output(probe.path.as_str(), text.as_str()) {
                    Some(v) => {
                        if v.major < min_major {
                            out.push(dir.clone());
                        }
                    },
                    None => {},
                },
                None => {},
            }
            proof {
                assert(out@.map_values(|s: String| s@) =~= outdated_dirs(runtimes@, (i + 1) as nat, min_major));
            }
            i = i + 1;
        }
        out
    }
}

proof fn lemma_split_nonempty(s: Seq<char>, c: char)
    ensures
        split_on(s, c).len() >= 1,
    decreases s.len(),
{
    if s.len() > 0 {
        lemma_split_nonempty(s.drop_last(), c);
    }
}

proof fn lemma_split_without_separator(s: Seq<char>, c: char)
    requires
        forall|i: int| 0 <= i < s.len() ==> s[i] != c,
    ensures
        split_on(s, c) == seq![s],
    decreases s.len(),
{
    if s.len() > 0 {
        lemma_split_without_separator(s.drop_last(), c);
        assert(s.drop_last().push(s.last()) =~= s);
        let prev = split_on(s.drop_last(), c);
        assert(prev.update(prev.len() - 1, prev.last().push(s.last())) =~= seq![s]);
    } else {
        assert(s =~= Seq::<char>::empty());
    }
}

proof fn lemma_split_concat(a: Seq<char>, b: Seq<char>, c: char)
    ensures
        split_on(a + seq![c] + b, c) == split_on(a, c) + split_on(b, c),
    decreases b.len(),
{
    let s = a + seq![c] + b;
    if b.len() == 0 {
        assert(s.drop_last() =~= a);
        assert(split_on(b, c) == seq![Seq::<char>::empty()]);
        assert(split_on(a, c).push(Seq::<char>::empty()) =~= split_on(a, c) + seq![Seq::<char>::empty()]);
    } else {
        lemma_split_concat(a, b.drop_last(), c);
        assert(s.drop_last() =~= a + seq![c] + b.drop_last());
        assert(s.last() == b.last());
        let pa = split_on(a, c);
        let pb = split_on(b.drop_last(), c);
        lemma_split_nonempty(b.drop_last(), c);
        if b.last() == c {
            assert((pa + pb).push(Seq::<char>::empty()) =~= pa + pb.push(Seq::<char>::empty()));
        } else {
            assert((pa + pb).update((pa + pb).len() - 1, (pa + pb).last().push(b.last())) =~= pa + pb.update(
                pb.len() - 1,
                pb.last().push(b.last()),
            ));
        }
    }
}

/// For every release `1.x` (with or without a patch level `.y`), the Java
/// that Minecraft needs is 8 up to 1.16, 17 for 1.17 and 1.18, and 21
/// from 1.19 on.
pub proof fn law_release_java(x: nat, tail: Seq<char>)
    requires
        x <= u32::MAX,
        tail.len() == 0 || tail[0] == '.',
    ensures
        required_java("1."@ + decimal(x) + tail) == if x <= 16 {
            8u32
        } else if x <= 18 {
            17u32
        } else {
            21u32
        },
{
    reveal_strlit("1.");
    reveal_strlit("1");
    let d = decimal(x);
    lemma_decimal_value(x);
    assert forall|i: int| 0 <= i < d.len() implies d[i] != '.' by {
        assert(is_digit(d[i]));
    }
    let v = "1."@ + d + tail;
    let one = seq!['1'];
    lemma_split_without_separator(one, '.');
    let parts = split_on(v, '.');
    if tail.len() == 0 {
        assert(v =~= one + seq!['.'] + d);
        lemma_split_concat(one, d, '.');
        lemma_split_without_separator(d, '.');
        assert(parts =~= seq![one, d]);
    } else {
        let t = tail.drop_first();
        assert(tail =~= seq!['.'] + t);
        assert(v =~= one + seq!['.'] + (d + seq!['.'] + t));
        lemma_split_concat(one, d + seq!['.'] + t, '.');
        lemma_split_concat(d, t, '.');
        lemma_split_without_separator(d, '.');
        assert(parts =~= seq![one] + (seq![d] + split_on(t, '.')));
    }
    assert(parts[0] == one);
    assert(parts[1] == d);
    assert(parts.len() > 1);
    assert(one[0] != '+');
    assert(all_digits(one));
    assert(digits_value(one.drop_last()) == 0);
    assert(digits_value(one) == 1);
    assert(parse_unsigned(one, u32::MAX as int) == Some(1nat));
    assert(d[0] != '+') by {
        assert(is_digit(d[0]));
    }
    assert(parse_unsigned(d, u32::MAX as int) == Some(x));
}

} // verus!
