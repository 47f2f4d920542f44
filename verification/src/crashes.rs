//! Crash diagnostics: turn the text of a JVM crash log into hints.

use vstd::prelude::*;
use crate::argus::state::DiagnosticHint;
use crate::text::{chars_of, contains, contains_chars, find_chars, find_spec, is_ws, string_from_chars, sub_chars, trim, trim_chars};

verus! {

/// A hint by its contents.
pub enum HintView {
    MissingMod(Seq<char>),
    ModVersionMismatch(Seq<char>, Seq<char>, Seq<char>),
    NoClassDefFound(Seq<char>),
    InsufficientMemory,
    JavaVersion(Seq<char>),
    Unknown,
}

pub open spec fn hint_view(h: DiagnosticHint) -> HintView {
    match h {
        DiagnosticHint::MissingMod(c) => HintView::MissingMod(c@),
        DiagnosticHint::ModVersionMismatch { mod_id, expected, got } => HintView::ModVersionMismatch(
            mod_id@,
            expected@,
            got@,
        ),
        DiagnosticHint::NoClassDefFound(c) => HintView::NoClassDefFound(c@),
        DiagnosticHint::InsufficientMemory => HintView::InsufficientMemory,
        DiagnosticHint::JavaVersion(v) => HintView::JavaVersion(v@),
        DiagnosticHint::Unknown => HintView::Unknown,
    }
}

/// Where a token after a needle stops: whitespace, `,`, `(` or `)`.
pub open spec fn is_stop(c: char) -> bool {
    is_ws(c) || c == ',' || c == '(' || c == ')'
}

/// Index of the first stop character of `s`, or its length.
pub open spec fn token_end(s: Seq<char>) -> nat
    decreases s.len(),
{
    if s.len() == 0 {
        0
    } else if is_stop(s[0]) {
        0
    } else {
        1 + token_end(s.drop_first())
    }
}

/// The token that follows the first occurrence of `needle` in `text`, up
/// to the next stop character; `None` when the needle is absent or the
/// token is empty.
pub open spec fn token_after(text: Seq<char>, needle: Seq<char>) -> Option<Seq<char>> {
    match find_spec(text, needle) {
        None => None,
        Some(i) => {
            let rest = text.subrange(i + needle.len(), text.len() as int);
            let t = trim(rest.subrange(0, token_end(rest) as int));
            if t.len() == 0 {
                None
            } else {
                Some(t)
            }
        },
    }
}

pub open spec fn knot_mismatch(text: Seq<char>) -> bool {
    contains(text, "Could not init class net.fabricmc.loader.impl.launch.knot.KnotClient "@)
        || contains(text, "net.fabricmc.loader.impl.launch.knot.KnotClient"@)
}

pub open spec fn out_of_memory(text: Seq<char>) -> bool {
    contains(text, "OutOfMemoryError"@) || contains(text, "GC overhead limit exceeded"@)
        || contains(text, "Java heap space"@)
}

/// The hints that fire on a crash log, in rule order; `Unknown` alone when
/// none does.
pub open spec fn diagnosis(text: Seq<char>) -> Seq<HintView> {
    let a = match token_after(text, "java.lang.NoClassDefFoundError: "@) {
        Some(c) => seq![HintView::MissingMod(c)],
        None => Seq::empty(),
    };
    let b = match token_after(text, "java.lang.ClassNotFoundException: "@) {
        Some(c) => seq![HintView::NoClassDefFound(c)],
        None => Seq::empty(),
    };
    let c = if knot_mismatch(text) {
        seq![
            HintView::ModVersionMismatch(
                "fabric loader"@,
                "loader compatible"@,
                "mismatched"@,
            ),
        ]
    } else {
        Seq::empty()
    };
    let d = if out_of_memory(text) {
        seq![HintView::InsufficientMemory]
    } else {
        Seq::empty()
    };
    let e = match token_after(text, "Unsupported class file major version "@) {
        Some(v) => seq![HintView::JavaVersion(v)],
        None => Seq::empty(),
    };
    let all = a + b + c + d + e;
    if all.len() == 0 {
        seq![HintView::Unknown]
    } else {
        all
    }
}

fn token_end_index(s: &[char], from: usize) -> (r: usize)
    requires
        from <= s@.len(),
    ensures
        r == from + token_end(s@.subrange(from as int, s@.len() as int)),
        r <= s@.len(),
    decreases s@.len() - from,
{
    if from == s.len() {
        return from;
    }
    let c = s[from];
    let stop = crate::text::is_whitespace(c) || c == ',' || c == '(' || c == ')';
    proof {
        assert(s@.subrange(from as int, s@.len() as int)[0] == c);
        assert(s@.subrange(from as int, s@.len() as int).drop_first() =~= s@.subrange(
            from + 1,
            s@.len() as int,
        ));
    }
    if stop {
        from
    } else {
        token_end_index(s, from + 1)
    }
}

/// The token after the first occurrence of `needle` in `text`.
fn first_match(text: &[char], needle: &str) -> (r: Option<String>)
    ensures
        match token_after(text@, needle@) {
            None => r is None,
            Some(t) => r matches Some(s) && s@ == t,
        },
{
    let nd = chars_of(needle);
    match find_chars(text, &nd) {
        None => None,
        Some(i) => {
            assert(crate::text::occurs_at(text@, nd@, i as int));
            let tl = text.len();
            assert(i + nd@.len() <= tl);
            let start = i + nd.len();
            let end = token_end_index(text, start);
            proof {
                let rest = text@.subrange(start as int, text@.len() as int);
                assert(rest.subrange(0, token_end(rest) as int) =~= text@.subrange(
                    start as int,
                    end as int,
                ));
            }
            let piece = sub_chars(text, start, end);
            let t = trim_chars(&piece);
            if t.len() == 0 {
                None
            } else {
                Some(string_from_chars(&t))
            }
        },
    }
}

fn has(text: &[char], pat: &str) -> (r: bool)
    ensures
        r == contains(text@, pat@),
{
    let p = chars_of(pat);
    contains_chars(text, &p)
}

/// Runs every diagnostic rule on a crash log and returns the hints that
/// fire, in rule order; several can fire on one log.
pub fn diagnose(text: &str) -> (r: Vec<DiagnosticHint>)
    ensures
        r@.map_values(|h: DiagnosticHint| hint_view(h)) == diagnosis(text@),
{
    let t = chars_of(text);
    let mut out: Vec<DiagnosticHint> = Vec::new();
    let ghost mut acc: Seq<HintView> = Seq::empty();
    if let Some(cls) = first_match(&t, "java.lang.NoClassDefFoundError: ") {
        out.push(DiagnosticHint::MissingMod(cls));
    }
    proof {
        acc = match token_after(text@, "java.lang.NoClassDefFoundError: "@) {
            Some(c) => seq![HintView::MissingMod(c)],
            None => Seq::empty(),
        };
        assert(out@.map_values(|h: DiagnosticHint| hint_view(h)) =~= acc);
    }
    if let Some(cls) = first_match(&t, "java.lang.ClassNotFoundException: ") {
        out.push(DiagnosticHint::NoClassDefFound(cls));
    }
    proof {
        acc = acc + match token_after(text@, "java.lang.ClassNotFoundException: "@) {
            Some(c) => seq![HintView::NoClassDefFound(c)],
            None => Seq::empty(),
        };
        assert(out@.map_values(|h: DiagnosticHint| hint_view(h)) =~= acc);
    }
    if has(&t, "Could not init class net.fabricmc.loader.impl.launch.knot.KnotClient ") || has(
        &t,
        "net.fabricmc.loader.impl.launch.knot.KnotClient",
    ) {
        out.push(
            DiagnosticHint::ModVersionMismatch {
                mod_id: "fabric loader".to_owned(),
                expected: "loader compatible".to_owned(),
                got: "mismatched".to_owned(),
            },
        );
    }
    proof {
        acc = acc + if knot_mismatch(text@) {
            seq![
                HintView::ModVersionMismatch(
                    "fabric loader"@,
                    "loader compatible"@,
                    "mismatched"@,
                ),
            ]
        } else {
            Seq::empty()
        };
        assert(out@.map_values(|h: DiagnosticHint| hint_view(h)) =~= acc);
    }
    if has(&t, "OutOfMemoryError") || has(&t, "GC overhead limit exceeded") || has(
        &t,
        "Java heap space",
    ) {
        out.push(DiagnosticHint::InsufficientMemory);
    }
    proof {
        acc = acc + if out_of_memory(text@) {
            seq![HintView::InsufficientMemory]
        } else {
            Seq::empty()
        };
        assert(out@.map_values(|h: DiagnosticHint| hint_view(h)) =~= acc);
    }
    if let Some(ver) = first_match(&t, "Unsupported class file major version ") {
        out.push(DiagnosticHint::JavaVersion(ver));
    }
    proof {
        acc = acc + match token_after(text@, "Unsupported class file major version "@) {
            Some(v) => seq![HintView::JavaVersion(v)],
            None => Seq::empty(),
        };
        assert(out@.map_values(|h: DiagnosticHint| hint_view(h)) =~= acc);
    }
    if out.len() == 0 {
        out.push(DiagnosticHint::Unknown);
        proof {
            assert(out@.map_values(|h: DiagnosticHint| hint_view(h)) =~= seq![HintView::Unknown]);
        }
    }
    out
}

/// Every crash log gets at least one hint, and `Unknown` only when no
/// rule fires.
pub proof fn law_diagnosis_nonempty(text: Seq<char>)
    ensures
        diagnosis(text).len() >= 1,
        diagnosis(text)[0] == HintView::Unknown ==> diagnosis(text).len() == 1,
{
}

/// A log that names a class after `java.lang.ClassNotFoundException: `
/// gets the hint that the class was not found, naming that class; one
/// that names it after `java.lang.NoClassDefFoundError: ` gets the
/// missing-mod hint; one that names an unsupported class file version gets
/// the Java-version hint; and a log that says it ran out of memory gets the
/// memory hint. Any of them rules out `Unknown`.
pub proof fn law_diagnosis_reports_each_rule(text: Seq<char>, c: Seq<char>)
    ensures
        token_after(text, "java.lang.ClassNotFoundException: "@) == Some(c) ==> diagnosis(text).contains(
            HintView::NoClassDefFound(c),
        ) && !diagnosis(text).contains(HintView::Unknown),
        token_after(text, "java.lang.NoClassDefFoundError: "@) == Some(c) ==> diagnosis(text).contains(
            HintView::MissingMod(c),
        ) && !diagnosis(text).contains(HintView::Unknown),
        token_after(text, "Unsupported class file major version "@) == Some(c) ==> diagnosis(text).contains(
            HintView::JavaVersion(c),
        ) && !diagnosis(text).contains(HintView::Unknown),
        contains(text, "OutOfMemoryError"@) ==> diagnosis(text).contains(HintView::InsufficientMemory)
            && !diagnosis(text).contains(HintView::Unknown),
{
    let a = match token_after(text, "java.lang.NoClassDefFoundError: "@) {
        Some(x) => seq![HintView::MissingMod(x)],
        None => Seq::empty(),
    };
    let b = match token_after(text, "java.lang.ClassNotFoundException: "@) {
        Some(x) => seq![HintView::NoClassDefFound(x)],
        None => Seq::empty(),
    };
    let k = if knot_mismatch(text) {
        seq![HintView::ModVersionMismatch("fabric loader"@, "loader compatible"@, "mismatched"@)]
    } else {
        Seq::empty()
    };
    let d = if out_of_memory(text) {
        seq![HintView::InsufficientMemory]
    } else {
        Seq::empty()
    };
    let e = match token_after(text, "Unsupported class file major version "@) {
        Some(v) => seq![HintView::JavaVersion(v)],
        None => Seq::empty(),
    };
    let all = a + b + k + d + e;
    assert(forall|i: int| 0 <= i < all.len() ==> all[i] != HintView::Unknown) by {
        assert forall|i: int| 0 <= i < all.len() implies all[i] != HintView::Unknown by {
            if i < a.len() {
                assert(all[i] == a[i]);
            } else if i < a.len() + b.len() {
                assert(all[i] == b[i - a.len()]);
            } else if i < a.len() + b.len() + k.len() {
                assert(all[i] == k[i - a.len() - b.len()]);
            } else if i < a.len() + b.len() + k.len() + d.len() {
                assert(all[i] == d[i - a.len() - b.len() - k.len()]);
            } else {
                assert(all[i] == e[i - a.len() - b.len() - k.len() - d.len()]);
            }
        }
    }
    if token_after(text, "java.lang.ClassNotFoundException: "@) == Some(c) {
        assert(all[a.len() as int] == HintView::NoClassDefFound(c));
    }
    if token_after(text, "java.lang.NoClassDefFoundError: "@) == Some(c) {
        assert(all[0] == HintView::MissingMod(c));
    }
    if token_after(text, "Unsupported class file major version "@) == Some(c) {
        assert(all[all.len() - 1] == HintView::JavaVersion(c));
    }
    if contains(text, "OutOfMemoryError"@) {
        assert(all[(a.len() + b.len() + k.len()) as int] == HintView::InsufficientMemory);
    }
    if all.len() > 0 {
        assert(diagnosis(text) == all);
    }
}

} // verus!
