//! Turning manifest argument lists into a command line: evaluating rules,
//! collecting the arguments that apply, and substituting `${token}`s.

use vstd::prelude::*;
use crate::minecraft::manifest::{ArgValue, Rule};
use crate::text::{chars_of, replace_all, replace_all_str, string_from_chars, str_eq};

verus! {

/// Whether some entry of `features` turns flag `k` on.
pub open spec fn feature_on(features: Seq<(String, bool)>, k: Seq<char>) -> bool {
    exists|i: int| 0 <= i < features.len() && #[trigger] features[i].0@ == k && features[i].1
}

/// Whether a rule's conditions hold on `os` with `features`.
pub open spec fn rule_holds(r: Rule, features: Seq<(String, bool)>, os: Seq<char>) -> bool {
    &&& (r.os_name matches Some(n) ==> n@ == os)
    &&& forall|j: int|
        0 <= j < r.features@.len() && #[trigger] r.features@[j].1 ==> feature_on(
            features,
            r.features@[j].0@,
        )
}

/// The verdict of the last rule whose conditions hold: allowed when its
/// action is `allow`; false when no rule's conditions hold.
pub open spec fn last_verdict(rules: Seq<Rule>, features: Seq<(String, bool)>, os: Seq<char>) -> bool
    decreases rules.len(),
{
    if rules.len() == 0 {
        false
    } else if rule_holds(rules.last(), features, os) {
        rules.last().action@ == "allow"@
    } else {
        last_verdict(rules.drop_last(), features, os)
    }
}

/// Whether a rule list lets its subject apply: it must hold at least one
/// rule, and the last rule whose conditions hold must allow.
pub open spec fn rules_allow(rules: Seq<Rule>, features: Seq<(String, bool)>, os: Seq<char>) -> bool {
    rules.len() > 0 && last_verdict(rules, features, os)
}

/// A rule that asks for a feature flag holds only when some entry turns
/// that flag on: with the flag off (in particular with no features at
/// all) a list of that one rule does not apply. A rule that allows, names
/// no system and asks only for flags that are on does apply.
pub proof fn law_feature_rules(r: Rule, features: Seq<(String, bool)>, os: Seq<char>, j: int)
    ensures
        0 <= j < r.features@.len() && r.features@[j].1 && (forall|i: int|
            0 <= i < features.len() ==> !(#[trigger] features[i].0@ == r.features@[j].0@ && features[i].1))
            ==> !rules_allow(seq![r], features, os),
        0 <= j < r.features@.len() && r.features@[j].1 ==> !rules_allow(seq![r], Seq::empty(), os),
        r.action@ == "allow"@ && r.os_name is None && (forall|m: int|
            0 <= m < r.features@.len() && #[trigger] r.features@[m].1 ==> exists|i: int|
                0 <= i < features.len() && features[i].0@ == r.features@[m].0@ && #[trigger] features[i].1)
            ==> rules_allow(seq![r], features, os),
{
    let one = seq![r];
    assert(one.last() == r);
    assert(one.drop_last() =~= Seq::<Rule>::empty());
    if 0 <= j < r.features@.len() && r.features@[j].1 && (forall|i: int|
        0 <= i < features.len() ==> !(#[trigger] features[i].0@ == r.features@[j].0@ && features[i].1)) {
        assert(!feature_on(features, r.features@[j].0@));
        assert(!rule_holds(r, features, os));
        assert(!last_verdict(one.drop_last(), features, os));
        assert(!last_verdict(one, features, os));
    }
    if 0 <= j < r.features@.len() && r.features@[j].1 {
        assert(!feature_on(Seq::<(String, bool)>::empty(), r.features@[j].0@));
        assert(!rule_holds(r, Seq::empty(), os));
        assert(!last_verdict(one.drop_last(), Seq::empty(), os));
        assert(!last_verdict(one, Seq::empty(), os));
    }
    if r.action@ == "allow"@ && r.os_name is None && (forall|m: int|
        0 <= m < r.features@.len() && #[trigger] r.features@[m].1 ==> exists|i: int|
            0 <= i < features.len() && features[i].0@ == r.features@[m].0@ && #[trigger] features[i].1) {
        assert forall|m: int| 0 <= m < r.features@.len() && #[trigger] r.features@[m].1 implies feature_on(
            features,
            r.features@[m].0@,
        ) by {
            let i = choose|i: int| 0 <= i < features.len() && features[i].0@ == r.features@[m].0@ && #[trigger] features[i].1;
            assert(features[i].0@ == r.features@[m].0@ && features[i].1);
        }
        assert(rule_holds(r, features, os));
    }
}

/// The manifest name of an operating system named as
/// `std::env::consts::OS` names it.
pub open spec fn manifest_os(os: Seq<char>) -> Seq<char> {
    if os == "windows"@ {
        "windows"@
    } else if os == "macos"@ {
        "osx"@
    } else {
        "linux"@
    }
}

/// The arguments of a list that apply, in order.
pub open spec fn collected(args: Seq<ArgValue>, features: Seq<(String, bool)>, os: Seq<char>) -> Seq<Seq<char>>
    decreases args.len(),
{
    if args.len() == 0 {
        Seq::empty()
    } else {
        let p = collected(args.drop_last(), features, os);
        match args.last() {
            ArgValue::Plain(s) => p.push(s@),
            ArgValue::Ruled { rules, values } => if rules_allow(rules@, features, os) {
                p + values@.map_values(|v: String| v@)
            } else {
                p
            },
        }
    }
}

/// `${key}`.
pub open spec fn placeholder(key: Seq<char>) -> Seq<char> {
    "${"@ + key + "}"@
}

/// `arg` with each token's placeholder replaced by its value, token by
/// token in order.
pub open spec fn substituted(arg: Seq<char>, tokens: Seq<(Seq<char>, Seq<char>)>) -> Seq<char>
    decreases tokens.len(),
{
    if tokens.len() == 0 {
        arg
    } else {
        replace_all(
            substituted(arg, tokens.drop_last()),
            placeholder(tokens.last().0),
            tokens.last().1,
        )
    }
}

/// Token pairs by their contents.
pub open spec fn pair_views(tokens: Seq<(String, String)>) -> Seq<(Seq<char>, Seq<char>)> {
    tokens.map_values(|p: (String, String)| (p.0@, p.1@))
}

pub open spec fn string_views(v: Seq<String>) -> Seq<Seq<char>> {
    v.map_values(|s: String| s@)
}

/// The argument assembly rules of launch manifests.
pub struct ArgumentBuilder;

fn feature_enabled(features: &[(String, bool)], k: &str) -> (r: bool)
    ensures
        r == feature_on(features@, k@),
{
    let mut i: usize = 0;
    while i < features.len()
        invariant
            i <= features@.len(),
            forall|j: int| 0 <= j < i ==> !(#[trigger] features@[j].0@ == k@ && features@[j].1),
        decreases features@.len() - i,
    {
        if features[i].1 && str_eq(features[i].0.as_str(), k) {
            return true;
        }
        i = i + 1;
    }
    false
}

fn rule_holds_exec(r: &Rule, features: &[(String, bool)], os: &str) -> (b: bool)
    ensures
        b == rule_holds(*r, features@, os@),
{
    if let Some(name) = &r.os_name {
        if !str_eq(name.as_str(), os) {
            return false;
        }
    }
    let mut j: usize = 0;
    while j < r.features.len()
        invariant
            j <= r.features@.len(),
            r.os_name matches Some(n) ==> n@ == os@,
            forall|m: int|
                0 <= m < j && #[trigger] r.features@[m].1 ==> feature_on(
                    features@,
                    r.features@[m].0@,
                ),
        decreases r.features@.len() - j,
    {
        if r.features[j].1 && !feature_enabled(features, r.features[j].0.as_str()) {
            return false;
        }
        j = j + 1;
    }
    true
}

impl ArgumentBuilder {
    /// The manifest name of the running operating system, given
    /// `std::env::consts::OS`: `windows`, `osx`, or `linux` for any other.
    pub fn manifest_os_name(os: &str) -> (r: &'static str)
        ensures
            r@ == manifest_os(os@),
    {
        proof {
            reveal_strlit("windows");
            reveal_strlit("macos");
            reveal_strlit("osx");
            reveal_strlit("linux");
        }
        if str_eq(os, "windows") {
            "windows"
        } else if str_eq(os, "macos") {
            "osx"
        } else {
            "linux"
        }
    }

    /// Evaluates a rule list on `os` (a manifest OS name) with `features`.
    pub fn rules_apply(rules: &[Rule], features: &[(String, bool)], os: &str) -> (r: bool)
        ensures
            r == rules_allow(rules@, features@, os@),
    {
        let mut matched = false;
        let mut allowed = false;
        let mut i: usize = 0;
        while i < rules.len()
            invariant
                i <= rules@.len(),
                matched == (i > 0),
                allowed == last_verdict(rules@.subrange(0, i as int), features@, os@),
            decreases rules@.len() - i,
        {
            proof {
                assert(rules@.subrange(0, i + 1).drop_last() =~= rules@.subrange(0, i as int));
                assert(rules@.subrange(0, i + 1).last() == rules@[i as int]);
            }
            let ok = rule_holds_exec(&rules[i], features, os);
            matched = true;
            if ok {
                allowed = str_eq(rules[i].action.as_str(), "allow");
            }
            i = i + 1;
        }
        assert(rules@.subrange(0, rules@.len() as int) =~= rules@);
        matched && allowed
    }

    /// The arguments of a manifest list that apply on `os` with `features`.
    pub fn collect_args(args: &[ArgValue], features: &[(String, bool)], os: &str) -> (r: Vec<String>)
        ensures
            string_views(r@) == collected(args@, features@, os@),
    {
        let mut out: Vec<String> = Vec::new();
        let mut i: usize = 0;
        while i < args.len()
            invariant
                i <= args@.len(),
                string_views(out@) == collected(args@.subrange(0, i as int), features@, os@),
            decreases args@.len() - i,
        {
            proof {
                assert(args@.subrange(0, i + 1).drop_last() =~= args@.subrange(0, i as int));
                assert(args@.subrange(0, i + 1).last() == args@[i as int]);
            }
            match &args[i] {
                ArgValue::Plain(s) => {
                    out.push(s.clone());
                    proof {
                        assert(string_views(out@) =~= collected(
                            args@.subrange(0, i + 1),
                            features@,
                            os@,
                        ));
                    }
                },
                ArgValue::Ruled { rules, values } => {
                    if Self::rules_apply(rules.as_slice(), features, os) {
                        let ghost before = string_views(out@);
                        let mut j: usize = 0;
                        while j < values.len()
                            invariant
                                j <= values@.len(),
                                string_views(out@) == before + string_views(
                                    values@.subrange(0, j as int),
                                ),
                            decreases values@.len() - j,
                        {
                            let ghost prev = out@;
                            let v = values[j].clone();
                            out.push(v);
                            proof {
                                assert(string_views(out@) =~= string_views(prev).push(
                                    values@[j as int]@,
                                ));
                                assert(string_views(values@.subrange(0, j + 1)) =~= string_views(
                                    values@.subrange(0, j as int),
                                ).push(values@[j as int]@));
                                assert(string_views(out@) =~= before + string_views(
                                    values@.subrange(0, j + 1),
                                ));
                            }
                            j = j + 1;
                        }
                        proof {
                            assert(values@.subrange(0, values@.len() as int) =~= values@);
                            assert(string_views(out@) =~= collected(
                                args@.subrange(0, i + 1),
                                features@,
                                os@,
                            ));
                        }
                    }
                },
            }
            i = i + 1;
        }
        assert(args@.subrange(0, args@.len() as int) =~= args@);
        out
    }

    /// Each argument with every `${key}` of `tokens` replaced by its value.
    pub fn substitute_tokens(args: &[String], tokens: &[(String, String)]) -> (r: Vec<String>)
        ensures
            r@.len() == args@.len(),
            forall|i: int| 0 <= i < args@.len() ==> #[trigger] r@[i]@ == substituted(args@[i]@, pair_views(tokens@)),
    {
        let mut out: Vec<String> = Vec::new();
        let mut i: usize = 0;
        while i < args.len()
            invariant
                i <= args@.len(),
                out@.len() == i,
                forall|m: int| 0 <= m < i ==> #[trigger] out@[m]@ == substituted(args@[m]@, pair_views(tokens@)),
            decreases args@.len() - i,
        {
            let mut cur = chars_of(args[i].as_str());
            let mut t: usize = 0;
            while t < tokens.len()
                invariant
                    t <= tokens@.len(),
                    cur@ == substituted(args@[i as int]@, pair_views(tokens@.subrange(0, t as int))),
                decreases tokens@.len() - t,
            {
                proof {
                    assert(pair_views(tokens@.subrange(0, t + 1)).drop_last() =~= pair_views(tokens@.subrange(0, t as int)));
                    assert(pair_views(tokens@.subrange(0, t + 1)).last() == (tokens@[t as int].0@, tokens@[t as int].1@));
                    reveal_strlit("${");
                    reveal_strlit("}");
                }
                let mut pat: Vec<char> = Vec::new();
                pat.push('$');
                pat.push('{');
                let key = chars_of(tokens[t].0.as_str());
                crate::text::extend_chars(&mut pat, &key);
                pat.push('}');
                assert(pat@ =~= placeholder(tokens@[t as int].0@));
                let val = chars_of(tokens[t].1.as_str());
                cur = replace_all_str(&cur, &pat, &val);
                t = t + 1;
            }
            assert(tokens@.subrange(0, tokens@.len() as int) =~= tokens@);
            out.push(string_from_chars(&cur));
            i = i + 1;
        }
        out
    }
}

} // verus!
