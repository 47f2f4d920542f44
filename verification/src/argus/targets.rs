//! The focus targets of each screen: the navbar first, then the content of
//! the current section. Every section has at least one content target, so
//! focus never falls back onto the navbar, and no id appears twice.

use vstd::prelude::*;
use crate::argus::focus::{distinct_ids, target_ids, FocusManager, FocusTarget};
use crate::argus::state::{all_sections, visible_indices, AppState, RuntimeState, Section};
use crate::text::{all_digits, chars_of, decimal, decimal_chars, is_digit, lemma_decimal_value};

verus! {

/// The navbar id of a section.
pub open spec fn nav_id(s: Section) -> Seq<char> {
    match s {
        Section::Home => "nav_home"@,
        Section::Discover => "nav_discover"@,
        Section::Instances => "nav_instances"@,
        Section::Mods => "nav_mods"@,
        Section::Worlds => "nav_worlds"@,
        Section::Servers => "nav_servers"@,
        Section::Logs => "nav_logs"@,
        Section::Crashes => "nav_crashes"@,
        Section::Screenshots => "nav_screenshots"@,
        Section::Settings => "nav_settings"@,
    }
}

/// The navbar ids, in menu order.
pub open spec fn nav_ids() -> Seq<Seq<char>> {
    seq![
        "nav_home"@,
        "nav_discover"@,
        "nav_instances"@,
        "nav_mods"@,
        "nav_worlds"@,
        "nav_servers"@,
        "nav_logs"@,
        "nav_crashes"@,
        "nav_screenshots"@,
        "nav_settings"@,
    ]
}

/// The navbar labels, in menu order.
pub open spec fn nav_labels() -> Seq<Seq<char>> {
    seq![
        "HOME"@,
        "DISCOVER"@,
        "INSTANCES"@,
        "MODS"@,
        "WORLDS"@,
        "SERVERS"@,
        "LOGS"@,
        "CRASHES"@,
        "SCREENSHOTS"@,
        "SETTINGS"@,
    ]
}

/// `p0`, `p1`, ... up to `n` items.
pub open spec fn numbered(p: Seq<char>, n: nat) -> Seq<Seq<char>> {
    Seq::new(n, |i: int| p + decimal(i as nat))
}

/// `p1`, `p2`, ... up to `n` items.
pub open spec fn counted(p: Seq<char>, n: nat) -> Seq<Seq<char>> {
    Seq::new(n, |i: int| p + decimal((i + 1) as nat))
}

/// `p` followed by each index.
pub open spec fn numbered_at(p: Seq<char>, idx: Seq<usize>) -> Seq<Seq<char>> {
    Seq::new(idx.len(), |i: int| p + decimal(idx[i] as nat))
}

/// `p` followed by each index plus one.
pub open spec fn counted_at(p: Seq<char>, idx: Seq<usize>) -> Seq<Seq<char>> {
    Seq::new(idx.len(), |i: int| p + decimal((idx[i] + 1) as nat))
}

/// The one id `a` when `c` holds, none otherwise.
pub open spec fn when(c: bool, a: Seq<char>) -> Seq<Seq<char>> {
    if c {
        seq![a]
    } else {
        Seq::empty()
    }
}

/// The indices of the Discover results on show.
pub open spec fn shown_results(st: AppState) -> Seq<usize> {
    visible_indices(
        st.modrinth_results@.len(),
        st.show_installed_discover,
        st.result_installed@,
    )
}

/// The ids of the current section's content targets.
pub open spec fn content_ids(st: AppState) -> Seq<Seq<char>> {
    match st.current_section {
        Section::Home => seq!["home_create"@, "home_open"@, "home_play"@],
        Section::Instances => (if st.instances@.len() == 0 {
            seq!["instances_empty"@]
        } else {
            numbered("instance_"@, st.instances@.len()) + seq!["instance_delete"@]
        }) + when(st.runtime_state is Running, "instance_stop"@),
        Section::Discover => numbered("disc_cat_"@, 4) + seq!["disc_search"@] + numbered_at(
            "project_"@,
            shown_results(st),
        ),
        Section::Mods => (if st.installed_content@.len() == 0 {
            seq!["mods_placeholder"@]
        } else {
            numbered("installed_"@, st.installed_content@.len())
        }) + numbered("update_"@, st.updatable_mods@.len()),
        Section::Worlds => if st.worlds@.len() == 0 {
            seq!["worlds_list"@]
        } else {
            numbered("world_"@, st.worlds@.len())
        },
        Section::Servers => (if st.servers@.len() == 0 {
            seq!["servers_empty"@]
        } else {
            numbered("server_"@, st.servers@.len())
        }) + seq!["server_add"@],
        Section::Logs => (if st.logs@.len() == 0 {
            seq!["logs_empty"@]
        } else {
            seq!["logs_list"@]
        }) + when(st.live_log_view, "logs_live"@),
        Section::Crashes => if st.crash_reports@.len() == 0 {
            seq!["crashes_empty"@]
        } else {
            seq!["crashes_list"@, "crashes_copy"@, "crashes_delete"@, "crashes_open"@]
        },
        Section::Screenshots => if st.screenshots@.len() == 0 {
            seq!["screenshots_empty"@]
        } else {
            numbered("screenshot_"@, st.screenshots@.len()) + seq!["screenshots_open"@]
        },
        Section::Settings => seq![
            "settings_memory"@,
            "settings_java"@,
            "settings_theme"@,
            "settings_language"@,
            "settings_optimization"@,
            "settings_account"@,
            "settings_window"@,
            "settings_java_list"@,
        ] + numbered("java_"@, st.java_installations@.len()),
    }
}

/// The labels of the current section's content targets.
pub open spec fn content_labels(st: AppState) -> Seq<Seq<char>> {
    match st.current_section {
        Section::Home => seq!["Create Instance"@, "Open Folder"@, "Play"@],
        Section::Instances => (if st.instances@.len() == 0 {
            seq!["No instances yet"@]
        } else {
            counted("Instance "@, st.instances@.len()) + seq!["Delete Selected"@]
        }) + when(st.runtime_state is Running, "Stop"@),
        Section::Discover => seq![
            "Category: Mods"@,
            "Category: Modpacks"@,
            "Category: Shaders"@,
            "Category: Resource Packs"@,
            "Search Modrinth"@,
        ] + counted_at("Project "@, shown_results(st)),
        Section::Mods => (if st.installed_content@.len() == 0 {
            seq!["No content installed"@]
        } else {
            counted("Installed item "@, st.installed_content@.len())
        }) + counted("Update "@, st.updatable_mods@.len()),
        Section::Worlds => if st.worlds@.len() == 0 {
            seq!["Worlds List"@]
        } else {
            counted("World "@, st.worlds@.len())
        },
        Section::Servers => (if st.servers@.len() == 0 {
            seq!["No servers yet"@]
        } else {
            counted("Server "@, st.servers@.len())
        }) + seq!["Add server"@],
        Section::Logs => (if st.logs@.len() == 0 {
            seq!["No log entries"@]
        } else {
            seq!["Log Entries"@]
        }) + when(st.live_log_view, "Live log"@),
        Section::Crashes => if st.crash_reports@.len() == 0 {
            seq!["No crash reports"@]
        } else {
            seq!["Crash Reports"@, "Copy report"@, "Delete report"@, "Open folder"@]
        },
        Section::Screenshots => if st.screenshots@.len() == 0 {
            seq!["No screenshots"@]
        } else {
            counted("Screenshot "@, st.screenshots@.len()) + seq!["Open folder"@]
        },
        Section::Settings => seq![
            "Default Memory"@,
            "Java Path"@,
            "Theme"@,
            "Language"@,
            "Optimization"@,
            "Offline Account"@,
            "Window"@,
            "Java Installations"@,
        ] + counted("Java "@, st.java_installations@.len()),
    }
}

/// The labels of a sequence of targets, in order.
pub open spec fn target_labels(t: Seq<FocusTarget>) -> Seq<Seq<char>> {
    t.map_values(|x: FocusTarget| x.label@)
}

fn push_target(out: &mut Vec<FocusTarget>, id: &str, label: &str)
    ensures
        target_ids(final(out)@) == target_ids(old(out)@).push(id@),
        target_labels(final(out)@) == target_labels(old(out)@).push(label@),
{
    out.push(FocusTarget::new(id, label));
    proof {
        assert(target_ids(final(out)@) =~= target_ids(old(out)@).push(id@));
        assert(target_labels(final(out)@) =~= target_labels(old(out)@).push(label@));
    }
}

fn numbered_string(p: &str, n: u64) -> (r: String)
    ensures
        r@ == p@ + decimal(n as nat),
{
    let d = decimal_chars(n);
    let r = crate::text::concat3(p, &d, "");
    proof {
        reveal_strlit("");
        assert(r@ =~= p@ + decimal(n as nat));
    }
    r
}

fn push_numbered(out: &mut Vec<FocusTarget>, id_prefix: &str, label_prefix: &str, n: usize)
    ensures
        target_ids(final(out)@) == target_ids(old(out)@) + numbered(id_prefix@, n as nat),
        target_labels(final(out)@) == target_labels(old(out)@) + counted(label_prefix@, n as nat),
{
    let mut i: usize = 0;
    while i < n
        invariant
            i <= n,
            target_ids(out@) == target_ids(old(out)@) + numbered(id_prefix@, i as nat),
            target_labels(out@) == target_labels(old(out)@) + counted(label_prefix@, i as nat),
        decreases n - i,
    {
        let id = numbered_string(id_prefix, i as u64);
        let label = numbered_string(label_prefix, i as u64 + 1);
        let ghost ids0 = target_ids(out@);
        let ghost labels0 = target_labels(out@);
        push_target(out, id.as_str(), label.as_str());
        proof {
            assert(numbered(id_prefix@, (i + 1) as nat) =~= numbered(id_prefix@, i as nat).push(
                id@,
            ));
            assert(counted(label_prefix@, (i + 1) as nat) =~= counted(
                label_prefix@,
                i as nat,
            ).push(label@));
            assert(target_ids(out@) =~= target_ids(old(out)@) + numbered(
                id_prefix@,
                (i + 1) as nat,
            ));
            assert(target_labels(out@) =~= target_labels(old(out)@) + counted(
                label_prefix@,
                (i + 1) as nat,
            ));
        }
        i = i + 1;
    }
}

fn push_numbered_at(
    out: &mut Vec<FocusTarget>,
    id_prefix: &str,
    label_prefix: &str,
    idx: &[usize],
)
    requires
        forall|k: int| 0 <= k < idx@.len() ==> idx@[k] < usize::MAX,
    ensures
        target_ids(final(out)@) == target_ids(old(out)@) + numbered_at(id_prefix@, idx@),
        target_labels(final(out)@) == target_labels(old(out)@) + counted_at(label_prefix@, idx@),
{
    let mut i: usize = 0;
    while i < idx.len()
        invariant
            i <= idx@.len(),
            forall|k: int| 0 <= k < idx@.len() ==> idx@[k] < usize::MAX,
            target_ids(out@) == target_ids(old(out)@) + numbered_at(
                id_prefix@,
                idx@.subrange(0, i as int),
            ),
            target_labels(out@) == target_labels(old(out)@) + counted_at(
                label_prefix@,
                idx@.subrange(0, i as int),
            ),
        decreases idx@.len() - i,
    {
        let v = idx[i];
        let id = numbered_string(id_prefix, v as u64);
        let label = numbered_string(label_prefix, v as u64 + 1);
        push_target(out, id.as_str(), label.as_str());
        proof {
            assert(numbered_at(id_prefix@, idx@.subrange(0, i + 1)) =~= numbered_at(
                id_prefix@,
                idx@.subrange(0, i as int),
            ).push(id@));
            assert(counted_at(label_prefix@, idx@.subrange(0, i + 1)) =~= counted_at(
                label_prefix@,
                idx@.subrange(0, i as int),
            ).push(label@));
            assert(target_ids(out@) =~= target_ids(old(out)@) + numbered_at(
                id_prefix@,
                idx@.subrange(0, i + 1),
            ));
            assert(target_labels(out@) =~= target_labels(old(out)@) + counted_at(
                label_prefix@,
                idx@.subrange(0, i + 1),
            ));
        }
        i = i + 1;
    }
    proof {
        assert(idx@.subrange(0, idx@.len() as int) =~= idx@);
    }
}


/// The shown result indices lie below the number of results and increase.
pub proof fn lemma_shown_results(n: nat, show: bool, installed: Seq<bool>)
    requires
        n <= usize::MAX,
    ensures
        forall|k: int|
            0 <= k < visible_indices(n, show, installed).len() ==> #[trigger] visible_indices(
                n,
                show,
                installed,
            )[k] < n,
        forall|j: int, k: int|
            0 <= j < k < visible_indices(n, show, installed).len() ==> #[trigger] visible_indices(
                n,
                show,
                installed,
            )[j] < #[trigger] visible_indices(n, show, installed)[k],
    decreases n,
{
    if n > 0 {
        lemma_shown_results((n - 1) as nat, show, installed);
        let p = visible_indices((n - 1) as nat, show, installed);
        let v = visible_indices(n, show, installed);
        assert forall|k: int| 0 <= k < v.len() implies #[trigger] v[k] < n by {
            if k < p.len() {
                assert(v[k] == p[k]);
            }
        }
        let i = (n - 1) as int;
        if show || !(0 <= i < installed.len() && installed[i]) {
            assert(v == p.push(i as usize));
        } else {
            assert(v == p);
        }
        assert forall|j: int, k: int| 0 <= j < k < v.len() implies #[trigger] v[j] < #[trigger] v[k] by {
            assert(v[j] == p[j]);
            assert(p[j] < n - 1);
            if k < p.len() {
                assert(v[k] == p[k]);
            } else {
                assert(v[k] == i);
            }
        }
    }
}

/// The targets of the current section's content, in focus order.
pub fn section_focus_targets(st: &AppState) -> (r: Vec<FocusTarget>)
    ensures
        target_ids(r@) == content_ids(*st),
        target_labels(r@) == content_labels(*st),
{
    broadcast use vstd::std_specs::vecdeque::group_vec_dequeue_axioms;
    let mut out: Vec<FocusTarget> = Vec::new();
    proof {
        assert(target_ids(out@) =~= Seq::<Seq<char>>::empty());
        assert(target_labels(out@) =~= Seq::<Seq<char>>::empty());
    }
    match st.current_section {
        Section::Home => {
            push_target(&mut out, "home_create", "Create Instance");
            push_target(&mut out, "home_open", "Open Folder");
            push_target(&mut out, "home_play", "Play");
        },
        Section::Instances => {
            if st.instances.len() == 0 {
                push_target(&mut out, "instances_empty", "No instances yet");
            } else {
                push_numbered(&mut out, "instance_", "Instance ", st.instances.len());
                push_target(&mut out, "instance_delete", "Delete Selected");
            }
            if st.runtime_state.is_running() {
                push_target(&mut out, "instance_stop", "Stop");
            }
        },
        Section::Discover => {
            push_target(&mut out, "disc_cat_0", "Category: Mods");
            push_target(&mut out, "disc_cat_1", "Category: Modpacks");
            push_target(&mut out, "disc_cat_2", "Category: Shaders");
            push_target(&mut out, "disc_cat_3", "Category: Resource Packs");
            push_target(&mut out, "disc_search", "Search Modrinth");
            let shown = st.visible_project_indices();
            let nres = st.modrinth_results.len();
            proof {
                lemma_shown_results(
                    st.modrinth_results@.len(),
                    st.show_installed_discover,
                    st.result_installed@,
                );
            }
            assert(forall|k: int| 0 <= k < shown@.len() ==> shown@[k] < usize::MAX) by {
                assert(forall|k: int| 0 <= k < shown@.len() ==> shown@[k] < nres);
            }
            push_numbered_at(&mut out, "project_", "Project ", shown.as_slice());
        },
        Section::Mods => {
            if st.installed_content.len() == 0 {
                push_target(&mut out, "mods_placeholder", "No content installed");
            } else {
                push_numbered(&mut out, "installed_", "Installed item ", st.installed_content.len());
            }
            push_numbered(&mut out, "update_", "Update ", st.updatable_mods.len());
        },
        Section::Worlds => {
            if st.worlds.len() == 0 {
                push_target(&mut out, "worlds_list", "Worlds List");
            } else {
                push_numbered(&mut out, "world_", "World ", st.worlds.len());
            }
        },
        Section::Servers => {
            if st.servers.len() == 0 {
                push_target(&mut out, "servers_empty", "No servers yet");
            } else {
                push_numbered(&mut out, "server_", "Server ", st.servers.len());
            }
            push_target(&mut out, "server_add", "Add server");
        },
        Section::Logs => {
            if st.logs.len() == 0 {
                push_target(&mut out, "logs_empty", "No log entries");
            } else {
                push_target(&mut out, "logs_list", "Log Entries");
            }
            if st.live_log_view {
                push_target(&mut out, "logs_live", "Live log");
            }
        },
        Section::Crashes => {
            if st.crash_reports.len() == 0 {
                push_target(&mut out, "crashes_empty", "No crash reports");
            } else {
                push_target(&mut out, "crashes_list", "Crash Reports");
                push_target(&mut out, "crashes_copy", "Copy report");
                push_target(&mut out, "crashes_delete", "Delete report");
                push_target(&mut out, "crashes_open", "Open folder");
            }
        },
        Section::Screenshots => {
            if st.screenshots.len() == 0 {
                push_target(&mut out, "screenshots_empty", "No screenshots");
            } else {
                push_numbered(&mut out, "screenshot_", "Screenshot ", st.screenshots.len());
                push_target(&mut out, "screenshots_open", "Open folder");
            }
        },
        Section::Settings => {
            push_target(&mut out, "settings_memory", "Default Memory");
            push_target(&mut out, "settings_java", "Java Path");
            push_target(&mut out, "settings_theme", "Theme");
            push_target(&mut out, "settings_language", "Language");
            push_target(&mut out, "settings_optimization", "Optimization");
            push_target(&mut out, "settings_account", "Offline Account");
            push_target(&mut out, "settings_window", "Window");
            push_target(&mut out, "settings_java_list", "Java Installations");
            push_numbered(&mut out, "java_", "Java ", st.java_installations.len());
        },
    }
    proof {
        reveal_strlit("disc_cat_0");
        reveal_strlit("disc_cat_1");
        reveal_strlit("disc_cat_2");
        reveal_strlit("disc_cat_3");
        reveal_strlit("disc_cat_");
        assert(decimal(0) =~= seq!['0']);
        assert(decimal(1) =~= seq!['1']);
        assert(decimal(2) =~= seq!['2']);
        assert(decimal(3) =~= seq!['3']);
        match st.current_section {
            Section::Discover => {
                assert(numbered("disc_cat_"@, 4)[0] =~= "disc_cat_0"@);
                assert(numbered("disc_cat_"@, 4)[1] =~= "disc_cat_1"@);
                assert(numbered("disc_cat_"@, 4)[2] =~= "disc_cat_2"@);
                assert(numbered("disc_cat_"@, 4)[3] =~= "disc_cat_3"@);
                assert(numbered("disc_cat_"@, 4) =~= seq![
                    "disc_cat_0"@,
                    "disc_cat_1"@,
                    "disc_cat_2"@,
                    "disc_cat_3"@,
                ]);
            },
            _ => {},
        }
        assert(target_ids(out@) =~= content_ids(*st));
        assert(target_labels(out@) =~= content_labels(*st));
    }
    out
}


// ===================== distinct ids =====================

/// Every id starts with character `c`.
pub open spec fn all_start(s: Seq<Seq<char>>, c: char) -> bool {
    forall|k: int| 0 <= k < s.len() ==> (#[trigger] s[k]).len() > 0 && s[k][0] == c
}

/// No id of `a` is an id of `b`.
pub open spec fn apart(a: Seq<Seq<char>>, b: Seq<Seq<char>>) -> bool {
    forall|i: int, j: int| 0 <= i < a.len() && 0 <= j < b.len() ==> #[trigger] a[i] != #[trigger] b[j]
}

proof fn lemma_concat_distinct(a: Seq<Seq<char>>, b: Seq<Seq<char>>)
    requires
        distinct_ids(a),
        distinct_ids(b),
        apart(a, b),
    ensures
        distinct_ids(a + b),
{
    let c = a + b;
    assert forall|i: int, j: int| 0 <= i < c.len() && 0 <= j < c.len() && i != j implies c[i]
        != c[j] by {
        if i < a.len() && j < a.len() {
            assert(c[i] == a[i] && c[j] == a[j]);
        } else if i >= a.len() && j >= a.len() {
            assert(c[i] == b[i - a.len()] && c[j] == b[j - a.len()]);
        } else if i < a.len() {
            assert(c[i] == a[i] && c[j] == b[j - a.len()]);
        } else {
            assert(c[j] == a[j] && c[i] == b[i - a.len()]);
        }
    }
}

proof fn lemma_apart_by_start(a: Seq<Seq<char>>, b: Seq<Seq<char>>, c: char, d: char)
    requires
        all_start(a, c),
        all_start(b, d),
        c != d,
    ensures
        apart(a, b),
{
    assert forall|i: int, j: int| 0 <= i < a.len() && 0 <= j < b.len() implies #[trigger] a[i]
        != #[trigger] b[j] by {
        assert(a[i][0] != b[j][0]);
    }
}

proof fn lemma_start_concat(a: Seq<Seq<char>>, b: Seq<Seq<char>>, c: char)
    requires
        all_start(a, c),
        all_start(b, c),
    ensures
        all_start(a + b, c),
{
    assert forall|k: int| 0 <= k < (a + b).len() implies #[trigger] (a + b)[k].len() > 0 && (a
        + b)[k][0] == c by {
        if k < a.len() {
            assert((a + b)[k] == a[k]);
        } else {
            assert((a + b)[k] == b[k - a.len()]);
        }
    }
}

proof fn lemma_numbered_start(p: Seq<char>, n: nat)
    requires
        p.len() > 0,
    ensures
        all_start(numbered(p, n), p[0]),
{
    assert forall|k: int| 0 <= k < numbered(p, n).len() implies #[trigger] numbered(p, n)[k].len()
        > 0 && numbered(p, n)[k][0] == p[0] by {
        assert(numbered(p, n)[k] == p + decimal(k as nat));
    }
}

proof fn lemma_numbered_at_start(p: Seq<char>, idx: Seq<usize>)
    requires
        p.len() > 0,
    ensures
        all_start(numbered_at(p, idx), p[0]),
{
    assert forall|k: int| 0 <= k < numbered_at(p, idx).len() implies #[trigger] numbered_at(
        p,
        idx,
    )[k].len() > 0 && numbered_at(p, idx)[k][0] == p[0] by {
        assert(numbered_at(p, idx)[k] == p + decimal(idx[k] as nat));
    }
}

proof fn lemma_decimal_injective(m: nat, n: nat)
    requires
        decimal(m) == decimal(n),
    ensures
        m == n,
{
    lemma_decimal_value(m);
    lemma_decimal_value(n);
}

proof fn lemma_prefixed_injective(p: Seq<char>, m: nat, n: nat)
    requires
        p + decimal(m) == p + decimal(n),
    ensures
        m == n,
{
    assert((p + decimal(m)).skip(p.len() as int) =~= decimal(m));
    assert((p + decimal(n)).skip(p.len() as int) =~= decimal(n));
    lemma_decimal_injective(m, n);
}

proof fn lemma_numbered_distinct(p: Seq<char>, n: nat)
    ensures
        distinct_ids(numbered(p, n)),
{
    let s = numbered(p, n);
    assert forall|i: int, j: int| 0 <= i < s.len() && 0 <= j < s.len() && i != j implies s[i]
        != s[j] by {
        if s[i] == s[j] {
            lemma_prefixed_injective(p, i as nat, j as nat);
        }
    }
}

proof fn lemma_numbered_at_distinct(p: Seq<char>, idx: Seq<usize>)
    requires
        forall|j: int, k: int| 0 <= j < k < idx.len() ==> #[trigger] idx[j] < #[trigger] idx[k],
    ensures
        distinct_ids(numbered_at(p, idx)),
{
    let s = numbered_at(p, idx);
    assert forall|i: int, j: int| 0 <= i < s.len() && 0 <= j < s.len() && i != j implies s[i]
        != s[j] by {
        if s[i] == s[j] {
            lemma_prefixed_injective(p, idx[i] as nat, idx[j] as nat);
            if i < j {
                assert(idx[i] < idx[j]);
            } else {
                assert(idx[j] < idx[i]);
            }
        }
    }
}

/// A numbered id differs from `lit` when `lit` has no digit right after
/// the prefix.
proof fn lemma_numbered_not_lit(p: Seq<char>, n: nat, lit: Seq<char>)
    requires
        lit.len() > p.len(),
        !is_digit(lit[p.len() as int]),
    ensures
        apart(numbered(p, n), seq![lit]),
{
    assert forall|i: int, j: int| 0 <= i < numbered(p, n).len() && 0 <= j < 1 implies #[trigger] numbered(
        p,
        n,
    )[i] != #[trigger] seq![lit][j] by {
        lemma_decimal_value(i as nat);
        let x = numbered(p, n)[i];
        assert(x == p + decimal(i as nat));
        assert(x[p.len() as int] == decimal(i as nat)[0]);
        assert(is_digit(decimal(i as nat)[0]));
    }
}

/// A numbered id differs from `lit` when `lit` leaves the prefix at `k`.
proof fn lemma_numbered_not_lit_at(p: Seq<char>, n: nat, lit: Seq<char>, k: int)
    requires
        0 <= k < p.len(),
        k < lit.len(),
        lit[k] != p[k],
    ensures
        apart(numbered(p, n), seq![lit]),
{
    assert forall|i: int, j: int| 0 <= i < numbered(p, n).len() && 0 <= j < 1 implies #[trigger] numbered(
        p,
        n,
    )[i] != #[trigger] seq![lit][j] by {
        let x = numbered(p, n)[i];
        assert(x == p + decimal(i as nat));
        assert(x[k] == p[k]);
    }
}

proof fn lemma_one(x: Seq<char>)
    ensures
        distinct_ids(seq![x]),
{
}

proof fn lemma_two(x: Seq<char>, y: Seq<char>)
    requires
        x != y,
    ensures
        distinct_ids(seq![x, y]),
{
}


/// No id starts with character `c`.
pub open spec fn none_start(s: Seq<Seq<char>>, c: char) -> bool {
    forall|k: int| 0 <= k < s.len() ==> (#[trigger] s[k]).len() > 0 && s[k][0] != c
}

proof fn lemma_none_from_all(s: Seq<Seq<char>>, c: char, d: char)
    requires
        all_start(s, d),
        c != d,
    ensures
        none_start(s, c),
{
}

proof fn lemma_none_concat(a: Seq<Seq<char>>, b: Seq<Seq<char>>, c: char)
    requires
        none_start(a, c),
        none_start(b, c),
    ensures
        none_start(a + b, c),
{
    assert forall|k: int| 0 <= k < (a + b).len() implies (#[trigger] (a + b)[k]).len() > 0 && (a
        + b)[k][0] != c by {
        if k < a.len() {
            assert((a + b)[k] == a[k]);
        } else {
            assert((a + b)[k] == b[k - a.len()]);
        }
    }
}

proof fn lemma_when(c: bool, x: Seq<char>, ch: char)
    requires
        x.len() > 0,
        x[0] != ch,
    ensures
        distinct_ids(when(c, x)),
        none_start(when(c, x), ch),
{
}

/// The content ids of a section are distinct, and none of them starts
/// like a navbar id.
proof fn lemma_content_ids(st: AppState)
    requires
        st.modrinth_results@.len() <= usize::MAX,
    ensures
        distinct_ids(content_ids(st)),
        none_start(content_ids(st), 'n'),
{
    let ids = content_ids(st);
    match st.current_section {
        Section::Home => {
            reveal_strlit("home_create");
            reveal_strlit("home_open");
            reveal_strlit("home_play");
            assert("home_open"@[5] != "home_play"@[5]);
        },
        Section::Instances => {
            reveal_strlit("instances_empty");
            reveal_strlit("instance_");
            reveal_strlit("instance_delete");
            reveal_strlit("instance_stop");
            let n = st.instances@.len();
            let a = if n == 0 {
                seq!["instances_empty"@]
            } else {
                numbered("instance_"@, n) + seq!["instance_delete"@]
            };
            let b = when(st.runtime_state is Running, "instance_stop"@);
            lemma_when(st.runtime_state is Running, "instance_stop"@, 'n');
            if n == 0 {
                assert(distinct_ids(a));
                assert(none_start(a, 'n'));
            } else {
                lemma_numbered_distinct("instance_"@, n);
                lemma_numbered_start("instance_"@, n);
                lemma_numbered_not_lit("instance_"@, n, "instance_delete"@);
                lemma_concat_distinct(numbered("instance_"@, n), seq!["instance_delete"@]);
                lemma_none_from_all(numbered("instance_"@, n), 'n', 'i');
                lemma_none_concat(numbered("instance_"@, n), seq!["instance_delete"@], 'n');
            }
            if st.runtime_state is Running {
                if n > 0 {
                    lemma_numbered_not_lit("instance_"@, n, "instance_stop"@);
                    assert("instance_delete"@[9] != "instance_stop"@[9]);
                    assert forall|i: int, j: int| 0 <= i < a.len() && 0 <= j < b.len() implies #[trigger] a[i]
                        != #[trigger] b[j] by {
                        if i < n {
                            assert(a[i] == numbered("instance_"@, n)[i]);
                            assert(numbered("instance_"@, n)[i] != seq!["instance_stop"@][0]);
                        }
                    }
                }
            }
            assert(apart(a, b));
            lemma_concat_distinct(a, b);
            lemma_none_concat(a, b, 'n');
        },
        Section::Discover => {
            reveal_strlit("disc_cat_");
            reveal_strlit("disc_search");
            reveal_strlit("project_");
            let a = numbered("disc_cat_"@, 4);
            let shown = shown_results(st);
            lemma_shown_results(
                st.modrinth_results@.len(),
                st.show_installed_discover,
                st.result_installed@,
            );
            lemma_numbered_distinct("disc_cat_"@, 4);
            lemma_numbered_start("disc_cat_"@, 4);
            lemma_numbered_not_lit_at("disc_cat_"@, 4, "disc_search"@, 5);
            lemma_concat_distinct(a, seq!["disc_search"@]);
            lemma_start_concat(a, seq!["disc_search"@], 'd');
            let c = numbered_at("project_"@, shown);
            lemma_numbered_at_distinct("project_"@, shown);
            lemma_numbered_at_start("project_"@, shown);
            lemma_apart_by_start(a + seq!["disc_search"@], c, 'd', 'p');
            lemma_concat_distinct(a + seq!["disc_search"@], c);
            lemma_none_from_all(a + seq!["disc_search"@], 'n', 'd');
            lemma_none_from_all(c, 'n', 'p');
            lemma_none_concat(a + seq!["disc_search"@], c, 'n');
        },
        Section::Mods => {
            reveal_strlit("mods_placeholder");
            reveal_strlit("installed_");
            reveal_strlit("update_");
            let k = st.installed_content@.len();
            let u = st.updatable_mods@.len();
            let b = numbered("update_"@, u);
            lemma_numbered_distinct("update_"@, u);
            lemma_numbered_start("update_"@, u);
            if k == 0 {
                lemma_apart_by_start(seq!["mods_placeholder"@], b, 'm', 'u');
                lemma_concat_distinct(seq!["mods_placeholder"@], b);
                lemma_none_from_all(b, 'n', 'u');
                lemma_none_concat(seq!["mods_placeholder"@], b, 'n');
            } else {
                let a = numbered("installed_"@, k);
                lemma_numbered_distinct("installed_"@, k);
                lemma_numbered_start("installed_"@, k);
                lemma_apart_by_start(a, b, 'i', 'u');
                lemma_concat_distinct(a, b);
                lemma_none_from_all(a, 'n', 'i');
                lemma_none_from_all(b, 'n', 'u');
                lemma_none_concat(a, b, 'n');
            }
        },
        Section::Worlds => {
            reveal_strlit("worlds_list");
            reveal_strlit("world_");
            let w = st.worlds@.len();
            if w > 0 {
                lemma_numbered_distinct("world_"@, w);
                lemma_numbered_start("world_"@, w);
                lemma_none_from_all(numbered("world_"@, w), 'n', 'w');
            }
        },
        Section::Servers => {
            reveal_strlit("servers_empty");
            reveal_strlit("server_");
            reveal_strlit("server_add");
            let n = st.servers@.len();
            if n == 0 {
                assert("servers_empty"@[6] != "server_add"@[6]);
            } else {
                let a = numbered("server_"@, n);
                lemma_numbered_distinct("server_"@, n);
                lemma_numbered_start("server_"@, n);
                lemma_numbered_not_lit("server_"@, n, "server_add"@);
                lemma_concat_distinct(a, seq!["server_add"@]);
                lemma_none_from_all(a, 'n', 's');
                lemma_none_concat(a, seq!["server_add"@], 'n');
            }
        },
        Section::Logs => {
            reveal_strlit("logs_empty");
            reveal_strlit("logs_list");
            reveal_strlit("logs_live");
            assert("logs_list"@[7] != "logs_live"@[7]);
        },
        Section::Crashes => {
            reveal_strlit("crashes_empty");
            reveal_strlit("crashes_list");
            reveal_strlit("crashes_copy");
            reveal_strlit("crashes_delete");
            reveal_strlit("crashes_open");
            assert("crashes_list"@[8] != "crashes_copy"@[8]);
            assert("crashes_list"@[8] != "crashes_open"@[8]);
            assert("crashes_copy"@[8] != "crashes_open"@[8]);
        },
        Section::Screenshots => {
            reveal_strlit("screenshots_empty");
            reveal_strlit("screenshot_");
            reveal_strlit("screenshots_open");
            let n = st.screenshots@.len();
            if n > 0 {
                let a = numbered("screenshot_"@, n);
                lemma_numbered_distinct("screenshot_"@, n);
                lemma_numbered_start("screenshot_"@, n);
                lemma_numbered_not_lit_at("screenshot_"@, n, "screenshots_open"@, 10);
                lemma_concat_distinct(a, seq!["screenshots_open"@]);
                lemma_none_from_all(a, 'n', 's');
                lemma_none_concat(a, seq!["screenshots_open"@], 'n');
            }
        },
        Section::Settings => {
            reveal_strlit("settings_memory");
            reveal_strlit("settings_java");
            reveal_strlit("settings_theme");
            reveal_strlit("settings_language");
            reveal_strlit("settings_optimization");
            reveal_strlit("settings_account");
            reveal_strlit("settings_window");
            reveal_strlit("settings_java_list");
            reveal_strlit("java_");
            let a = seq![
                "settings_memory"@,
                "settings_java"@,
                "settings_theme"@,
                "settings_language"@,
                "settings_optimization"@,
                "settings_account"@,
                "settings_window"@,
                "settings_java_list"@,
            ];
            assert("settings_memory"@[9] != "settings_window"@[9]);
            assert(a[0].len() == 15 && a[1].len() == 13 && a[2].len() == 14 && a[3].len() == 17);
            assert(a[4].len() == 21 && a[5].len() == 16 && a[6].len() == 15 && a[7].len() == 18);
            assert forall|i: int, j: int| 0 <= i < a.len() && 0 <= j < a.len() && i != j implies a[i]
                != a[j] by {
                if (i == 0 && j == 6) || (i == 6 && j == 0) {
                    assert(a[i][9] != a[j][9]);
                } else {
                    assert(a[i].len() != a[j].len());
                }
            }
            assert(all_start(a, 's'));
            let j = st.java_installations@.len();
            let b = numbered("java_"@, j);
            lemma_numbered_distinct("java_"@, j);
            lemma_numbered_start("java_"@, j);
            lemma_apart_by_start(a, b, 's', 'j');
            lemma_concat_distinct(a, b);
            lemma_none_from_all(a, 'n', 's');
            lemma_none_from_all(b, 'n', 'j');
            lemma_none_concat(a, b, 'n');
        },
    }
}

proof fn lemma_nav_ids()
    ensures
        distinct_ids(nav_ids()),
        all_start(nav_ids(), 'n'),
{
    reveal_strlit("nav_home");
    reveal_strlit("nav_discover");
    reveal_strlit("nav_instances");
    reveal_strlit("nav_mods");
    reveal_strlit("nav_worlds");
    reveal_strlit("nav_servers");
    reveal_strlit("nav_logs");
    reveal_strlit("nav_crashes");
    reveal_strlit("nav_screenshots");
    reveal_strlit("nav_settings");
    let a = nav_ids();
    assert(a[0].len() == 8 && a[1].len() == 12 && a[2].len() == 13 && a[3].len() == 8);
    assert(a[4].len() == 10 && a[5].len() == 11 && a[6].len() == 8 && a[7].len() == 11);
    assert(a[8].len() == 15 && a[9].len() == 12);
    assert forall|i: int, j: int| 0 <= i < a.len() && 0 <= j < a.len() && i != j implies a[i]
        != a[j] by {
        if a[i].len() == a[j].len() {
            assert(a[i][4] != a[j][4]);
        }
    }
}

/// No focus id is registered twice: the navbar ids and the current
/// section's content ids are all distinct.
pub proof fn law_focus_ids_distinct(st: AppState)
    requires
        st.modrinth_results@.len() <= usize::MAX,
    ensures
        distinct_ids(nav_ids() + content_ids(st)),
{
    lemma_nav_ids();
    lemma_content_ids(st);
    assert forall|i: int, j: int|
        0 <= i < nav_ids().len() && 0 <= j < content_ids(st).len() implies #[trigger] nav_ids()[i]
        != #[trigger] content_ids(st)[j] by {
        assert(nav_ids()[i][0] == 'n');
        assert(content_ids(st)[j][0] != 'n');
    }
    lemma_concat_distinct(nav_ids(), content_ids(st));
}

/// Every section registers at least one content target, so the focus
/// always lands inside a section rather than on the navbar.
pub proof fn law_every_section_has_content(st: AppState)
    ensures
        content_ids(st).len() >= 1,
{
}

fn nav_id_of(s: Section) -> (r: &'static str)
    ensures
        r@ == nav_id(s),
{
    match s {
        Section::Home => "nav_home",
        Section::Discover => "nav_discover",
        Section::Instances => "nav_instances",
        Section::Mods => "nav_mods",
        Section::Worlds => "nav_worlds",
        Section::Servers => "nav_servers",
        Section::Logs => "nav_logs",
        Section::Crashes => "nav_crashes",
        Section::Screenshots => "nav_screenshots",
        Section::Settings => "nav_settings",
    }
}

/// The navbar targets, one per section in menu order, labelled with the
/// section's name.
pub fn nav_targets() -> (r: Vec<FocusTarget>)
    ensures
        target_ids(r@) == nav_ids(),
        target_labels(r@) == nav_labels(),
{
    let all = Section::all();
    let mut out: Vec<FocusTarget> = Vec::new();
    let mut i: usize = 0;
    while i < all.len()
        invariant
            i <= all@.len(),
            all@ == all_sections(),
            target_ids(out@) == all_sections().subrange(0, i as int).map_values(
                |s: Section| nav_id(s),
            ),
            target_labels(out@) == all_sections().subrange(0, i as int).map_values(
                |s: Section| crate::argus::state::section_label(s),
            ),
        decreases all@.len() - i,
    {
        let s = all[i];
        let ghost ids0 = target_ids(out@);
        let ghost labels0 = target_labels(out@);
        push_target(&mut out, nav_id_of(s), s.label());
        proof {
            assert(all_sections().subrange(0, i + 1).map_values(|s: Section| nav_id(s))
                =~= ids0.push(nav_id(s)));
            assert(all_sections().subrange(0, i + 1).map_values(
                |s: Section| crate::argus::state::section_label(s),
            ) =~= labels0.push(crate::argus::state::section_label(s)));
        }
        i = i + 1;
    }
    proof {
        assert(all_sections().subrange(0, 10) =~= all_sections());
        assert(target_ids(out@) =~= nav_ids());
        assert(target_labels(out@) =~= nav_labels());
    }
    out
}

/// Registers the navbar and the current section's content as the focus
/// targets, and focuses the first content target.
pub fn setup_focus_targets(st: &AppState, focus: &mut FocusManager)
    ensures
        final(focus).wf(),
        final(focus).ids() == nav_ids() + content_ids(*st),
        target_labels(final(focus).items()) == nav_labels() + content_labels(*st),
        final(focus).cursor() == 10,
{
    let nres = st.modrinth_results.len();
    proof {
        law_focus_ids_distinct(*st);
    }
    focus.clear();
    let nav = nav_targets();
    let content = section_focus_targets(st);
    let mut i: usize = 0;
    while i < nav.len()
        invariant
            i <= nav@.len(),
            focus.wf(),
            target_ids(nav@) == nav_ids(),
            target_labels(nav@) == nav_labels(),
            focus.ids() == nav_ids().subrange(0, i as int),
            target_labels(focus.items()) == nav_labels().subrange(0, i as int),
            distinct_ids(nav_ids() + content_ids(*st)),
        decreases nav@.len() - i,
    {
        proof {
            assert((nav_ids() + content_ids(*st))[i as int] == nav_ids()[i as int]);
            if focus.ids().contains(nav@[i as int].id@) {
                let k = choose|k: int| 0 <= k < focus.ids().len() && focus.ids()[k] == nav@[i as int].id@;
                assert((nav_ids() + content_ids(*st))[k] == nav_ids()[k]);
            }
        }
        focus.register(nav[i].id.as_str(), nav[i].label.as_str());
        proof {
            assert(focus.ids() =~= nav_ids().subrange(0, i + 1));
            assert(target_labels(focus.items()) =~= nav_labels().subrange(0, i + 1));
        }
        i = i + 1;
    }
    proof {
        assert(nav_labels().subrange(0, nav@.len() as int) =~= nav_labels() + content_labels(*st).subrange(0, 0));
    }
    let mut j: usize = 0;
    while j < content.len()
        invariant
            j <= content@.len(),
            focus.wf(),
            target_ids(content@) == content_ids(*st),
            target_labels(content@) == content_labels(*st),
            focus.ids() == nav_ids() + content_ids(*st).subrange(0, j as int),
            target_labels(focus.items()) == nav_labels() + content_labels(*st).subrange(0, j as int),
            distinct_ids(nav_ids() + content_ids(*st)),
        decreases content@.len() - j,
    {
        let ghost all = nav_ids() + content_ids(*st);
        proof {
            assert(all[10 + j] == content@[j as int].id@);
            assert(target_labels(content@)[j as int] == content@[j as int].label@);
            assert(nav_labels().len() == 10);
            if focus.ids().contains(content@[j as int].id@) {
                let k = choose|k: int| 0 <= k < focus.ids().len() && focus.ids()[k] == content@[j as int].id@;
                assert(focus.ids()[k] == all[k]);
            }
        }
        let ghost before = focus.items();
        focus.register(content[j].id.as_str(), content[j].label.as_str());
        proof {
            assert(focus.ids() =~= nav_ids() + content_ids(*st).subrange(0, j + 1));
            let want = nav_labels() + content_labels(*st).subrange(0, j + 1);
            assert(target_labels(before) == nav_labels() + content_labels(*st).subrange(0, j as int));
            assert(before.len() == 10 + j);
            assert forall|k: int| 0 <= k < focus.items().len() implies #[trigger] target_labels(focus.items())[k] == want[k] by {
                if k < 10 + j {
                    assert(focus.items()[k] == before[k]);
                    assert(target_labels(before)[k] == before[k].label@);
                } else {
                    assert(k == 10 + j);
                }
            }
            assert(target_labels(focus.items()) =~= want);
        }
        j = j + 1;
    }
    proof {
        assert(content_ids(*st).subrange(0, content@.len() as int) =~= content_ids(*st));
        assert(content_labels(*st).subrange(0, content@.len() as int) =~= content_labels(*st));
        assert(nav_labels().subrange(0, nav@.len() as int) =~= nav_labels());
        law_every_section_has_content(*st);
    }
    focus.set(10);
}

/// Rebuilds the focus targets after the data behind them changed, keeping
/// the focus on the same id when it is still there, otherwise on the first
/// content target.
pub fn rebuild_targets_preserving_focus(st: &AppState, focus: &mut FocusManager)
    requires
        old(focus).wf(),
    ensures
        final(focus).wf(),
        final(focus).ids() == nav_ids() + content_ids(*st),
        ({
            let before = if old(focus).items().len() > 0 {
                Some(old(focus).ids()[old(focus).cursor() as int])
            } else {
                None
            };
            match before {
                Some(id) => if final(focus).ids().contains(id) {
                    final(focus).ids()[final(focus).cursor() as int] == id
                } else {
                    final(focus).cursor() == 10
                },
                None => final(focus).cursor() == 10,
            }
        }),
{
    let current_id: Option<String> = match focus.current() {
        Some(t) => Some(t.id.clone()),
        None => None,
    };
    setup_focus_targets(st, focus);
    match current_id {
        Some(id) => {
            if !focus.set_by_id(id.as_str()) {
                focus.set(10);
            }
        },
        None => {},
    }
}

/// The id remembered as last focused in a section.
pub open spec fn remembered(mem: Seq<(Section, String)>, s: Section) -> Option<Seq<char>>
    decreases mem.len(),
{
    if mem.len() == 0 {
        None
    } else if mem[0].0 == s {
        Some(mem[0].1@)
    } else {
        remembered(mem.drop_first(), s)
    }
}

proof fn lemma_remembered_push(mem: Seq<(Section, String)>, x: (Section, String), s: Section)
    ensures
        remembered(mem.push(x), s) == if remembered(mem, s) is Some {
            remembered(mem, s)
        } else if x.0 == s {
            Some(x.1@)
        } else {
            None
        },
    decreases mem.len(),
{
    if mem.len() > 0 {
        assert(mem.push(x)[0] == mem[0]);
        assert(mem.push(x).drop_first() =~= mem.drop_first().push(x));
        lemma_remembered_push(mem.drop_first(), x, s);
    } else {
        assert(mem.push(x)[0] == x);
        assert(mem.push(x).drop_first() =~= Seq::<(Section, String)>::empty());
        assert(remembered(Seq::<(Section, String)>::empty(), s) is None);
        assert(remembered(mem, s) is None);
    }
}

proof fn lemma_remembered_update(
    mem: Seq<(Section, String)>,
    i: int,
    x: (Section, String),
    s: Section,
)
    requires
        0 <= i < mem.len(),
        mem[i].0 == x.0,
        forall|k: int| 0 <= k < i ==> mem[k].0 != x.0,
    ensures
        remembered(mem.update(i, x), s) == if s == x.0 {
            Some(x.1@)
        } else {
            remembered(mem, s)
        },
    decreases mem.len(),
{
    if i > 0 {
        assert(mem.update(i, x)[0] == mem[0]);
        assert(mem[0].0 != x.0);
        assert(mem.update(i, x).drop_first() =~= mem.drop_first().update(i - 1, x));
        lemma_remembered_update(mem.drop_first(), i - 1, x, s);
    } else {
        assert(mem.update(i, x)[0] == x);
        assert(mem.update(i, x).drop_first() =~= mem.drop_first());
    }
}

proof fn lemma_remembered_absent(mem: Seq<(Section, String)>, s: Section)
    requires
        forall|k: int| 0 <= k < mem.len() ==> mem[k].0 != s,
    ensures
        remembered(mem, s) is None,
    decreases mem.len(),
{
    if mem.len() > 0 {
        lemma_remembered_absent(mem.drop_first(), s);
    }
}

impl AppState {
    /// Remembers `id` as the last focused content target of `section`;
    /// navbar ids are not remembered.
    pub fn save_focus_memory(&mut self, section: Section, id: &str)
        ensures
            crate::text::starts_with(id@, "nav_"@) ==> final(self).focus_memory@ == old(
                self,
            ).focus_memory@,
            !crate::text::starts_with(id@, "nav_"@) ==> remembered(
                final(self).focus_memory@,
                section,
            ) == Some(id@),
            forall|t: Section|
                t != section ==> remembered(final(self).focus_memory@, t) == remembered(
                    old(self).focus_memory@,
                    t,
                ),
    {
        let cs = chars_of(id);
        let pre = chars_of("nav_");
        if crate::text::starts_with_chars(&cs, &pre) {
            return;
        }
        let mut i: usize = 0;
        while i < self.focus_memory.len()
            invariant
                i <= self.focus_memory@.len(),
                !crate::text::starts_with(id@, "nav_"@),
                self.focus_memory@ == old(self).focus_memory@,
                forall|k: int| 0 <= k < i ==> self.focus_memory@[k].0 != section,
            decreases self.focus_memory@.len() - i,
        {
            if self.focus_memory[i].0 == section {
                let ghost mem = self.focus_memory@;
                let entry = (section, id.to_owned());
                self.focus_memory.set(i, entry);
                proof {
                    assert forall|t: Section| #![auto] true implies remembered(
                        self.focus_memory@,
                        t,
                    ) == if t == section {
                        Some(id@)
                    } else {
                        remembered(mem, t)
                    } by {
                        lemma_remembered_update(mem, i as int, (section, entry.1), t);
                    }
                }
                return;
            }
            i = i + 1;
        }
        let ghost mem = self.focus_memory@;
        let entry = (section, id.to_owned());
        self.focus_memory.push(entry);
        proof {
            lemma_remembered_absent(mem, section);
            assert forall|t: Section| #![auto] true implies remembered(self.focus_memory@, t) == if t
                == section {
                Some(id@)
            } else {
                remembered(mem, t)
            } by {
                lemma_remembered_push(mem, (section, entry.1), t);
            }
        }
    }

    /// The id last focused in `section`, if one was remembered.
    pub fn remembered_focus(&self, section: Section) -> (r: Option<String>)
        ensures
            match remembered(self.focus_memory@, section) {
                None => r is None,
                Some(id) => r matches Some(s) && s@ == id,
            },
    {
        let mut i: usize = 0;
        assert(self.focus_memory@.skip(0) =~= self.focus_memory@);
        while i < self.focus_memory.len()
            invariant
                i <= self.focus_memory@.len(),
                remembered(self.focus_memory@, section) == remembered(
                    self.focus_memory@.skip(i as int),
                    section,
                ),
            decreases self.focus_memory@.len() - i,
        {
            proof {
                assert(self.focus_memory@.skip(i as int).drop_first() =~= self.focus_memory@.skip(
                    i + 1,
                ));
            }
            if self.focus_memory[i].0 == section {
                return Some(self.focus_memory[i].1.clone());
            }
            i = i + 1;
        }
        None
    }
}

} // verus!
