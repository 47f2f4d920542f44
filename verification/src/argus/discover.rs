//! The Discover section: which results are already installed, the two
//! panes (categories and results) that own up/down navigation, switching
//! categories, and the search that a category or query asks for.

use vstd::prelude::*;
use crate::argus::backend::{BackendBridge, DiscoverSearch, tab_content_type};
use crate::argus::mod_files::title_matches;
use crate::argus::navigation::{group_target, step_within, string_views};
use crate::argus::state::{AppState, DiscoverPane, DiscoverTab, InstalledContent, LogLevel, Section, visible_indices};
use crate::modrinth::Project;
use crate::text::{chars_of, decimal, decimal_chars, extend_chars, extend_str, str_eq, string_from_chars};

verus! {

/// Whether some text in `ids` equals `id`.
pub open spec fn listed(ids: Seq<String>, id: Seq<char>) -> bool {
    exists|k: int| 0 <= k < ids.len() && (#[trigger] ids[k])@ == id
}

/// A Discover result counts as installed in the selected instance when an
/// install record names its project, or when an installed file's name looks
/// like it came from a project with its title.
pub open spec fn installed_flag(p: Project, recorded: Seq<String>, content: Seq<InstalledContent>) -> bool {
    listed(recorded, p.id@) || exists|j: int|
        0 <= j < content.len() && title_matches(p.title@, (#[trigger] content[j]).name@)
}

/// How many flagged results the list hides: none while installed results
/// are shown, else every flagged one.
pub open spec fn hidden_count(flags: Seq<bool>, show: bool) -> nat
    decreases flags.len(),
{
    if flags.len() == 0 {
        0
    } else {
        hidden_count(flags.drop_last(), show) + if flags.last() && !show {
            1nat
        } else {
            0nat
        }
    }
}

proof fn lemma_hidden_count_bound(flags: Seq<bool>, show: bool)
    ensures
        hidden_count(flags, show) <= flags.len(),
    decreases flags.len(),
{
    if flags.len() > 0 {
        lemma_hidden_count_bound(flags.drop_last(), show);
    }
}

fn is_listed(ids: &[String], id: &str) -> (r: bool)
    ensures
        r == listed(ids@, id@),
{
    let mut k: usize = 0;
    while k < ids.len()
        invariant
            k <= ids@.len(),
            forall|j: int| 0 <= j < k ==> (#[trigger] ids@[j])@ != id@,
        decreases ids@.len() - k,
    {
        if str_eq(ids[k].as_str(), id) {
            return true;
        }
        k = k + 1;
    }
    false
}

fn matches_some_file(title: &str, content: &[InstalledContent]) -> (r: bool)
    ensures
        r == exists|j: int| 0 <= j < content@.len() && title_matches(title@, (#[trigger] content@[j]).name@),
{
    let mut j: usize = 0;
    while j < content.len()
        invariant
            j <= content@.len(),
            forall|i: int| 0 <= i < j ==> !title_matches(title@, (#[trigger] content@[i]).name@),
        decreases content@.len() - j,
    {
        if BackendBridge::title_matches_file(title, content[j].name.as_str()) {
            return true;
        }
        j = j + 1;
    }
    false
}

impl AppState {
    /// Flags the results already installed in the selected instance (by the
    /// ids of its install records and by its installed files) and counts
    /// those the list hides.
    pub fn classify_installed_results(&mut self, recorded: &[String])
        ensures
            final(self).result_installed@.len() == old(self).modrinth_results@.len(),
            forall|i: int|
                0 <= i < old(self).modrinth_results@.len() ==> (#[trigger] final(self).result_installed@[i])
                    == installed_flag(old(self).modrinth_results@[i], recorded@, old(self).installed_content@),
            final(self).discover_hidden_count == hidden_count(
                final(self).result_installed@,
                old(self).show_installed_discover,
            ),
            *final(self) == (AppState {
                result_installed: final(self).result_installed,
                discover_hidden_count: final(self).discover_hidden_count,
                ..*old(self)
            }),
    {
        let n = self.modrinth_results.len();
        let mut flags: Vec<bool> = Vec::new();
        let mut hidden: usize = 0;
        let mut i: usize = 0;
        while i < n
            invariant
                n == self.modrinth_results@.len(),
                i <= n,
                flags@.len() == i,
                forall|k: int|
                    0 <= k < i ==> (#[trigger] flags@[k]) == installed_flag(
                        self.modrinth_results@[k],
                        recorded@,
                        self.installed_content@,
                    ),
                hidden == hidden_count(flags@, self.show_installed_discover),
                hidden <= i,
            decreases n - i,
        {
            let p = &self.modrinth_results[i];
            let f = is_listed(recorded, p.id.as_str()) || matches_some_file(
                p.title.as_str(),
                self.installed_content.as_slice(),
            );
            let ghost before = flags@;
            flags.push(f);
            assert(flags@.drop_last() =~= before);
            if f && !self.show_installed_discover {
                hidden = hidden + 1;
            }
            i = i + 1;
        }
        self.result_installed = flags;
        self.discover_hidden_count = hidden;
    }
}

/// The position of a Discover tab among the categories.
pub open spec fn tab_index(t: DiscoverTab) -> nat {
    match t {
        DiscoverTab::Mods => 0,
        DiscoverTab::Modpacks => 1,
        DiscoverTab::Shaders => 2,
        DiscoverTab::ResourcePacks => 3,
    }
}

/// The focus id of a category row.
pub open spec fn category_id(i: nat) -> Seq<char> {
    "disc_cat_"@ + decimal(i)
}

/// The focus id of a result row.
pub open spec fn project_id(i: nat) -> Seq<char> {
    "project_"@ + decimal(i)
}

fn indexed_id(prefix: &str, i: usize) -> (r: String)
    ensures
        r@ == prefix@ + decimal(i as nat),
{
    let mut v = chars_of(prefix);
    extend_chars(&mut v, &decimal_chars(i as u64));
    string_from_chars(&v)
}

/// The focus id of the category row of the active tab.
pub fn active_category_id(tab: DiscoverTab) -> (r: String)
    ensures
        r@ == category_id(tab_index(tab)),
{
    proof {
        reveal_strlit("disc_cat_");
    }
    let i: usize = match tab {
        DiscoverTab::Mods => 0,
        DiscoverTab::Modpacks => 1,
        DiscoverTab::Shaders => 2,
        DiscoverTab::ResourcePacks => 3,
    };
    indexed_id("disc_cat_", i)
}

/// The shown results of a state, as their row positions.
pub open spec fn shown_results(st: AppState) -> Seq<usize> {
    visible_indices(st.modrinth_results@.len(), st.show_installed_discover, st.result_installed@)
}

impl AppState {
    /// Moves navigation into the results list, focusing its first shown
    /// row, or back to the categories (on the active tab's row) when no
    /// result is shown. The result is the id to focus.
    #[verifier::rlimit(40)]
    pub fn enter_results_pane(&mut self) -> (focus_id: String)
        ensures
            shown_results(*old(self)).len() == 0 ==> final(self).discover_pane == DiscoverPane::Categories
                && focus_id@ == category_id(tab_index(old(self).discover_tab)),
            shown_results(*old(self)).len() > 0 ==> final(self).discover_pane == DiscoverPane::Results
                && focus_id@ == project_id(shown_results(*old(self))[0] as nat),
            *final(self) == (AppState { discover_pane: final(self).discover_pane, ..*old(self) }),
    {
        let visible = self.visible_project_indices();
        if visible.len() == 0 {
            self.discover_pane = DiscoverPane::Categories;
            return active_category_id(self.discover_tab);
        }
        self.discover_pane = DiscoverPane::Results;
        proof {
            reveal_strlit("project_");
        }
        indexed_id("project_", visible[0])
    }
}

/// The ids an up/down step cycles through in a Discover pane: the four
/// category rows and the search bar, or the shown result rows.
pub open spec fn pane_ids(st: AppState) -> Seq<Seq<char>> {
    match st.discover_pane {
        DiscoverPane::Categories => seq![
            category_id(0),
            category_id(1),
            category_id(2),
            category_id(3),
            "disc_search"@,
        ],
        DiscoverPane::Results => shown_results(st).map_values(|i: usize| project_id(i as nat)),
    }
}

/// The position of the first `x` in `ids`, if it is there.
pub open spec fn first_index(ids: Seq<Seq<char>>, x: Seq<char>) -> Option<int>
    decreases ids.len(),
{
    if ids.len() == 0 {
        None
    } else if ids[0] == x {
        Some(0)
    } else {
        match first_index(ids.drop_first(), x) {
            Some(k) => Some(k + 1),
            None => None,
        }
    }
}

/// The position of the focused id in `ids`, if it is there.
pub open spec fn position_of(ids: Seq<Seq<char>>, id: Option<Seq<char>>) -> Option<int> {
    match id {
        Some(x) => first_index(ids, x),
        None => None,
    }
}

pub proof fn lemma_first_index_at(ids: Seq<Seq<char>>, x: Seq<char>, k: int)
    requires
        0 <= k <= ids.len(),
        forall|j: int| 0 <= j < k ==> ids[j] != x,
        k < ids.len() ==> ids[k] == x,
    ensures
        first_index(ids, x) == if k < ids.len() {
            Some(k)
        } else {
            None
        },
    decreases k,
{
    if k > 0 {
        let t = ids.drop_first();
        assert forall|j: int| 0 <= j < k - 1 implies t[j] != x by {
            assert(t[j] == ids[j + 1]);
        }
        if k - 1 < t.len() {
            assert(t[k - 1] == ids[k]);
        }
        lemma_first_index_at(t, x, k - 1);
    }
}

proof fn lemma_shown_len(n: nat, show: bool, installed: Seq<bool>)
    ensures
        visible_indices(n, show, installed).len() <= n,
    decreases n,
{
    if n > 0 {
        lemma_shown_len((n - 1) as nat, show, installed);
    }
}

fn pane_id_list(st: &AppState) -> (r: Vec<String>)
    ensures
        string_views(r@) == pane_ids(*st),
{
    let mut out: Vec<String> = Vec::new();
    match st.discover_pane {
        DiscoverPane::Categories => {
            proof {
                reveal_strlit("disc_cat_");
                reveal_strlit("disc_search");
            }
            out.push(indexed_id("disc_cat_", 0));
            out.push(indexed_id("disc_cat_", 1));
            out.push(indexed_id("disc_cat_", 2));
            out.push(indexed_id("disc_cat_", 3));
            out.push("disc_search".to_owned());
            assert(string_views(out@) =~= pane_ids(*st));
        },
        DiscoverPane::Results => {
            proof {
                reveal_strlit("project_");
            }
            let visible = st.visible_project_indices();
            let mut i: usize = 0;
            while i < visible.len()
                invariant
                    i <= visible@.len(),
                    visible@ == shown_results(*st),
                    out@.len() == i,
                    forall|k: int| 0 <= k < i ==> (#[trigger] out@[k])@ == project_id(visible@[k] as nat),
                decreases visible@.len() - i,
            {
                out.push(indexed_id("project_", visible[i]));
                i = i + 1;
            }
            assert(string_views(out@) =~= pane_ids(*st));
        },
    }
    out
}

fn first_position(ids: &Vec<String>, id: &Option<String>) -> (r: Option<usize>)
    ensures
        match r {
            Some(k) => position_of(string_views(ids@), opt_chars(*id)) == Some(k as int) && k < ids@.len(),
            None => position_of(string_views(ids@), opt_chars(*id)) is None,
        },
{
    let ghost v = string_views(ids@);
    if id.is_none() {
        return None;
    }
    let x: &String = id.as_ref().unwrap();
    assert(opt_chars(*id) == Some(x@));
    let mut k: usize = 0;
    while k < ids.len()
        invariant
            k <= ids@.len(),
            v == string_views(ids@),
            v.len() == ids@.len(),
            opt_chars(*id) == Some(x@),
            forall|j: int| 0 <= j < k ==> v[j] != x@,
        decreases ids@.len() - k,
    {
        assert(v[k as int] == ids@[k as int]@);
        if str_eq(ids[k].as_str(), x.as_str()) {
            proof {
                lemma_first_index_at(v, x@, k as int);
            }
            return Some(k);
        }
        k = k + 1;
    }
    proof {
        lemma_first_index_at(v, x@, k as int);
    }
    None
}

/// The view of an optional text.
pub open spec fn opt_chars(o: Option<String>) -> Option<Seq<char>> {
    match o {
        Some(s) => Some(s@),
        None => None,
    }
}

impl AppState {
    /// An up/down step in Discover, kept inside the pane that owns
    /// navigation: from the focused row (given by its id) `delta` rows on,
    /// wrapping around; from outside the pane to its first row going down
    /// and its last going up. An empty results pane only says so. The
    /// result is the id to focus.
    pub fn discover_step(&mut self, focused: Option<String>, delta: isize) -> (target: Option<String>)
        requires
            old(self).modrinth_results@.len() + 5 <= isize::MAX,
            delta > isize::MIN,
            old(self).modrinth_results@.len() + 5 + delta <= isize::MAX,
        ensures
            pane_ids(*old(self)).len() == 0 ==> target is None && (final(self).status_message matches Some(t)
                && t@ == "No results \u{2014} pick another category (ESC)"@),
            pane_ids(*old(self)).len() > 0 ==> *final(self) == *old(self) && (target matches Some(t) && t@
                == pane_ids(*old(self))[group_target(
                pane_ids(*old(self)).len() as int,
                position_of(pane_ids(*old(self)), opt_chars(focused)),
                delta as int,
            )]),
    {
        let ids = pane_id_list(self);
        if ids.len() == 0 {
            proof {
                reveal_strlit("No results \u{2014} pick another category (ESC)");
            }
            self.set_status(string_from_chars(&chars_of("No results \u{2014} pick another category (ESC)")));
            return None;
        }
        let cur = first_position(&ids, &focused);
        proof {
            assert(ids@.len() == string_views(ids@).len());
            assert(shown_results(*self).map_values(|i: usize| project_id(i as nat)).len() == shown_results(*self).len());
            lemma_shown_len(self.modrinth_results@.len(), self.show_installed_discover, self.result_installed@);
            match self.discover_pane {
                DiscoverPane::Categories => assert(pane_ids(*self).len() == 5),
                DiscoverPane::Results => assert(pane_ids(*self).len() == shown_results(*self).len()),
            }
            assert(ids@.len() <= self.modrinth_results@.len() + 5);
            match cur {
                Some(k) => {
                    let c = position_of(pane_ids(*self), opt_chars(focused));
                    assert(c == Some(k as int));
                },
                None => {},
            }
        }
        let next = step_within(ids.len(), cur, delta);
        match next {
            Some(t) => Some(ids[t].clone()),
            None => None,
        }
    }
}

/// What switching to a Discover category asks the caller to do next.
#[derive(Debug, Clone, Copy, PartialEq, Eq, Structural)]
pub enum CategorySwitch {
    /// No category has that index.
    Ignored,
    /// The category was already shown with results: move into them.
    EnterResults,
    /// Fetch the category's results, then move into them.
    Fetch,
}

/// The Discover tabs in category order.
pub open spec fn tab_at(i: int) -> DiscoverTab {
    if i == 0 {
        DiscoverTab::Mods
    } else if i == 1 {
        DiscoverTab::Modpacks
    } else if i == 2 {
        DiscoverTab::Shaders
    } else {
        DiscoverTab::ResourcePacks
    }
}

impl AppState {
    /// Switches to the category at `idx`. A different category drops the
    /// results shown; the same one with results loaded is simply entered.
    pub fn switch_discover_category(&mut self, idx: usize) -> (r: CategorySwitch)
        ensures
            idx >= 4 ==> r == CategorySwitch::Ignored && *final(self) == *old(self),
            idx < 4 ==> ({
                let changed = tab_at(idx as int) != old(self).discover_tab;
                &&& final(self).discover_tab == tab_at(idx as int)
                &&& changed ==> final(self).modrinth_results@.len() == 0 && *final(self) == (AppState {
                    discover_tab: tab_at(idx as int),
                    modrinth_results: final(self).modrinth_results,
                    ..*old(self)
                })
                &&& !changed ==> *final(self) == *old(self)
                &&& r == if !changed && old(self).modrinth_results@.len() > 0 {
                    CategorySwitch::EnterResults
                } else {
                    CategorySwitch::Fetch
                }
            }),
    {
        let tabs = DiscoverTab::all();
        if idx >= tabs.len() {
            return CategorySwitch::Ignored;
        }
        let tab = tabs[idx];
        let changed = tab != self.discover_tab;
        if changed {
            self.discover_tab = tab;
            self.modrinth_results = Vec::new();
        }
        if !changed && self.modrinth_results.len() > 0 {
            CategorySwitch::EnterResults
        } else {
            CategorySwitch::Fetch
        }
    }

    /// Whether the Discover results belong to another instance than the
    /// selected one (another id, or the selected instance's game version
    /// differs from the one they were fetched for) while Discover is shown.
    pub fn discover_is_stale(&self) -> (r: bool)
        ensures
            r == (self.current_section == Section::Discover && (opt_chars(self.discover_scoped_instance)
                != match self.selected_instance {
                Some(i) => Some(i.id@),
                None => None,
            } || (self.selected_instance matches Some(i) && self.discover_game_version@ != i.game_version@))),
    {
        if self.current_section != Section::Discover {
            return false;
        }
        match &self.selected_instance {
            Some(inst) => {
                let same_scope = match &self.discover_scoped_instance {
                    Some(s) => str_eq(s.as_str(), inst.id.as_str()),
                    None => false,
                };
                !same_scope || !str_eq(self.discover_game_version.as_str(), inst.game_version.as_str())
            },
            None => self.discover_scoped_instance.is_some(),
        }
    }

    /// Drops the search, the results and their installed flags: they
    /// belonged to another instance.
    pub fn reset_discover(&mut self)
        ensures
            final(self).discover_search@.len() == 0,
            final(self).modrinth_results@.len() == 0,
            final(self).result_installed@.len() == 0,
            final(self).discover_hidden_count == 0,
            *final(self) == (AppState {
                discover_search: final(self).discover_search,
                modrinth_results: final(self).modrinth_results,
                result_installed: final(self).result_installed,
                discover_hidden_count: 0,
                ..*old(self)
            }),
    {
        self.discover_search = String::new();
        self.modrinth_results = Vec::new();
        self.result_installed = Vec::new();
        self.discover_hidden_count = 0;
    }
}

/// A Discover tab's label in lower case.
pub open spec fn tab_lower(t: DiscoverTab) -> Seq<char> {
    match t {
        DiscoverTab::Mods => "mods"@,
        DiscoverTab::Modpacks => "modpacks"@,
        DiscoverTab::Shaders => "shaders"@,
        DiscoverTab::ResourcePacks => "resource packs"@,
    }
}

/// A Discover tab's label.
pub open spec fn tab_label(t: DiscoverTab) -> Seq<char> {
    match t {
        DiscoverTab::Mods => "Mods"@,
        DiscoverTab::Modpacks => "Modpacks"@,
        DiscoverTab::Shaders => "Shaders"@,
        DiscoverTab::ResourcePacks => "Resource Packs"@,
    }
}

/// Mods and modpacks need a mod loader.
pub open spec fn needs_loader(t: DiscoverTab) -> bool {
    t == DiscoverTab::Mods || t == DiscoverTab::Modpacks
}

/// The loading message shown while a category or query is fetched.
pub open spec fn loading_message(t: DiscoverTab, query: Seq<char>, gv: Seq<char>) -> Seq<char> {
    if query.len() == 0 {
        "Loading "@ + tab_label(t) + " for MC "@ + gv + " ..."@
    } else {
        "Searching "@ + tab_label(t) + " for '"@ + query + "' (MC "@ + gv + ")..."@
    }
}

impl AppState {
    /// The search a Discover fetch makes for `query`, scoped to the selected
    /// instance: its game version, and for mods its loader. Without an
    /// instance, or for mods and modpacks on a vanilla instance, the results
    /// are cleared, a status message explains why and there is no search.
    pub fn begin_discover_fetch(&mut self, query: &str) -> (search: Option<DiscoverSearch>)
        ensures
            match old(self).selected_instance {
                None => search is None && final(self).modrinth_results@.len() == 0
                    && final(self).result_installed@.len() == 0 && final(self).discover_hidden_count == 0
                    && final(self).discover_game_version@.len() == 0 && (final(self).status_message matches Some(t)
                    && t@ == "No instances yet \u{2014} create one on HOME to browse content"@),
                Some(inst) => if needs_loader(old(self).discover_tab) && inst.loader@ == "vanilla"@ {
                    search is None && final(self).modrinth_results@.len() == 0
                        && final(self).result_installed@.len() == 0 && final(self).discover_hidden_count == 0
                        && final(self).discover_game_version@ == inst.game_version@ && (
                    final(self).status_message matches Some(t) && t@ == tab_label(old(self).discover_tab)
                        + " require a Fabric/Quilt instance \u{2014} '"@ + inst.name@ + "' is vanilla"@)
                } else {
                    &&& search matches Some(q) && q.content_type@ == tab_content_type(old(self).discover_tab)
                        && q.query@ == query@ && q.game_version@ == inst.game_version@ && q.loader@ == (
                    if old(self).discover_tab == DiscoverTab::Mods {
                        inst.loader@
                    } else {
                        ""@
                    })
                    &&& final(self).discover_game_version@ == inst.game_version@
                    &&& (final(self).discover_scoped_instance matches Some(d) && d@ == inst.id@)
                    &&& final(self).loading
                    &&& (final(self).loading_message matches Some(t) && t@ == loading_message(
                        old(self).discover_tab,
                        query@,
                        inst.game_version@,
                    ))
                    &&& final(self).modrinth_results == old(self).modrinth_results
                },
            },
            final(self).discover_tab == old(self).discover_tab,
            final(self).selected_instance == old(self).selected_instance,
    {
        proof {
            reveal_strlit("vanilla");
        }
        let tab = self.discover_tab;
        let (gv, loader, name, id) = match &self.selected_instance {
            None => {
                self.clear_results();
                self.discover_game_version = String::new();
                proof {
                    reveal_strlit("No instances yet \u{2014} create one on HOME to browse content");
                }
                self.set_status(string_from_chars(&chars_of("No instances yet \u{2014} create one on HOME to browse content")));
                return None;
            },
            Some(inst) => (inst.game_version.clone(), inst.loader.clone(), inst.name.clone(), inst.id.clone()),
        };
        let needs = match tab {
            DiscoverTab::Mods | DiscoverTab::Modpacks => true,
            _ => false,
        };
        if needs && str_eq(loader.as_str(), "vanilla") {
            self.clear_results();
            self.discover_game_version = gv;
            let mut msg = chars_of(tab.label());
            extend_str(&mut msg, " require a Fabric/Quilt instance \u{2014} '");
            extend_str(&mut msg, name.as_str());
            extend_str(&mut msg, "' is vanilla");
            self.set_status(string_from_chars(&msg));
            proof {
                reveal_strlit(" require a Fabric/Quilt instance \u{2014} '");
                reveal_strlit("' is vanilla");
            }
            return None;
        }
        let loader_filter: Option<&str> = match tab {
            DiscoverTab::Mods => Some(loader.as_str()),
            _ => None,
        };
        let search = BackendBridge::fetch_discover(tab, query, gv.as_str(), loader_filter);
        let mut msg: Vec<char>;
        if query.unicode_len() == 0 {
            msg = chars_of("Loading ");
            extend_str(&mut msg, tab.label());
            extend_str(&mut msg, " for MC ");
            extend_str(&mut msg, gv.as_str());
            extend_str(&mut msg, " ...");
            proof {
                reveal_strlit("Loading ");
                reveal_strlit(" for MC ");
                reveal_strlit(" ...");
            }
        } else {
            msg = chars_of("Searching ");
            extend_str(&mut msg, tab.label());
            extend_str(&mut msg, " for '");
            extend_str(&mut msg, query);
            extend_str(&mut msg, "' (MC ");
            extend_str(&mut msg, gv.as_str());
            extend_str(&mut msg, ")...");
            proof {
                reveal_strlit("Searching ");
                reveal_strlit(" for '");
                reveal_strlit("' (MC ");
                reveal_strlit(")...");
            }
        }
        self.discover_game_version = gv;
        self.discover_scoped_instance = Some(id);
        self.set_loading(true, Some(string_from_chars(&msg)));
        Some(search)
    }

    fn clear_results(&mut self)
        ensures
            final(self).modrinth_results@.len() == 0,
            final(self).result_installed@.len() == 0,
            final(self).discover_hidden_count == 0,
            *final(self) == (AppState {
                modrinth_results: final(self).modrinth_results,
                result_installed: final(self).result_installed,
                discover_hidden_count: 0,
                ..*old(self)
            }),
    {
        self.modrinth_results = Vec::new();
        self.result_installed = Vec::new();
        self.discover_hidden_count = 0;
    }
}

/// The suffix naming the query in Discover messages.
pub open spec fn query_suffix(query: Seq<char>) -> Seq<char> {
    if query.len() == 0 {
        Seq::empty()
    } else {
        " for '"@ + query + "'"@
    }
}

/// The log line after a Discover fetch.
pub open spec fn fetched_message(t: DiscoverTab, shown: nat, hidden: nat, query: Seq<char>) -> Seq<char> {
    tab_label(t) + ": "@ + decimal(shown) + " shown, "@ + decimal(hidden) + " already installed (hidden)"@
        + query_suffix(query)
}

/// The status after a Discover fetch that found nothing new.
pub open spec fn nothing_new_message(t: DiscoverTab, hidden: nat, query: Seq<char>) -> Seq<char> {
    "No new "@ + tab_lower(t) + " to show"@ + (if hidden > 0 {
        " \u{2014} "@ + decimal(hidden) + " already installed"@
    } else {
        Seq::empty()
    }) + query_suffix(query)
}

fn tab_lower_str(t: DiscoverTab) -> (r: &'static str)
    ensures
        r@ == tab_lower(t),
{
    match t {
        DiscoverTab::Mods => "mods",
        DiscoverTab::Modpacks => "modpacks",
        DiscoverTab::Shaders => "shaders",
        DiscoverTab::ResourcePacks => "resource packs",
    }
}

fn extend_query_suffix(v: &mut Vec<char>, query: &str)
    ensures
        final(v)@ == old(v)@ + query_suffix(query@),
{
    if query.unicode_len() > 0 {
        extend_str(v, " for '");
        extend_str(v, query);
        extend_str(v, "'");
        proof {
            reveal_strlit(" for '");
            reveal_strlit("'");
        }
    } else {
        assert(old(v)@ + query_suffix(query@) =~= old(v)@);
    }
}

impl AppState {
    /// Takes in what a Discover fetch for `query` brought: the results are
    /// shown, flagged against the selected instance's install records
    /// (`recorded`) and files, and counted in the log; when there are none,
    /// the status says so. A failed fetch is reported as an error.
    pub fn finish_discover_fetch(&mut self, query: &str, results: Result<Vec<Project>, String>, recorded: &[String])
        ensures
            !final(self).loading,
            final(self).loading_message is None,
            final(self).discover_tab == old(self).discover_tab,
            match results {
                Ok(list) => {
                    &&& final(self).modrinth_results@ == list@
                    &&& final(self).result_installed@.len() == list@.len()
                    &&& forall|i: int|
                        0 <= i < list@.len() ==> (#[trigger] final(self).result_installed@[i]) == installed_flag(
                            list@[i],
                            recorded@,
                            old(self).installed_content@,
                        )
                    &&& final(self).discover_hidden_count == hidden_count(
                        final(self).result_installed@,
                        old(self).show_installed_discover,
                    )
                    &&& final(self).logs@.last().message@ == fetched_message(
                        old(self).discover_tab,
                        list@.len(),
                        final(self).discover_hidden_count as nat,
                        query@,
                    )
                    &&& list@.len() == 0 ==> (final(self).status_message matches Some(t) && t@ == nothing_new_message(
                        old(self).discover_tab,
                        final(self).discover_hidden_count as nat,
                        query@,
                    ))
                    &&& list@.len() > 0 ==> final(self).status_message == old(self).status_message
                },
                Err(e) => final(self).error_message matches Some(m) && m@ == "Modrinth fetch failed: "@ + e@,
            },
    {
        self.set_loading(false, None);
        match results {
            Ok(list) => {
                self.modrinth_results = list;
                self.classify_installed_results(recorded);
                let tab = self.discover_tab;
                let shown = self.modrinth_results.len();
                let hidden = self.discover_hidden_count;
                let mut line = chars_of(tab.label());
                extend_str(&mut line, ": ");
                extend_chars(&mut line, &decimal_chars(shown as u64));
                extend_str(&mut line, " shown, ");
                extend_chars(&mut line, &decimal_chars(hidden as u64));
                extend_str(&mut line, " already installed (hidden)");
                extend_query_suffix(&mut line, query);
                proof {
                    reveal_strlit(": ");
                    reveal_strlit(" shown, ");
                    reveal_strlit(" already installed (hidden)");
                }
                let text = string_from_chars(&line);
                self.log(LogLevel::Info, "BACKEND", text.as_str());
                if shown == 0 {
                    let mut msg = chars_of("No new ");
                    extend_str(&mut msg, tab_lower_str(tab));
                    extend_str(&mut msg, " to show");
                    if hidden > 0 {
                        extend_str(&mut msg, " \u{2014} ");
                        extend_chars(&mut msg, &decimal_chars(hidden as u64));
                        extend_str(&mut msg, " already installed");
                        proof {
                            reveal_strlit(" \u{2014} ");
                            reveal_strlit(" already installed");
                        }
                    }
                    extend_query_suffix(&mut msg, query);
                    proof {
                        reveal_strlit("No new ");
                        reveal_strlit(" to show");
                    }
                    self.set_status(string_from_chars(&msg));
                }
            },
            Err(e) => {
                let mut msg = chars_of("Modrinth fetch failed: ");
                extend_str(&mut msg, e.as_str());
                proof {
                    reveal_strlit("Modrinth fetch failed: ");
                }
                self.set_error(string_from_chars(&msg));
            },
        }
    }
}

/// Up/down in Discover never leaves the pane that owns navigation: the id
/// it focuses is one of that pane's rows.
pub proof fn law_discover_step_stays_in_pane(s0: AppState, focused: Option<Seq<char>>, delta: int)
    requires
        pane_ids(s0).len() > 0,
    ensures
        0 <= group_target(pane_ids(s0).len() as int, position_of(pane_ids(s0), focused), delta) < pane_ids(s0).len(),
{
    let n = pane_ids(s0).len() as int;
    let p = position_of(pane_ids(s0), focused);
    match focused {
        Some(x) => lemma_first_index_bound(pane_ids(s0), x),
        None => {},
    }
    match p {
        Some(i) => {
            crate::argus::navigation::lemma_wrap(i + delta, n);
        },
        None => {},
    }
}

proof fn lemma_first_index_bound(ids: Seq<Seq<char>>, x: Seq<char>)
    ensures
        first_index(ids, x) matches Some(k) ==> 0 <= k < ids.len(),
    decreases ids.len(),
{
    if ids.len() > 0 && ids[0] != x {
        lemma_first_index_bound(ids.drop_first(), x);
    }
}

/// The status after revealing (`showing`) or hiding the installed results
/// of Discover, `n` of them being flagged.
pub open spec fn reveal_status(showing: bool, n: nat) -> Seq<char> {
    if showing {
        "Showing installed projects too ("@ + decimal(n) + " marked ✓)"@
    } else {
        "Installed projects hidden again ("@ + decimal(n) + ")"@
    }
}

impl AppState {
    /// Shows or hides again the Discover results that are installed, and
    /// says so with the number of flagged results.
    pub fn toggle_installed_reveal(&mut self)
        ensures
            final(self).status_message matches Some(m)
                && m@ == reveal_status(!old(self).show_installed_discover, old(self).discover_hidden_count as nat),
            *final(self) == (AppState {
                show_installed_discover: !old(self).show_installed_discover,
                status_message: final(self).status_message,
                ..*old(self)
            }),
    {
        self.show_installed_discover = !self.show_installed_discover;
        let digits = decimal_chars(self.discover_hidden_count as u64);
        let mut t = if self.show_installed_discover {
            chars_of("Showing installed projects too (")
        } else {
            chars_of("Installed projects hidden again (")
        };
        extend_chars(&mut t, &digits);
        if self.show_installed_discover {
            extend_str(&mut t, " marked ✓)");
        } else {
            extend_str(&mut t, ")");
        }
        self.set_status(string_from_chars(&t));
    }
}

} // verus!
