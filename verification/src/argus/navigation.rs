//! Moving around the terminal UI: switching sections, stepping the focus
//! inside a section's content, scrolling the log, filtering the version
//! picker and the settings editors' selection.

use vstd::prelude::*;
use crate::argus::settings_editor::selection_message;
use crate::argus::state::{all_sections, AppState, Section, SettingsEditMode, MEMORY_PRESETS};
use crate::minecraft::optimization::OptimizationProfile;
use crate::text::{chars_of, contains, contains_chars, lowercase, to_lowercase};

verus! {

/// Lines scrolled per page key or wheel notch in the log view.
pub const LOG_SCROLL_STEP: usize = 5;

/// The number of navbar targets, registered before any section content.
pub fn nav_count() -> (r: usize)
    ensures
        r == all_sections().len(),
        r == 10,
{
    Section::all().len()
}

/// Where Home moves the focus among `total` targets: the first content
/// target, or the last target when there is no content.
pub fn home_focus_index(total: usize) -> (r: usize)
    ensures
        r == if total == 0 {
            0
        } else if total - 1 < 10 {
            (total - 1) as usize
        } else {
            10
        },
{
    let last = if total == 0 {
        0
    } else {
        total - 1
    };
    let n = nav_count();
    if last < n {
        last
    } else {
        n
    }
}

/// `s` shortened to at most `max` characters, the last of them an ellipsis
/// when anything was cut.
pub open spec fn truncated(s: Seq<char>, max: nat) -> Seq<char> {
    if s.len() <= max {
        s
    } else if max == 0 {
        seq!['\u{2026}']
    } else {
        s.take(max - 1).push('\u{2026}')
    }
}

/// Shortens a label to `max` visible characters with an ellipsis.
pub fn truncate_label(s: &str, max: usize) -> (r: String)
    ensures
        r@ == truncated(s@, max as nat),
{
    let n = s.unicode_len();
    if n <= max {
        return s.to_owned();
    }
    let keep: usize = if max == 0 {
        0
    } else {
        max - 1
    };
    let cs = chars_of(s);
    let mut head = crate::text::sub_chars(&cs, 0, keep);
    head.push('\u{2026}');
    proof {
        assert(cs@.subrange(0, keep as int) =~= s@.take(keep as int));
        if max == 0 {
            assert(head@ =~= seq!['\u{2026}']);
        }
    }
    crate::text::string_from_chars(&head)
}

/// Whether a version matches the picker's query: case-insensitive
/// substring, and every version matches an empty query.
pub open spec fn version_matches(v: Seq<char>, needle: Seq<char>) -> bool {
    lowercase(needle).len() == 0 || contains(lowercase(v), lowercase(needle))
}

/// The versions that match the query, in their order.
pub open spec fn filtered_versions(vs: Seq<Seq<char>>, needle: Seq<char>) -> Seq<Seq<char>>
    decreases vs.len(),
{
    if vs.len() == 0 {
        Seq::empty()
    } else {
        let p = filtered_versions(vs.drop_last(), needle);
        if version_matches(vs.last(), needle) {
            p.push(vs.last())
        } else {
            p
        }
    }
}

/// The views of a list of strings.
pub open spec fn string_views(v: Seq<String>) -> Seq<Seq<char>> {
    v.map_values(|s: String| s@)
}

/// The versions whose lower-cased name contains the lower-cased query
/// (all of them for an empty query).
pub fn filter_versions(versions: &[String], needle: &str) -> (r: Vec<String>)
    ensures
        string_views(r@) == filtered_versions(string_views(versions@), needle@),
{
    let n = to_lowercase(needle);
    let nc = chars_of(n.as_str());
    let mut out: Vec<String> = Vec::new();
    let mut i: usize = 0;
    while i < versions.len()
        invariant
            i <= versions@.len(),
            nc@ == lowercase(needle@),
            string_views(out@) == filtered_versions(
                string_views(versions@.subrange(0, i as int)),
                needle@,
            ),
        decreases versions@.len() - i,
    {
        let v = &versions[i];
        let lv = to_lowercase(v.as_str());
        let keep = nc.len() == 0 || contains_chars(&chars_of(lv.as_str()), &nc);
        proof {
            assert(string_views(versions@.subrange(0, i + 1)).drop_last() =~= string_views(
                versions@.subrange(0, i as int),
            ));
            assert(string_views(versions@.subrange(0, i + 1)).last() == v@);
        }
        if keep {
            let ghost before = out@;
            out.push(v.clone());
            proof {
                assert(string_views(out@) =~= string_views(before).push(v@));
            }
        }
        i = i + 1;
    }
    proof {
        assert(versions@.subrange(0, versions@.len() as int) =~= versions@);
    }
    out
}

impl AppState {
    /// The game versions the picker shows for its current query.
    pub fn filtered_game_versions(&self) -> (r: Vec<String>)
        ensures
            string_views(r@) == filtered_versions(
                string_views(self.versions@),
                self.version_filter@,
            ),
    {
        filter_versions(self.versions.as_slice(), self.version_filter.as_str())
    }
}

/// The position of a section in menu order.
pub open spec fn section_index(s: Section) -> int {
    match s {
        Section::Home => 0,
        Section::Discover => 1,
        Section::Instances => 2,
        Section::Mods => 3,
        Section::Worlds => 4,
        Section::Servers => 5,
        Section::Logs => 6,
        Section::Crashes => 7,
        Section::Screenshots => 8,
        Section::Settings => 9,
    }
}

fn index_of_section(s: Section) -> (r: usize)
    ensures
        r == section_index(s),
        all_sections()[r as int] == s,
{
    match s {
        Section::Home => 0,
        Section::Discover => 1,
        Section::Instances => 2,
        Section::Mods => 3,
        Section::Worlds => 4,
        Section::Servers => 5,
        Section::Logs => 6,
        Section::Crashes => 7,
        Section::Screenshots => 8,
        Section::Settings => 9,
    }
}

/// The section before `s` in menu order, wrapping around.
pub open spec fn section_before(s: Section) -> Section {
    all_sections()[if section_index(s) == 0 {
        9
    } else {
        section_index(s) - 1
    }]
}

/// The section after `s` in menu order, wrapping around.
pub open spec fn section_after(s: Section) -> Section {
    all_sections()[(section_index(s) + 1) % 10]
}

/// The section reached with the left arrow.
pub fn previous_section(s: Section) -> (r: Section)
    ensures
        r == section_before(s),
{
    let all = Section::all();
    let i = index_of_section(s);
    let j = if i == 0 {
        all.len() - 1
    } else {
        i - 1
    };
    all[j]
}

/// The section reached with the right arrow.
pub fn next_section(s: Section) -> (r: Section)
    ensures
        r == section_after(s),
{
    let all = Section::all();
    let i = index_of_section(s);
    all[(i + 1) % all.len()]
}

/// The section a shortcut letter leads to.
pub open spec fn shortcut_section(c: char) -> Option<Section> {
    if c == 'h' {
        Some(Section::Home)
    } else if c == 'd' {
        Some(Section::Discover)
    } else if c == 'i' {
        Some(Section::Instances)
    } else if c == 'm' {
        Some(Section::Mods)
    } else if c == 's' {
        Some(Section::Settings)
    } else if c == 'l' {
        Some(Section::Logs)
    } else if c == 'w' {
        Some(Section::Worlds)
    } else if c == 'v' {
        Some(Section::Servers)
    } else if c == 'p' {
        Some(Section::Screenshots)
    } else if c == 'c' {
        Some(Section::Crashes)
    } else {
        None
    }
}

/// The section a shortcut letter leads to, if any.
pub fn section_shortcut(c: char) -> (r: Option<Section>)
    ensures
        r == shortcut_section(c),
{
    match c {
        'h' => Some(Section::Home),
        'd' => Some(Section::Discover),
        'i' => Some(Section::Instances),
        'm' => Some(Section::Mods),
        's' => Some(Section::Settings),
        'l' => Some(Section::Logs),
        'w' => Some(Section::Worlds),
        'v' => Some(Section::Servers),
        'p' => Some(Section::Screenshots),
        'c' => Some(Section::Crashes),
        _ => None,
    }
}

/// `x` modulo `m` with a result in `0..m`.
pub open spec fn wrap(x: int, m: int) -> int {
    x % m
}

/// Where a step of `delta` from the focus index `current` lands among the
/// content targets that follow `nav` navbar targets out of `total`: the
/// content wraps around, and from the navbar a step down enters the first
/// item and a step up the last.
pub open spec fn content_target(total: int, nav: int, current: int, delta: int) -> int {
    let count = total - nav;
    let cur = current - nav;
    let from = if cur < 0 {
        if delta > 0 {
            -1
        } else {
            0
        }
    } else {
        cur
    };
    nav + wrap(from + delta, count)
}

pub proof fn lemma_wrap(x: int, m: int)
    requires
        m > 0,
    ensures
        0 <= wrap(x, m) < m,
        x >= 0 ==> wrap(x, m) == x % m,
        x < 0 ==> wrap(x, m) == m - 1 - ((-x - 1) % m),
{
    if x < 0 {
        let y = -x - 1;
        let q = y / m;
        let r = y % m;
        assert(y == q * m + r && 0 <= r < m) by (nonlinear_arith)
            requires
                y >= 0,
                m > 0,
                q == y / m,
                r == y % m,
        ;
        assert(x == (-(q + 1)) * m + (m - 1 - r)) by (nonlinear_arith)
            requires
                x == -y - 1,
                y == q * m + r,
        ;
        vstd::arithmetic::div_mod::lemma_fundamental_div_mod_converse(x, m, -(q + 1), m - 1 - r);
    }
}

fn wrap_exec(x: isize, m: usize) -> (r: usize)
    requires
        0 < m <= isize::MAX,
        x > isize::MIN,
    ensures
        r == wrap(x as int, m as int),
        r < m,
{
    proof {
        lemma_wrap(x as int, m as int);
    }
    if x >= 0 {
        (x as usize) % m
    } else {
        let y: usize = (-(x + 1)) as usize;
        m - 1 - (y % m)
    }
}

/// The focus index after an up/down step inside a section's content, or
/// `None` when the section has no content targets.
pub fn content_step(total: usize, current: usize, delta: isize) -> (r: Option<usize>)
    requires
        total <= isize::MAX,
        current <= isize::MAX,
        delta > isize::MIN,
        delta + total <= isize::MAX,
        delta + current <= isize::MAX,
    ensures
        total <= 10 ==> r is None,
        total > 10 ==> (r matches Some(t) && t == content_target(
            total as int,
            10,
            current as int,
            delta as int,
        )),
{
    let n = nav_count();
    if total <= n {
        return None;
    }
    let count: usize = total - n;
    let from: isize = if current < n {
        if delta > 0 {
            -1
        } else {
            0
        }
    } else {
        (current - n) as isize
    };
    let next = wrap_exec(from + delta, count);
    Some(n + next)
}


/// `x` held within `lo..=hi`.
pub open spec fn clamp(x: int, lo: int, hi: int) -> int {
    if x < lo {
        lo
    } else if x > hi {
        hi
    } else {
        x
    }
}

/// The focus index after a page jump of `delta`: held within the content
/// targets, never on the navbar; `None` when there is no content.
pub fn jump_focus(total: usize, current: usize, delta: isize) -> (r: Option<usize>)
    requires
        total <= isize::MAX,
        current <= isize::MAX,
        isize::MIN <= current + delta <= isize::MAX,
    ensures
        total <= 10 ==> r is None,
        total > 10 ==> (r matches Some(t) && t == clamp(current + delta, 10, total - 1)),
{
    let n = nav_count();
    if total <= n {
        return None;
    }
    let cur = current as isize;
    let target = cur + delta;
    let lo = n as isize;
    let hi = total as isize - 1;
    let t = if target < lo {
        lo
    } else if target > hi {
        hi
    } else {
        target
    };
    Some(t as usize)
}

/// The log scroll position after scrolling by `delta` lines (positive is
/// back in time): between 0 and two lines short of the log's length.
pub fn scroll_logs(len: usize, scroll: usize, delta: isize) -> (r: usize)
    requires
        len <= isize::MAX,
        scroll <= isize::MAX,
        isize::MIN <= scroll + delta <= isize::MAX,
    ensures
        r == clamp(scroll + delta, 0, if len >= 2 { len - 2 } else { 0 }),
{
    let max: isize = if len >= 2 {
        (len - 2) as isize
    } else {
        0
    };
    let next = scroll as isize + delta;
    if next < 0 {
        0
    } else if next > max {
        max as usize
    } else {
        next as usize
    }
}

/// Where a step of `delta` lands in an ordered group of `count` targets,
/// from position `cur` in it (wrapping around) or from outside it (the
/// first target going forward, the last going back).
pub open spec fn group_target(count: int, cur: Option<int>, delta: int) -> int {
    match cur {
        Some(i) => wrap(i + delta, count),
        None => if delta >= 0 {
            0
        } else {
            count - 1
        },
    }
}

/// The position in a group of `count` targets after a step of `delta`;
/// `None` for an empty group.
pub fn step_within(count: usize, cur: Option<usize>, delta: isize) -> (r: Option<usize>)
    requires
        count <= isize::MAX,
        delta > isize::MIN,
        cur matches Some(i) ==> i + delta <= isize::MAX && i <= isize::MAX,
    ensures
        count == 0 ==> r is None,
        count > 0 ==> (r matches Some(t) && t < count && t == group_target(
            count as int,
            match cur {
                Some(i) => Some(i as int),
                None => None,
            },
            delta as int,
        )),
{
    if count == 0 {
        return None;
    }
    match cur {
        Some(i) => Some(wrap_exec(i as isize + delta, count)),
        None => {
            if delta >= 0 {
                Some(0)
            } else {
                Some(count - 1)
            }
        },
    }
}

/// The selection after the up key in a settings editor: one row up,
/// stopping at the first; editors without a list keep it.
pub open spec fn edit_index_up(mode: SettingsEditMode, idx: int) -> int {
    match mode {
        SettingsEditMode::MemorySelector | SettingsEditMode::JavaSelector
        | SettingsEditMode::ThemeSelector | SettingsEditMode::OptimizationSelector => if idx > 0 {
            idx - 1
        } else {
            idx
        },
        _ => idx,
    }
}

/// The number of rows of a settings editor's list: the memory presets,
/// "Auto-detect" and each Java installation, the themes, the profiles.
pub open spec fn edit_rows(mode: SettingsEditMode, java_count: int, theme_count: int) -> int {
    match mode {
        SettingsEditMode::MemorySelector => 6,
        SettingsEditMode::JavaSelector => java_count + 1,
        SettingsEditMode::ThemeSelector => theme_count,
        SettingsEditMode::OptimizationSelector => 4,
        _ => 0,
    }
}

/// The selection after the down key in a settings editor: one row down,
/// stopping at the last.
pub open spec fn edit_index_down(
    mode: SettingsEditMode,
    idx: int,
    java_count: int,
    theme_count: int,
) -> int {
    let rows = edit_rows(mode, java_count, theme_count);
    if rows > 0 && idx < rows - 1 {
        idx + 1
    } else {
        idx
    }
}

fn edit_up_exec(mode: SettingsEditMode, idx: usize) -> (r: usize)
    ensures
        r == edit_index_up(mode, idx as int),
{
    match mode {
        SettingsEditMode::MemorySelector | SettingsEditMode::JavaSelector
        | SettingsEditMode::ThemeSelector | SettingsEditMode::OptimizationSelector => if idx > 0 {
            idx - 1
        } else {
            idx
        },
        _ => idx,
    }
}

fn edit_down_exec(mode: SettingsEditMode, idx: usize, java_count: usize, theme_count: usize) -> (r: usize)
    requires
        java_count < usize::MAX,
    ensures
        r == edit_index_down(mode, idx as int, java_count as int, theme_count as int),
{
    let rows: usize = match mode {
        SettingsEditMode::MemorySelector => MEMORY_PRESETS.len(),
        SettingsEditMode::JavaSelector => java_count + 1,
        SettingsEditMode::ThemeSelector => theme_count,
        SettingsEditMode::OptimizationSelector => OptimizationProfile::all().len(),
        _ => 0,
    };
    if rows > 0 && idx < rows - 1 {
        idx + 1
    } else {
        idx
    }
}

/// What applying a settings editor's selection asks to be saved.
pub enum SettingsChoice {
    /// Default memory, in MiB.
    Memory(u32),
    /// Find Java automatically.
    JavaAuto,
    /// Use this Java executable.
    JavaPath(String),
    /// Use this theme.
    Theme(String),
    /// Only show which languages there are.
    Language,
    /// Use this optimization profile.
    Optimization(OptimizationProfile),
    /// Open the custom JVM arguments editor instead.
    CustomEditor,
    /// Nothing to save.
    Nothing,
}

/// The selection is within the open editor's list.
pub open spec fn edit_selection_valid(st: AppState) -> bool {
    match st.settings_edit_mode {
        SettingsEditMode::MemorySelector => st.settings_edit_index < 6,
        SettingsEditMode::ThemeSelector => st.settings_edit_index < st.theme_options@.len(),
        SettingsEditMode::OptimizationSelector => st.settings_edit_index < 4,
        _ => true,
    }
}

impl AppState {
    /// The up key in a settings editor: one row up, then the selected row
    /// is logged.
    pub fn settings_edit_up(&mut self)
        requires
            edit_selection_valid(*old(self)),
        ensures
            final(self).settings_edit_index == edit_index_up(
                old(self).settings_edit_mode,
                old(self).settings_edit_index as int,
            ),
            final(self).settings_edit_mode == old(self).settings_edit_mode,
            match selection_message(AppState { settings_edit_index: final(self).settings_edit_index, ..*old(self) }) {
                Some(m) => final(self).logs@.last().message@ == m,
                None => final(self).logs == old(self).logs,
            },
    {
        let next = edit_up_exec(self.settings_edit_mode, self.settings_edit_index);
        self.move_edit_index(next);
        self.log_selection();
    }

    fn move_edit_index(&mut self, to: usize)
        ensures
            *final(self) == (AppState { settings_edit_index: to, ..*old(self) }),
    {
        self.settings_edit_index = to;
    }

    /// The down key in a settings editor: one row down, then the selected
    /// row is logged.
    pub fn settings_edit_down(&mut self)
        requires
            edit_selection_valid(*old(self)),
            old(self).java_installations@.len() < usize::MAX,
        ensures
            final(self).settings_edit_index == edit_index_down(
                old(self).settings_edit_mode,
                old(self).settings_edit_index as int,
                old(self).java_installations@.len() as int,
                old(self).theme_options@.len() as int,
            ),
            final(self).settings_edit_mode == old(self).settings_edit_mode,
            match selection_message(AppState { settings_edit_index: final(self).settings_edit_index, ..*old(self) }) {
                Some(m) => final(self).logs@.last().message@ == m,
                None => final(self).logs == old(self).logs,
            },
    {
        let next = edit_down_exec(
            self.settings_edit_mode,
            self.settings_edit_index,
            self.java_installations.len(),
            self.theme_options.len(),
        );
        self.move_edit_index(next);
        self.log_selection();
    }

    /// Leaves the settings editor without saving.
    pub fn cancel_settings_edit(&mut self)
        ensures
            final(self).settings_edit_mode == SettingsEditMode::Inactive,
            final(self).settings_edit_index == 0,
            final(self).logs@.last().message@ == "Settings edit cancelled"@,
    {
        self.settings_edit_mode = SettingsEditMode::Inactive;
        self.settings_edit_index = 0;
        self.log(crate::argus::state::LogLevel::Info, "ARGUS", "Settings edit cancelled");
    }

    /// ENTER in a settings editor: closes it and says what to save. The
    /// custom profile opens its argument editor instead; Java rows past the
    /// installations save nothing.
    pub fn apply_settings_edit(&mut self) -> (c: SettingsChoice)
        requires
            edit_selection_valid(*old(self)),
        ensures
            match old(self).settings_edit_mode {
                SettingsEditMode::MemorySelector => c == SettingsChoice::Memory(
                    MEMORY_PRESETS[old(self).settings_edit_index as int],
                ) && final(self).settings_edit_mode == SettingsEditMode::Inactive,
                SettingsEditMode::JavaSelector => {
                    let i = old(self).settings_edit_index as int;
                    let n = old(self).java_installations@.len();
                    &&& i == 0 ==> c == SettingsChoice::JavaAuto
                    &&& 0 < i <= n ==> (c matches SettingsChoice::JavaPath(p) && p@ == old(
                        self,
                    ).java_installations@[i - 1].path@)
                    &&& i > n ==> c == SettingsChoice::Nothing
                    &&& final(self).settings_edit_mode == SettingsEditMode::Inactive
                },
                SettingsEditMode::ThemeSelector => (c matches SettingsChoice::Theme(t) && t@ == old(
                    self,
                ).theme_options@[old(self).settings_edit_index as int]@)
                    && final(self).settings_edit_mode == SettingsEditMode::Inactive,
                SettingsEditMode::LanguageInfo => c == SettingsChoice::Language
                    && final(self).settings_edit_mode == SettingsEditMode::Inactive,
                SettingsEditMode::OptimizationSelector => {
                    let i = old(self).settings_edit_index;
                    &&& i == 3 ==> c == SettingsChoice::CustomEditor
                        && final(self).settings_edit_mode == SettingsEditMode::CustomJvmEditor
                    &&& i == 0 ==> c == SettingsChoice::Optimization(OptimizationProfile::Low)
                    &&& i == 1 ==> c == SettingsChoice::Optimization(OptimizationProfile::Mid)
                    &&& i == 2 ==> c == SettingsChoice::Optimization(OptimizationProfile::High)
                    &&& i != 3 ==> final(self).settings_edit_mode == SettingsEditMode::Inactive
                },
                _ => c == SettingsChoice::Nothing && final(self).settings_edit_mode == old(
                    self,
                ).settings_edit_mode,
            },
            final(self).settings_edit_index == 0,
    {
        let mode = self.settings_edit_mode;
        let idx = self.settings_edit_index;
        let choice = match mode {
            SettingsEditMode::MemorySelector => {
                self.settings_edit_mode = SettingsEditMode::Inactive;
                SettingsChoice::Memory(MEMORY_PRESETS[idx])
            },
            SettingsEditMode::JavaSelector => {
                self.settings_edit_mode = SettingsEditMode::Inactive;
                if idx == 0 {
                    SettingsChoice::JavaAuto
                } else if idx - 1 < self.java_installations.len() {
                    SettingsChoice::JavaPath(self.java_installations[idx - 1].path.clone())
                } else {
                    SettingsChoice::Nothing
                }
            },
            SettingsEditMode::ThemeSelector => {
                self.settings_edit_mode = SettingsEditMode::Inactive;
                SettingsChoice::Theme(self.theme_options[idx].clone())
            },
            SettingsEditMode::LanguageInfo => {
                self.settings_edit_mode = SettingsEditMode::Inactive;
                SettingsChoice::Language
            },
            SettingsEditMode::OptimizationSelector => {
                let profiles = OptimizationProfile::all();
                let p = profiles[idx];
                if idx == 3 {
                    self.settings_edit_mode = SettingsEditMode::CustomJvmEditor;
                    SettingsChoice::CustomEditor
                } else {
                    self.settings_edit_mode = SettingsEditMode::Inactive;
                    SettingsChoice::Optimization(p)
                }
            },
            _ => SettingsChoice::Nothing,
        };
        self.settings_edit_index = 0;
        choice
    }
}

} // verus!
