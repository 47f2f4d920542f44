//! What a key press or an activated target asks the terminal UI to do.
//! The application performs the returned intent.

use vstd::prelude::*;
use crate::argus::events::{KeyCode, KeyModifiers};
use crate::argus::navigation::shortcut_section;
use crate::argus::state::{AppState, DiscoverPane, Section, SettingsEditMode};
use crate::text::{chars_of, parse_unsigned, parse_usize, starts_with, starts_with_chars};

verus! {

/// What a key press asks for.
pub enum KeyIntent {
    Nothing,
    CloseHelp,
    OpenHelp,
    Quit,
    PreviousSection,
    NextSection,
    ApplySettingsEdit,
    /// Move from the navbar into the current section.
    EnterSection,
    /// Activate a target.
    Activate(Target),
    SettingsEditUp,
    SettingsEditDown,
    /// Step inside the Discover pane that has the focus.
    DiscoverStep(isize),
    /// Step inside the section's content.
    ContentStep(isize),
    /// Scroll the log by this many lines.
    ScrollLogs(isize),
    /// Several Discover steps in one direction.
    DiscoverJump(isize),
    /// Jump the focus by this many targets.
    JumpFocus(isize),
    LogsToTop,
    LogsToBottom,
    FocusFirstContent,
    FocusLast,
    FocusNext,
    FocusPrevious,
    OpenCommandPrompt,
    ActivateSearch,
    /// Switch the Discover category to this index.
    SwitchCategory(usize),
    ToggleInstalledReveal,
    DeleteSelectedInstance,
    RemoveFocusedContent,
    BackupWorld,
    OpenWorldFolder,
    OpenSavesFolder,
    DeleteWorld,
    /// Go to this section.
    GoTo(Section),
    LeaveSearch,
    DiscoverBackToCategories,
    DiscoverBackToTabs,
    CancelSettingsEdit,
    ClearError,
}

/// The target a key activates.
#[derive(Debug, Clone, Copy, PartialEq, Eq, Structural)]
pub enum Target {
    /// The focused target.
    Focused,
    /// `logs_live`, the live log toggle.
    LiveLog,
    /// `home_create`, the create-instance button.
    HomeCreate,
    /// `server_add`, the add-server button.
    ServerAdd,
}

/// What the UI looks like when a key arrives.
pub struct KeyContext {
    pub help_overlay: bool,
    pub editing: bool,
    pub section: Section,
    pub search_mode: bool,
    pub discover_pane: DiscoverPane,
    /// The id of the focused target, if any.
    pub focused: Option<String>,
}

/// Neither Control nor Alt is held.
pub open spec fn plain(m: KeyModifiers) -> bool {
    !m.control && !m.alt
}

/// What a character key asks for in a section.
pub open spec fn char_intent(c: char, m: KeyModifiers, s: Section) -> KeyIntent {
    if (c == 'q' || c == 'Q') && plain(m) {
        KeyIntent::Quit
    } else if (c == 'c' || c == 'C') && m.control {
        KeyIntent::Quit
    } else if c == 'l' && m.control {
        KeyIntent::OpenCommandPrompt
    } else if c == 'L' && m.shift && plain(m) && s == Section::Logs {
        KeyIntent::Activate(Target::LiveLog)
    } else if c == 'c' && plain(m) && s == Section::Home {
        KeyIntent::Activate(Target::HomeCreate)
    } else if (c == '/' || c == 'f') && plain(m) && s == Section::Discover {
        KeyIntent::ActivateSearch
    } else if c == '?' && plain(m) {
        KeyIntent::OpenHelp
    } else if '1' <= c <= '4' && plain(m) && s == Section::Discover {
        KeyIntent::SwitchCategory((c as u32 - 49) as usize)
    } else if (c == 'i' || c == 'I') && plain(m) && s == Section::Discover {
        KeyIntent::ToggleInstalledReveal
    } else if c == 'x' && plain(m) && s == Section::Instances {
        KeyIntent::DeleteSelectedInstance
    } else if c == 'x' && plain(m) && s == Section::Mods {
        KeyIntent::RemoveFocusedContent
    } else if c == 'b' && plain(m) && s == Section::Worlds {
        KeyIntent::BackupWorld
    } else if c == 'o' && plain(m) && s == Section::Worlds {
        KeyIntent::OpenWorldFolder
    } else if (c == 'O' || c == 'R') && m.shift && plain(m) && s == Section::Worlds {
        KeyIntent::OpenSavesFolder
    } else if c == 'd' && plain(m) && s == Section::Worlds {
        KeyIntent::DeleteWorld
    } else if c == 'a' && plain(m) && s == Section::Servers {
        KeyIntent::Activate(Target::ServerAdd)
    } else if plain(m) {
        match shortcut_section(c) {
            Some(t) => KeyIntent::GoTo(t),
            None => KeyIntent::Nothing,
        }
    } else {
        KeyIntent::Nothing
    }
}

/// What a key press asks for.
pub open spec fn key_intent_of(code: KeyCode, m: KeyModifiers, cx: KeyContext) -> KeyIntent {
    if cx.help_overlay {
        if code == KeyCode::Char('?') || code == KeyCode::Esc {
            KeyIntent::CloseHelp
        } else {
            KeyIntent::Nothing
        }
    } else {
        match code {
            KeyCode::Char(c) => char_intent(c, m, cx.section),
            KeyCode::Left => KeyIntent::PreviousSection,
            KeyCode::Right => KeyIntent::NextSection,
            KeyCode::Enter => if cx.editing {
                KeyIntent::ApplySettingsEdit
            } else {
                match cx.focused {
                    Some(id) => if starts_with(id@, "nav_"@) {
                        KeyIntent::EnterSection
                    } else {
                        KeyIntent::Activate(Target::Focused)
                    },
                    None => KeyIntent::Nothing,
                }
            },
            KeyCode::Up => if cx.editing {
                KeyIntent::SettingsEditUp
            } else if cx.section == Section::Discover {
                KeyIntent::DiscoverStep(-1isize)
            } else {
                KeyIntent::ContentStep(-1isize)
            },
            KeyCode::Down => if cx.editing {
                KeyIntent::SettingsEditDown
            } else if cx.section == Section::Discover {
                KeyIntent::DiscoverStep(1isize)
            } else {
                KeyIntent::ContentStep(1isize)
            },
            KeyCode::PageUp => if cx.section == Section::Logs {
                KeyIntent::ScrollLogs(-5isize)
            } else if cx.section == Section::Discover {
                KeyIntent::DiscoverJump(-5isize)
            } else {
                KeyIntent::JumpFocus(-5isize)
            },
            KeyCode::PageDown => if cx.section == Section::Logs {
                KeyIntent::ScrollLogs(5isize)
            } else if cx.section == Section::Discover {
                KeyIntent::DiscoverJump(5isize)
            } else {
                KeyIntent::JumpFocus(5isize)
            },
            KeyCode::Home => if cx.section == Section::Logs {
                KeyIntent::LogsToTop
            } else {
                KeyIntent::FocusFirstContent
            },
            KeyCode::End => if cx.section == Section::Logs {
                KeyIntent::LogsToBottom
            } else {
                KeyIntent::FocusLast
            },
            KeyCode::Tab => KeyIntent::FocusNext,
            KeyCode::BackTab => KeyIntent::FocusPrevious,
            KeyCode::Esc => if cx.search_mode {
                KeyIntent::LeaveSearch
            } else if cx.section == Section::Discover {
                if cx.discover_pane == DiscoverPane::Results {
                    KeyIntent::DiscoverBackToCategories
                } else {
                    KeyIntent::DiscoverBackToTabs
                }
            } else if cx.editing {
                KeyIntent::CancelSettingsEdit
            } else {
                KeyIntent::ClearError
            },
            _ => KeyIntent::Nothing,
        }
    }
}

fn char_key_intent(c: char, m: KeyModifiers, s: Section) -> (r: KeyIntent)
    ensures
        r == char_intent(c, m, s),
{
    let p = !m.control && !m.alt;
    if (c == 'q' || c == 'Q') && p {
        KeyIntent::Quit
    } else if (c == 'c' || c == 'C') && m.control {
        KeyIntent::Quit
    } else if c == 'l' && m.control {
        KeyIntent::OpenCommandPrompt
    } else if c == 'L' && m.shift && p && s == Section::Logs {
        KeyIntent::Activate(Target::LiveLog)
    } else if c == 'c' && p && s == Section::Home {
        KeyIntent::Activate(Target::HomeCreate)
    } else if (c == '/' || c == 'f') && p && s == Section::Discover {
        KeyIntent::ActivateSearch
    } else if c == '?' && p {
        KeyIntent::OpenHelp
    } else if '1' <= c && c <= '4' && p && s == Section::Discover {
        KeyIntent::SwitchCategory((c as u32 - 49) as usize)
    } else if (c == 'i' || c == 'I') && p && s == Section::Discover {
        KeyIntent::ToggleInstalledReveal
    } else if c == 'x' && p && s == Section::Instances {
        KeyIntent::DeleteSelectedInstance
    } else if c == 'x' && p && s == Section::Mods {
        KeyIntent::RemoveFocusedContent
    } else if c == 'b' && p && s == Section::Worlds {
        KeyIntent::BackupWorld
    } else if c == 'o' && p && s == Section::Worlds {
        KeyIntent::OpenWorldFolder
    } else if (c == 'O' || c == 'R') && m.shift && p && s == Section::Worlds {
        KeyIntent::OpenSavesFolder
    } else if c == 'd' && p && s == Section::Worlds {
        KeyIntent::DeleteWorld
    } else if c == 'a' && p && s == Section::Servers {
        KeyIntent::Activate(Target::ServerAdd)
    } else if p {
        match crate::argus::navigation::section_shortcut(c) {
            Some(t) => KeyIntent::GoTo(t),
            None => KeyIntent::Nothing,
        }
    } else {
        KeyIntent::Nothing
    }
}

/// What a key press asks for, given the state of the UI.
pub fn key_intent(code: KeyCode, m: KeyModifiers, cx: &KeyContext) -> (r: KeyIntent)
    ensures
        r == key_intent_of(code, m, *cx),
{
    if cx.help_overlay {
        return if code == KeyCode::Char('?') || code == KeyCode::Esc {
            KeyIntent::CloseHelp
        } else {
            KeyIntent::Nothing
        };
    }
    match code {
        KeyCode::Char(c) => char_key_intent(c, m, cx.section),
        KeyCode::Left => KeyIntent::PreviousSection,
        KeyCode::Right => KeyIntent::NextSection,
        KeyCode::Enter => {
            if cx.editing {
                KeyIntent::ApplySettingsEdit
            } else {
                match &cx.focused {
                    Some(id) => {
                        proof {
                            reveal_strlit("nav_");
                        }
                        if starts_with_chars(&chars_of(id.as_str()), &chars_of("nav_")) {
                            KeyIntent::EnterSection
                        } else {
                            KeyIntent::Activate(Target::Focused)
                        }
                    },
                    None => KeyIntent::Nothing,
                }
            }
        },
        KeyCode::Up => {
            if cx.editing {
                KeyIntent::SettingsEditUp
            } else if cx.section == Section::Discover {
                KeyIntent::DiscoverStep(-1)
            } else {
                KeyIntent::ContentStep(-1)
            }
        },
        KeyCode::Down => {
            if cx.editing {
                KeyIntent::SettingsEditDown
            } else if cx.section == Section::Discover {
                KeyIntent::DiscoverStep(1)
            } else {
                KeyIntent::ContentStep(1)
            }
        },
        KeyCode::PageUp => {
            if cx.section == Section::Logs {
                KeyIntent::ScrollLogs(-5)
            } else if cx.section == Section::Discover {
                KeyIntent::DiscoverJump(-5)
            } else {
                KeyIntent::JumpFocus(-5)
            }
        },
        KeyCode::PageDown => {
            if cx.section == Section::Logs {
                KeyIntent::ScrollLogs(5)
            } else if cx.section == Section::Discover {
                KeyIntent::DiscoverJump(5)
            } else {
                KeyIntent::JumpFocus(5)
            }
        },
        KeyCode::Home => {
            if cx.section == Section::Logs {
                KeyIntent::LogsToTop
            } else {
                KeyIntent::FocusFirstContent
            }
        },
        KeyCode::End => {
            if cx.section == Section::Logs {
                KeyIntent::LogsToBottom
            } else {
                KeyIntent::FocusLast
            }
        },
        KeyCode::Tab => KeyIntent::FocusNext,
        KeyCode::BackTab => KeyIntent::FocusPrevious,
        KeyCode::Esc => {
            if cx.search_mode {
                KeyIntent::LeaveSearch
            } else if cx.section == Section::Discover {
                if cx.discover_pane == DiscoverPane::Results {
                    KeyIntent::DiscoverBackToCategories
                } else {
                    KeyIntent::DiscoverBackToTabs
                }
            } else if cx.editing {
                KeyIntent::CancelSettingsEdit
            } else {
                KeyIntent::ClearError
            }
        },
        _ => KeyIntent::Nothing,
    }
}

impl AppState {
    /// The key context of this state, with the id of the focused target.
    pub fn key_context(&self, focused: Option<String>) -> (cx: KeyContext)
        ensures
            cx.help_overlay == self.help_overlay,
            cx.editing == (self.settings_edit_mode != SettingsEditMode::Inactive),
            cx.section == self.current_section,
            cx.search_mode == self.search_mode,
            cx.discover_pane == self.discover_pane,
            cx.focused == focused,
    {
        KeyContext {
            help_overlay: self.help_overlay,
            editing: self.settings_edit_mode.should_use_edit_keys(),
            section: self.current_section,
            search_mode: self.search_mode,
            discover_pane: self.discover_pane,
            focused,
        }
    }
}

/// What activating a focus target asks for.
#[derive(Debug, Clone, Copy, PartialEq, Eq, Structural)]
pub enum Activation {
    Nothing,
    /// Launch the selected instance.
    Launch,
    /// Create an instance.
    Create,
    OpenInstanceFolder,
    ActivateSearch,
    /// Switch the Discover category to this index.
    SwitchCategory(usize),
    /// Choose a version of this Discover result to install.
    OpenVersionChooser(usize),
    StopGame,
    DeleteSelectedInstance,
    /// Tell the user how to create an instance.
    CreateHint,
    /// Select the instance at this index.
    SelectInstance(usize),
    /// Launch the instance at this index, which is already selected.
    LaunchInstance(usize),
    OpenMemorySelector,
    OpenJavaSelector,
    OpenThemeSelector,
    OpenLanguageInfo,
    OpenOptimizationSelector,
    OpenCustomJvmEditor,
    OpenAccountSelector,
    /// Join or ping the server at this index.
    ActivateServer(usize),
    OpenScreenshotsFolder,
    /// Open the screenshot at this index.
    OpenScreenshot(usize),
    CopyCrash,
    DeleteCrash,
    OpenCrashFolder,
    ToggleLiveLog,
}

/// The index that follows `prefix` in `id`, when the rest parses.
pub open spec fn index_after(id: Seq<char>, prefix: Seq<char>) -> Option<usize> {
    match parse_unsigned(id.skip(prefix.len() as int), usize::MAX as int) {
        Some(n) => Some(n as usize),
        None => None,
    }
}

/// The position of the first instance with this id.
pub open spec fn first_index_of(ids: Seq<Seq<char>>, id: Seq<char>) -> Option<int>
    decreases ids.len(),
{
    if ids.len() == 0 {
        None
    } else if ids[0] == id {
        Some(0)
    } else {
        match first_index_of(ids.drop_first(), id) {
            Some(i) => Some(i + 1),
            None => None,
        }
    }
}

proof fn lemma_first_index_range(ids: Seq<Seq<char>>, id: Seq<char>)
    ensures
        first_index_of(ids, id) matches Some(j) ==> 0 <= j < ids.len() && ids[j] == id,
    decreases ids.len(),
{
    if ids.len() > 0 && ids[0] != id {
        lemma_first_index_range(ids.drop_first(), id);
    }
}

/// The ids of the instances of a state.
pub open spec fn instance_ids(st: AppState) -> Seq<Seq<char>> {
    st.instances@.map_values(|i: crate::instances::InstanceConfig| i.id@)
}

/// Whether the instance at `idx` is the selected one.
pub open spec fn is_selected(st: AppState, idx: int) -> bool {
    match st.selected_instance {
        Some(s) => first_index_of(instance_ids(st), s.id@) == Some(idx),
        None => false,
    }
}

/// What activating the target `id` asks for.
pub open spec fn activation_of(st: AppState, id: Seq<char>) -> Activation {
    if id == "home_launch"@ || id == "home_play"@ {
        Activation::Launch
    } else if id == "home_create"@ {
        Activation::Create
    } else if id == "home_open"@ {
        Activation::OpenInstanceFolder
    } else if id == "disc_search"@ {
        Activation::ActivateSearch
    } else if starts_with(id, "disc_cat_"@) {
        match index_after(id, "disc_cat_"@) {
            Some(i) => Activation::SwitchCategory(i),
            None => Activation::Nothing,
        }
    } else if starts_with(id, "project_"@) {
        match index_after(id, "project_"@) {
            Some(i) => Activation::OpenVersionChooser(i),
            None => Activation::Nothing,
        }
    } else if starts_with(id, "instance_"@) {
        let rest = id.skip(9);
        if rest == "stop"@ {
            Activation::StopGame
        } else if rest == "delete"@ {
            Activation::DeleteSelectedInstance
        } else if rest == "empty"@ {
            Activation::CreateHint
        } else if rest == "select"@ {
            Activation::Nothing
        } else {
            match index_after(id, "instance_"@) {
                Some(i) => if is_selected(st, i as int) {
                    Activation::LaunchInstance(i)
                } else {
                    Activation::SelectInstance(i)
                },
                None => Activation::Nothing,
            }
        }
    } else if id == "settings_memory"@ {
        Activation::OpenMemorySelector
    } else if id == "settings_java"@ {
        Activation::OpenJavaSelector
    } else if id == "settings_theme"@ {
        Activation::OpenThemeSelector
    } else if id == "settings_language"@ {
        Activation::OpenLanguageInfo
    } else if id == "settings_optimization"@ {
        Activation::OpenOptimizationSelector
    } else if id == "settings_custom_jvm"@ {
        Activation::OpenCustomJvmEditor
    } else if id == "settings_account"@ {
        Activation::OpenAccountSelector
    } else if starts_with(id, "settings_"@) {
        Activation::Nothing
    } else if starts_with(id, "server_"@) {
        match index_after(id, "server_"@) {
            Some(i) => Activation::ActivateServer(i),
            None => Activation::Nothing,
        }
    } else if id == "screenshots_open"@ {
        Activation::OpenScreenshotsFolder
    } else if starts_with(id, "screenshot_"@) {
        match index_after(id, "screenshot_"@) {
            Some(i) => if i < st.screenshots@.len() {
                Activation::OpenScreenshot(i)
            } else {
                Activation::Nothing
            },
            None => Activation::Nothing,
        }
    } else if id == "crashes_copy"@ {
        Activation::CopyCrash
    } else if id == "crashes_delete"@ {
        Activation::DeleteCrash
    } else if id == "crashes_open"@ {
        Activation::OpenCrashFolder
    } else if id == "logs_live"@ {
        Activation::ToggleLiveLog
    } else {
        Activation::Nothing
    }
}

fn is(cs: &Vec<char>, lit: &str) -> (r: bool)
    ensures
        r == (cs@ == lit@),
{
    crate::text::chars_eq(cs, &chars_of(lit))
}

fn has_prefix(cs: &Vec<char>, lit: &str) -> (r: bool)
    ensures
        r == starts_with(cs@, lit@),
{
    starts_with_chars(cs, &chars_of(lit))
}

fn index_in(cs: &Vec<char>, n: usize) -> (r: Option<usize>)
    requires
        n <= cs@.len(),
    ensures
        match r {
            Some(v) => parse_unsigned(cs@.skip(n as int), usize::MAX as int) == Some(v as nat),
            None => parse_unsigned(cs@.skip(n as int), usize::MAX as int) is None,
        },
{
    let rest = crate::text::sub_chars(cs, n, cs.len());
    assert(rest@ =~= cs@.skip(n as int));
    parse_usize(&rest)
}

impl AppState {
    /// The position of the first instance with this id.
    fn instance_position(&self, id: &str) -> (r: Option<usize>)
        ensures
            match first_index_of(instance_ids(*self), id@) {
                Some(i) => r matches Some(p) && p as int == i,
                None => r is None,
            },
    {
        proof {
            lemma_first_index_range(instance_ids(*self), id@);
        }
        let mut i: usize = 0;
        assert(instance_ids(*self).skip(0) =~= instance_ids(*self));
        while i < self.instances.len()
            invariant
                i <= self.instances@.len(),
                instance_ids(*self).len() == self.instances@.len(),
                forall|k: int| 0 <= k < i ==> instance_ids(*self)[k] != id@,
                first_index_of(instance_ids(*self), id@) == match first_index_of(
                    instance_ids(*self).skip(i as int),
                    id@,
                ) {
                    Some(j) => Some(j + i),
                    None => None::<int>,
                },
            decreases self.instances@.len() - i,
        {
            let ghost ids = instance_ids(*self);
            proof {
                assert(ids.skip(i as int).drop_first() =~= ids.skip(i + 1));
                assert(ids.skip(i as int)[0] == ids[i as int]);
            }
            if crate::text::str_eq(self.instances[i].id.as_str(), id) {
                return Some(i);
            }
            i = i + 1;
        }
        proof {
            assert(instance_ids(*self).skip(i as int).len() == 0);
        }
        None
    }

    /// What activating the target `id` asks for in this state.
    pub fn activation(&self, id: &str) -> (r: Activation)
        ensures
            r == activation_of(*self, id@),
    {
        proof {
            reveal_strlit("home_launch");
            reveal_strlit("home_play");
            reveal_strlit("instance_");
        }
        let cs = chars_of(id);
        if is(&cs, "home_launch") || is(&cs, "home_play") {
            Activation::Launch
        } else if is(&cs, "home_create") {
            Activation::Create
        } else if is(&cs, "home_open") {
            Activation::OpenInstanceFolder
        } else if is(&cs, "disc_search") {
            Activation::ActivateSearch
        } else if has_prefix(&cs, "disc_cat_") {
            proof {
                reveal_strlit("disc_cat_");
            }
            match index_in(&cs, 9) {
                Some(i) => Activation::SwitchCategory(i),
                None => Activation::Nothing,
            }
        } else if has_prefix(&cs, "project_") {
            proof {
                reveal_strlit("project_");
            }
            match index_in(&cs, 8) {
                Some(i) => Activation::OpenVersionChooser(i),
                None => Activation::Nothing,
            }
        } else if has_prefix(&cs, "instance_") {
            let rest = crate::text::sub_chars(&cs, 9, cs.len());
            assert(rest@ =~= id@.skip(9));
            if is(&rest, "stop") {
                Activation::StopGame
            } else if is(&rest, "delete") {
                Activation::DeleteSelectedInstance
            } else if is(&rest, "empty") {
                Activation::CreateHint
            } else if is(&rest, "select") {
                Activation::Nothing
            } else {
                match parse_usize(&rest) {
                    Some(i) => {
                        let selected = match &self.selected_instance {
                            Some(s) => match self.instance_position(s.id.as_str()) {
                                Some(p) => p == i,
                                None => false,
                            },
                            None => false,
                        };
                        if selected {
                            Activation::LaunchInstance(i)
                        } else {
                            Activation::SelectInstance(i)
                        }
                    },
                    None => Activation::Nothing,
                }
            }
        } else if is(&cs, "settings_memory") {
            Activation::OpenMemorySelector
        } else if is(&cs, "settings_java") {
            Activation::OpenJavaSelector
        } else if is(&cs, "settings_theme") {
            Activation::OpenThemeSelector
        } else if is(&cs, "settings_language") {
            Activation::OpenLanguageInfo
        } else if is(&cs, "settings_optimization") {
            Activation::OpenOptimizationSelector
        } else if is(&cs, "settings_custom_jvm") {
            Activation::OpenCustomJvmEditor
        } else if is(&cs, "settings_account") {
            Activation::OpenAccountSelector
        } else if has_prefix(&cs, "settings_") {
            Activation::Nothing
        } else if has_prefix(&cs, "server_") {
            proof {
                reveal_strlit("server_");
            }
            match index_in(&cs, 7) {
                Some(i) => Activation::ActivateServer(i),
                None => Activation::Nothing,
            }
        } else if is(&cs, "screenshots_open") {
            Activation::OpenScreenshotsFolder
        } else if has_prefix(&cs, "screenshot_") {
            proof {
                reveal_strlit("screenshot_");
            }
            match index_in(&cs, 11) {
                Some(i) => {
                    if i < self.screenshots.len() {
                        Activation::OpenScreenshot(i)
                    } else {
                        Activation::Nothing
                    }
                },
                None => Activation::Nothing,
            }
        } else if is(&cs, "crashes_copy") {
            Activation::CopyCrash
        } else if is(&cs, "crashes_delete") {
            Activation::DeleteCrash
        } else if is(&cs, "crashes_open") {
            Activation::OpenCrashFolder
        } else if is(&cs, "logs_live") {
            Activation::ToggleLiveLog
        } else {
            Activation::Nothing
        }
    }
}

} // verus!
