//! The settings editors: opening each on the current value, the log line a
//! selection shows, and applying a chosen value to the settings.

use vstd::prelude::*;
use crate::argus::backend::{BackendBridge, joined_with, string_views, with_settings};
use crate::config::Settings;
use crate::argus::discover::first_index;
use crate::argus::navigation::{SettingsChoice, edit_selection_valid};
use crate::argus::state::{AppState, LogLevel, SettingsEditMode, MEMORY_PRESETS};
use crate::minecraft::java::JavaInstallation;
use crate::minecraft::optimization::OptimizationProfile;
use crate::text::{chars_of, decimal, decimal_chars, extend_chars, extend_str, str_eq, string_from_chars};

verus! {

/// The memory preset row of a default memory, the 4096 MB row when it is
/// not a preset.
pub open spec fn preset_row(mb: u32) -> usize {
    if mb == 2048 {
        0
    } else if mb == 4096 {
        1
    } else if mb == 6144 {
        2
    } else if mb == 8192 {
        3
    } else if mb == 12288 {
        4
    } else if mb == 16384 {
        5
    } else {
        1
    }
}

/// The row of an optimization profile.
pub open spec fn profile_row(p: OptimizationProfile) -> usize {
    match p {
        OptimizationProfile::Low => 0,
        OptimizationProfile::Mid => 1,
        OptimizationProfile::High => 2,
        OptimizationProfile::Custom => 3,
    }
}

/// The profile of a row.
pub open spec fn profile_at(i: int) -> OptimizationProfile {
    if i == 0 {
        OptimizationProfile::Low
    } else if i == 1 {
        OptimizationProfile::Mid
    } else if i == 2 {
        OptimizationProfile::High
    } else {
        OptimizationProfile::Custom
    }
}

/// A profile's name.
pub open spec fn profile_name(p: OptimizationProfile) -> Seq<char> {
    match p {
        OptimizationProfile::Low => "Low"@,
        OptimizationProfile::Mid => "Mid"@,
        OptimizationProfile::High => "High"@,
        OptimizationProfile::Custom => "Custom"@,
    }
}

/// How a Java installation is named in the selector preview.
pub open spec fn java_label(j: JavaInstallation) -> Seq<char> {
    match j.version {
        Some(v) => "Java "@ + decimal(v.major as nat),
        None => "Unknown"@,
    }
}

/// The log line that shows the selected row of an open editor, if any.
pub open spec fn selection_message(st: AppState) -> Option<Seq<char>> {
    let i = st.settings_edit_index as int;
    match st.settings_edit_mode {
        SettingsEditMode::MemorySelector => Some("Memory: "@ + decimal(MEMORY_PRESETS[i] as nat) + " MB selected"@),
        SettingsEditMode::JavaSelector => if i == 0 {
            Some("Java: Auto-detect selected"@)
        } else if i - 1 < st.java_installations@.len() {
            Some("Java: "@ + java_label(st.java_installations@[i - 1]) + " \u{2014} "@ + st.java_installations@[i - 1].path@)
        } else {
            None
        },
        SettingsEditMode::ThemeSelector => Some("Theme: "@ + st.theme_options@[i]@),
        SettingsEditMode::OptimizationSelector => Some("Optimization: "@ + profile_name(profile_at(i))),
        _ => None,
    }
}

fn first_match(v: &Vec<String>, x: &str) -> (r: Option<usize>)
    ensures
        match first_index(string_views(v@), x@) {
            Some(k) => r == Some(k as usize),
            None => r is None,
        },
{
    let ghost sv = string_views(v@);
    let mut k: usize = 0;
    while k < v.len()
        invariant
            k <= v@.len(),
            sv == string_views(v@),
            sv.len() == v@.len(),
            forall|j: int| 0 <= j < k ==> sv[j] != x@,
        decreases v@.len() - k,
    {
        assert(sv[k as int] == v@[k as int]@);
        if str_eq(v[k].as_str(), x) {
            proof {
                crate::argus::discover::lemma_first_index_at(sv, x@, k as int);
            }
            return Some(k);
        }
        k = k + 1;
    }
    proof {
        crate::argus::discover::lemma_first_index_at(sv, x@, k as int);
    }
    None
}

fn profile_str(p: OptimizationProfile) -> (r: &'static str)
    ensures
        r@ == profile_name(p),
{
    p.as_str()
}

impl AppState {
    /// The line that shows the selected row of the open editor, if any.
    fn selection_line(&self) -> (r: Option<String>)
        requires
            edit_selection_valid(*self),
        ensures
            match selection_message(*self) {
                Some(m) => r matches Some(t) && t@ == m,
                None => r is None,
            },
    {
        let i = self.settings_edit_index;
        let mut line: Vec<char>;
        match self.settings_edit_mode {
            SettingsEditMode::MemorySelector => {
                line = chars_of("Memory: ");
                extend_chars(&mut line, &decimal_chars(MEMORY_PRESETS[i] as u64));
                extend_str(&mut line, " MB selected");
                proof {
                    reveal_strlit("Memory: ");
                    reveal_strlit(" MB selected");
                }
            },
            SettingsEditMode::JavaSelector => {
                if i == 0 {
                    line = chars_of("Java: Auto-detect selected");
                    proof {
                        reveal_strlit("Java: Auto-detect selected");
                    }
                } else if i - 1 < self.java_installations.len() {
                    let j = &self.java_installations[i - 1];
                    line = chars_of("Java: ");
                    match &j.version {
                        Some(v) => {
                            extend_str(&mut line, "Java ");
                            extend_chars(&mut line, &decimal_chars(v.major as u64));
                        },
                        None => extend_str(&mut line, "Unknown"),
                    }
                    extend_str(&mut line, " \u{2014} ");
                    extend_str(&mut line, j.path.as_str());
                    proof {
                        reveal_strlit("Java: ");
                        reveal_strlit("Java ");
                        reveal_strlit("Unknown");
                        reveal_strlit(" \u{2014} ");
                    }
                } else {
                    return None;
                }
            },
            SettingsEditMode::ThemeSelector => {
                line = chars_of("Theme: ");
                extend_str(&mut line, self.theme_options[i].as_str());
                proof {
                    reveal_strlit("Theme: ");
                }
            },
            SettingsEditMode::OptimizationSelector => {
                let profiles = OptimizationProfile::all();
                line = chars_of("Optimization: ");
                extend_str(&mut line, profile_str(profiles[i]));
                proof {
                    reveal_strlit("Optimization: ");
                }
            },
            _ => {
                return None;
            },
        }
        Some(string_from_chars(&line))
    }

    /// Logs the selected row of the open editor.
    pub fn log_selection(&mut self)
        requires
            edit_selection_valid(*old(self)),
        ensures
            match selection_message(*old(self)) {
                Some(m) => final(self).logs@.last().message@ == m && final(self).logs@.last().source@ == "ARGUS"@
                    && *final(self) == (AppState { logs: final(self).logs, ..*old(self) }),
                None => *final(self) == *old(self),
            },
    {
        match self.selection_line() {
            Some(text) => self.log(LogLevel::Info, "ARGUS", text.as_str()),
            None => {},
        }
    }

    /// Opens the memory presets on the current default memory.
    pub fn open_memory_selector(&mut self, bridge: &BackendBridge)
        ensures
            final(self).settings_edit_mode == SettingsEditMode::MemorySelector,
            final(self).settings_edit_index == preset_row(bridge.config.settings.default_memory),
            final(self).logs@.last().message@ == "Memory selector opened (current: "@ + decimal(
                bridge.config.settings.default_memory as nat,
            ) + " MB, 6 presets)"@,
    {
        let current = bridge.config.settings.default_memory;
        let idx: usize = if current == 2048 {
            0
        } else if current == 4096 {
            1
        } else if current == 6144 {
            2
        } else if current == 8192 {
            3
        } else if current == 12288 {
            4
        } else if current == 16384 {
            5
        } else {
            1
        };
        let mut line = chars_of("Memory selector opened (current: ");
        extend_chars(&mut line, &decimal_chars(current as u64));
        extend_str(&mut line, " MB, 6 presets)");
        proof {
            reveal_strlit("Memory selector opened (current: ");
            reveal_strlit(" MB, 6 presets)");
        }
        let text = string_from_chars(&line);
        self.settings_edit_mode = SettingsEditMode::MemorySelector;
        self.settings_edit_index = idx;
        self.log(LogLevel::Info, "ARGUS", text.as_str());
    }

    /// Opens the Java selector on its auto-detect row.
    pub fn open_java_selector(&mut self)
        ensures
            final(self).settings_edit_mode == SettingsEditMode::JavaSelector,
            final(self).settings_edit_index == 0,
            final(self).logs@.last().message@ == "Java selector opened"@,
    {
        self.settings_edit_mode = SettingsEditMode::JavaSelector;
        self.settings_edit_index = 0;
        self.log(LogLevel::Info, "ARGUS", "Java selector opened");
    }

    /// Opens the theme list on the current theme (the first row when it is
    /// not listed).
    pub fn open_theme_selector(&mut self, bridge: &BackendBridge)
        ensures
            final(self).settings_edit_mode == SettingsEditMode::ThemeSelector,
            final(self).settings_edit_index == match first_index(string_views(old(self).theme_options@), bridge.config.settings.theme@) {
                Some(k) => k as usize,
                None => 0usize,
            },
            final(self).logs@.last().message@ == "Theme selector opened (current: "@ + bridge.config.settings.theme@ + ")"@,
    {
        let theme = bridge.config.settings.theme.as_str();
        let idx: usize = match first_match(&self.theme_options, theme) {
            Some(k) => k,
            None => 0,
        };
        let mut line = chars_of("Theme selector opened (current: ");
        extend_str(&mut line, theme);
        extend_str(&mut line, ")");
        proof {
            reveal_strlit("Theme selector opened (current: ");
            reveal_strlit(")");
        }
        let text = string_from_chars(&line);
        self.settings_edit_mode = SettingsEditMode::ThemeSelector;
        self.settings_edit_index = idx;
        self.log(LogLevel::Info, "ARGUS", text.as_str());
    }

    /// Opens the language note.
    pub fn open_language_info(&mut self)
        ensures
            final(self).settings_edit_mode == SettingsEditMode::LanguageInfo,
            final(self).settings_edit_index == 0,
            final(self).logs@.last().message@ == "Language: only English is currently available"@,
    {
        self.settings_edit_mode = SettingsEditMode::LanguageInfo;
        self.settings_edit_index = 0;
        self.log(LogLevel::Info, "ARGUS", "Language: only English is currently available");
    }

    /// Opens the optimization profiles on the current profile.
    pub fn open_optimization_selector(&mut self, bridge: &BackendBridge)
        ensures
            final(self).settings_edit_mode == SettingsEditMode::OptimizationSelector,
            final(self).settings_edit_index == profile_row(bridge.config.settings.optimization_profile),
            final(self).logs@.last().message@ == "Optimization selector opened (current: "@ + profile_name(
                bridge.config.settings.optimization_profile,
            ) + ")"@,
    {
        let p = bridge.config.settings.optimization_profile;
        let idx: usize = match p {
            OptimizationProfile::Low => 0,
            OptimizationProfile::Mid => 1,
            OptimizationProfile::High => 2,
            OptimizationProfile::Custom => 3,
        };
        let mut line = chars_of("Optimization selector opened (current: ");
        extend_str(&mut line, profile_str(p));
        extend_str(&mut line, ")");
        proof {
            reveal_strlit("Optimization selector opened (current: ");
            reveal_strlit(")");
        }
        let text = string_from_chars(&line);
        self.settings_edit_mode = SettingsEditMode::OptimizationSelector;
        self.settings_edit_index = idx;
        self.log(LogLevel::Info, "ARGUS", text.as_str());
    }

    /// Opens the custom JVM arguments editor on the saved arguments, joined
    /// by spaces.
    pub fn open_custom_jvm_editor(&mut self, bridge: &BackendBridge)
        ensures
            final(self).settings_edit_mode == SettingsEditMode::CustomJvmEditor,
            final(self).settings_edit_index == 0,
            final(self).custom_jvm_input@ == joined_with(string_views(bridge.config.settings.custom_jvm_args@), " "@),
            final(self).logs@.last().message@
                == "Custom JVM args editor opened (type args, ENTER to save, ESC to cancel)"@,
    {
        let args = &bridge.config.settings.custom_jvm_args;
        let ghost av = string_views(args@);
        let mut line: Vec<char> = Vec::new();
        let mut i: usize = 0;
        proof {
            reveal_strlit(" ");
        }
        while i < args.len()
            invariant
                i <= args@.len(),
                av == string_views(args@),
                av.len() == args@.len(),
                line@ == joined_with(av.take(i as int), " "@),
            decreases args@.len() - i,
        {
            assert(av.take(i + 1).drop_last() =~= av.take(i as int));
            assert(av.take(i + 1).last() == args@[i as int]@);
            if i > 0 {
                extend_str(&mut line, " ");
            } else {
                assert(av.take(1) =~= seq![args@[0]@]);
            }
            extend_str(&mut line, args[i].as_str());
            i = i + 1;
        }
        assert(av.take(args@.len() as int) =~= av);
        self.custom_jvm_input = string_from_chars(&line);
        self.settings_edit_mode = SettingsEditMode::CustomJvmEditor;
        self.settings_edit_index = 0;
        self.log(LogLevel::Info, "ARGUS", "Custom JVM args editor opened (type args, ENTER to save, ESC to cancel)");
    }

    /// Applies what a settings editor chose to the settings and logs it.
    /// The result says whether the settings changed and are to be saved.
    pub fn apply_settings_choice(&mut self, bridge: &mut BackendBridge, choice: SettingsChoice) -> (save: bool)
        ensures
            match choice {
                SettingsChoice::Memory(mb) => save && final(bridge).config.settings.default_memory == mb
                    && *final(bridge) == with_settings(*old(bridge), Settings { default_memory: mb, ..old(bridge).config.settings })
                    && final(self).logs@.last().message@ == "Default memory set to "@ + decimal(mb as nat)
                    + " MB (persisted)"@,
                SettingsChoice::JavaAuto => save && final(bridge).config.settings.java_path is None
                    && *final(bridge) == with_settings(*old(bridge), Settings { java_path: None, ..old(bridge).config.settings })
                    && final(self).logs@.last().message@ == "Java path set to Auto-detect (persisted)"@,
                SettingsChoice::JavaPath(p) => save && final(bridge).config.settings.java_path == Some(p)
                    && *final(bridge) == with_settings(*old(bridge), Settings { java_path: Some(p), ..old(bridge).config.settings })
                    && final(self).logs@.last().message@ == "Java path set to "@ + p@ + " (persisted)"@,
                SettingsChoice::Theme(t) => save && final(bridge).config.settings.theme@ == t@
                    && *final(bridge) == with_settings(*old(bridge), Settings { theme: final(bridge).config.settings.theme, ..old(bridge).config.settings })
                    && final(self).logs@.last().message@ == "Theme set to "@ + t@ + " (persisted, applied)"@,
                SettingsChoice::Language => !save && *final(bridge) == *old(bridge)
                    && final(self).logs@.last().message@ == "Language: only English is currently available"@,
                SettingsChoice::Optimization(p) => save && final(bridge).config.settings.optimization_profile == p
                    && *final(bridge) == with_settings(*old(bridge), Settings { optimization_profile: p, ..old(bridge).config.settings })
                    && final(self).logs@.last().message@ == "Optimization profile set to "@ + profile_name(p)
                    + " (persisted)"@,
                SettingsChoice::CustomEditor => !save && *final(bridge) == *old(bridge)
                    && final(self).settings_edit_mode == SettingsEditMode::CustomJvmEditor
                    && final(self).custom_jvm_input@ == joined_with(
                    string_views(old(bridge).config.settings.custom_jvm_args@),
                    " "@,
                ),
                SettingsChoice::Nothing => !save && *final(bridge) == *old(bridge) && *final(self) == *old(self),
            },
    {
        match choice {
            SettingsChoice::Memory(mb) => {
                bridge.set_default_memory(mb);
                let mut line = chars_of("Default memory set to ");
                extend_chars(&mut line, &decimal_chars(mb as u64));
                extend_str(&mut line, " MB (persisted)");
                proof {
                    reveal_strlit("Default memory set to ");
                    reveal_strlit(" MB (persisted)");
                }
                let text = string_from_chars(&line);
                self.log(LogLevel::Info, "BACKEND", text.as_str());
                true
            },
            SettingsChoice::JavaAuto => {
                bridge.set_java_path(None);
                self.log(LogLevel::Info, "BACKEND", "Java path set to Auto-detect (persisted)");
                true
            },
            SettingsChoice::JavaPath(p) => {
                let mut line = chars_of("Java path set to ");
                extend_str(&mut line, p.as_str());
                extend_str(&mut line, " (persisted)");
                proof {
                    reveal_strlit("Java path set to ");
                    reveal_strlit(" (persisted)");
                }
                bridge.set_java_path(Some(p));
                let text = string_from_chars(&line);
                self.log(LogLevel::Info, "BACKEND", text.as_str());
                true
            },
            SettingsChoice::Theme(t) => {
                bridge.set_theme(t.as_str());
                let mut line = chars_of("Theme set to ");
                extend_str(&mut line, t.as_str());
                extend_str(&mut line, " (persisted, applied)");
                proof {
                    reveal_strlit("Theme set to ");
                    reveal_strlit(" (persisted, applied)");
                }
                let text = string_from_chars(&line);
                self.log(LogLevel::Info, "BACKEND", text.as_str());
                true
            },
            SettingsChoice::Language => {
                self.log(LogLevel::Info, "ARGUS", "Language: only English is currently available");
                false
            },
            SettingsChoice::Optimization(p) => {
                bridge.set_optimization_profile(p);
                let mut line = chars_of("Optimization profile set to ");
                extend_str(&mut line, profile_str(p));
                extend_str(&mut line, " (persisted)");
                proof {
                    reveal_strlit("Optimization profile set to ");
                    reveal_strlit(" (persisted)");
                }
                let text = string_from_chars(&line);
                self.log(LogLevel::Info, "BACKEND", text.as_str());
                true
            },
            SettingsChoice::CustomEditor => {
                self.open_custom_jvm_editor(bridge);
                false
            },
            SettingsChoice::Nothing => false,
        }
    }
}

} // verus!
