//! Colour palettes of the terminal UI and the active-theme registry.
//!
//! The settings value `theme` is resolved to a palette; the registry keeps
//! the active one and skips re-resolving a name that is already applied.

use vstd::prelude::*;
use crate::text::{lowercase, split_words, to_lowercase, str_eq, words};

verus! {

/// A 24-bit colour.
#[derive(Debug, Clone, Copy, PartialEq, Eq, Structural)]
pub struct Rgb {
    pub r: u8,
    pub g: u8,
    pub b: u8,
}

/// A complete colour palette.
#[derive(Debug, Clone, Copy)]
pub struct Theme {
    pub name: &'static str,
    pub bg: Rgb,
    pub bg_dark: Rgb,
    pub bg_panel: Rgb,
    pub bg_filled: Rgb,
    pub border: Rgb,
    pub border_focus: Rgb,
    pub border_dim: Rgb,
    pub accent: Rgb,
    pub accent_dim: Rgb,
    pub accent_fade: Rgb,
    pub text: Rgb,
    pub text_dim: Rgb,
    pub text_muted: Rgb,
    pub text_subtle: Rgb,
    pub success: Rgb,
    pub warning: Rgb,
    pub error: Rgb,
    pub info: Rgb,
    pub focus: Rgb,
    pub selection: Rgb,
    pub fabric: Rgb,
    pub forge: Rgb,
    pub vanilla: Rgb,
    pub divider: Rgb,
}

/// Which palette a theme setting selects.
#[derive(Debug, Clone, Copy, PartialEq, Eq, Structural)]
pub enum Palette {
    Dark,
    Light,
    Dracula,
    TokyoNight,
}

/// The palette a setting selects: by its lower-cased name, `system`
/// following the operating system's light/dark preference, anything
/// unknown dark.
pub open spec fn palette_for(name: Seq<char>, system_light: bool) -> Palette {
    let l = lowercase(name);
    if l == "light"@ {
        Palette::Light
    } else if l == "system"@ {
        if system_light {
            Palette::Light
        } else {
            Palette::Dark
        }
    } else if l == "dracula"@ {
        Palette::Dracula
    } else if l == "tokyo-night"@ || l == "tokyonight"@ || l == "tokyo night"@ {
        Palette::TokyoNight
    } else {
        Palette::Dark
    }
}

pub open spec fn palette_name(p: Palette) -> Seq<char> {
    match p {
        Palette::Dark => "dark"@,
        Palette::Light => "light"@,
        Palette::Dracula => "dracula"@,
        Palette::TokyoNight => "tokyo-night"@,
    }
}

/// The `dark` palette.
pub open spec fn dark_theme() -> Theme {
    Theme {
        name: "dark",
        bg: Rgb { r: 12, g: 12, b: 19 },
        bg_dark: Rgb { r: 8, g: 8, b: 14 },
        bg_panel: Rgb { r: 22, g: 22, b: 32 },
        bg_filled: Rgb { r: 18, g: 18, b: 27 },
        border: Rgb { r: 52, g: 52, b: 72 },
        border_focus: Rgb { r: 70, g: 200, b: 140 },
        border_dim: Rgb { r: 34, g: 34, b: 50 },
        accent: Rgb { r: 70, g: 200, b: 140 },
        accent_dim: Rgb { r: 55, g: 165, b: 120 },
        accent_fade: Rgb { r: 35, g: 110, b: 85 },
        text: Rgb { r: 225, g: 225, b: 235 },
        text_dim: Rgb { r: 150, g: 150, b: 170 },
        text_muted: Rgb { r: 100, g: 100, b: 120 },
        text_subtle: Rgb { r: 70, g: 70, b: 90 },
        success: Rgb { r: 70, g: 200, b: 140 },
        warning: Rgb { r: 255, g: 195, b: 70 },
        error: Rgb { r: 245, g: 90, b: 90 },
        info: Rgb { r: 90, g: 175, b: 245 },
        focus: Rgb { r: 70, g: 200, b: 140 },
        selection: Rgb { r: 28, g: 28, b: 40 },
        fabric: Rgb { r: 110, g: 130, b: 255 },
        forge: Rgb { r: 245, g: 125, b: 60 },
        vanilla: Rgb { r: 210, g: 210, b: 220 },
        divider: Rgb { r: 38, g: 38, b: 55 },
    }
}

/// The `light` palette.
pub open spec fn light_theme() -> Theme {
    Theme {
        name: "light",
        bg: Rgb { r: 245, g: 245, b: 248 },
        bg_dark: Rgb { r: 230, g: 230, b: 235 },
        bg_panel: Rgb { r: 255, g: 255, b: 255 },
        bg_filled: Rgb { r: 248, g: 248, b: 252 },
        border: Rgb { r: 205, g: 205, b: 215 },
        border_focus: Rgb { r: 20, g: 140, b: 90 },
        border_dim: Rgb { r: 218, g: 218, b: 228 },
        accent: Rgb { r: 16, g: 130, b: 84 },
        accent_dim: Rgb { r: 35, g: 120, b: 80 },
        accent_fade: Rgb { r: 210, g: 235, b: 225 },
        text: Rgb { r: 25, g: 25, b: 35 },
        text_dim: Rgb { r: 105, g: 105, b: 120 },
        text_muted: Rgb { r: 135, g: 135, b: 150 },
        text_subtle: Rgb { r: 175, g: 175, b: 188 },
        success: Rgb { r: 16, g: 130, b: 84 },
        warning: Rgb { r: 180, g: 115, b: 0 },
        error: Rgb { r: 210, g: 45, b: 45 },
        info: Rgb { r: 25, g: 100, b: 200 },
        focus: Rgb { r: 20, g: 140, b: 90 },
        selection: Rgb { r: 235, g: 240, b: 238 },
        fabric: Rgb { r: 75, g: 95, b: 215 },
        forge: Rgb { r: 200, g: 90, b: 30 },
        vanilla: Rgb { r: 75, g: 75, b: 85 },
        divider: Rgb { r: 218, g: 218, b: 228 },
    }
}

/// The `dracula` palette.
pub open spec fn dracula_theme() -> Theme {
    Theme {
        name: "dracula",
        bg: Rgb { r: 40, g: 42, b: 54 },
        bg_dark: Rgb { r: 33, g: 34, b: 50 },
        bg_panel: Rgb { r: 56, g: 58, b: 84 },
        bg_filled: Rgb { r: 68, g: 71, b: 90 },
        border: Rgb { r: 98, g: 114, b: 164 },
        border_focus: Rgb { r: 139, g: 148, b: 255 },
        border_dim: Rgb { r: 73, g: 76, b: 102 },
        accent: Rgb { r: 80, g: 200, b: 120 },
        accent_dim: Rgb { r: 60, g: 160, b: 90 },
        accent_fade: Rgb { r: 40, g: 120, b: 70 },
        text: Rgb { r: 248, g: 248, b: 242 },
        text_dim: Rgb { r: 169, g: 183, b: 202 },
        text_muted: Rgb { r: 98, g: 114, b: 143 },
        text_subtle: Rgb { r: 66, g: 73, b: 92 },
        success: Rgb { r: 80, g: 200, b: 120 },
        warning: Rgb { r: 241, g: 250, b: 140 },
        error: Rgb { r: 255, g: 85, b: 85 },
        info: Rgb { r: 139, g: 148, b: 255 },
        focus: Rgb { r: 139, g: 148, b: 255 },
        selection: Rgb { r: 68, g: 71, b: 90 },
        fabric: Rgb { r: 114, g: 137, b: 218 },
        forge: Rgb { r: 255, g: 128, b: 64 },
        vanilla: Rgb { r: 189, g: 147, b: 249 },
        divider: Rgb { r: 74, g: 77, b: 92 },
    }
}

/// The `tokyo-night` palette.
pub open spec fn tokyo_night_theme() -> Theme {
    Theme {
        name: "tokyo-night",
        bg: Rgb { r: 26, g: 27, b: 39 },
        bg_dark: Rgb { r: 22, g: 23, b: 42 },
        bg_panel: Rgb { r: 41, g: 41, b: 74 },
        bg_filled: Rgb { r: 51, g: 52, b: 76 },
        border: Rgb { r: 86, g: 95, b: 137 },
        border_focus: Rgb { r: 114, g: 137, b: 218 },
        border_dim: Rgb { r: 60, g: 66, b: 102 },
        accent: Rgb { r: 80, g: 200, b: 120 },
        accent_dim: Rgb { r: 60, g: 160, b: 90 },
        accent_fade: Rgb { r: 40, g: 120, b: 70 },
        text: Rgb { r: 192, g: 202, b: 245 },
        text_dim: Rgb { r: 122, g: 129, b: 165 },
        text_muted: Rgb { r: 69, g: 71, b: 92 },
        text_subtle: Rgb { r: 48, g: 50, b: 65 },
        success: Rgb { r: 115, g: 215, b: 148 },
        warning: Rgb { r: 241, g: 187, b: 106 },
        error: Rgb { r: 247, g: 118, b: 141 },
        info: Rgb { r: 114, g: 137, b: 218 },
        focus: Rgb { r: 114, g: 137, b: 218 },
        selection: Rgb { r: 41, g: 41, b: 74 },
        fabric: Rgb { r: 114, g: 137, b: 218 },
        forge: Rgb { r: 255, g: 148, b: 76 },
        vanilla: Rgb { r: 192, g: 202, b: 245 },
        divider: Rgb { r: 51, g: 53, b: 72 },
    }
}

/// The colours of a palette.
pub open spec fn palette_theme(p: Palette) -> Theme {
    match p {
        Palette::Dark => dark_theme(),
        Palette::Light => light_theme(),
        Palette::Dracula => dracula_theme(),
        Palette::TokyoNight => tokyo_night_theme(),
    }
}

fn rgb(r: u8, g: u8, b: u8) -> (c: Rgb)
    ensures
        c == (Rgb { r, g, b }),
{
    Rgb { r, g, b }
}

impl Theme {
    /// The `dark` palette.
    pub fn dark() -> (t: Theme)
        ensures
            t.name@ == "dark"@,
            t == dark_theme(),
    {
        Theme {
            name: "dark",
            bg: rgb(12, 12, 19),
            bg_dark: rgb(8, 8, 14),
            bg_panel: rgb(22, 22, 32),
            bg_filled: rgb(18, 18, 27),
            border: rgb(52, 52, 72),
            border_focus: rgb(70, 200, 140),
            border_dim: rgb(34, 34, 50),
            accent: rgb(70, 200, 140),
            accent_dim: rgb(55, 165, 120),
            accent_fade: rgb(35, 110, 85),
            text: rgb(225, 225, 235),
            text_dim: rgb(150, 150, 170),
            text_muted: rgb(100, 100, 120),
            text_subtle: rgb(70, 70, 90),
            success: rgb(70, 200, 140),
            warning: rgb(255, 195, 70),
            error: rgb(245, 90, 90),
            info: rgb(90, 175, 245),
            focus: rgb(70, 200, 140),
            selection: rgb(28, 28, 40),
            fabric: rgb(110, 130, 255),
            forge: rgb(245, 125, 60),
            vanilla: rgb(210, 210, 220),
            divider: rgb(38, 38, 55),
        }
    }

    /// The `light` palette.
    pub fn light() -> (t: Theme)
        ensures
            t.name@ == "light"@,
            t == light_theme(),
    {
        Theme {
            name: "light",
            bg: rgb(245, 245, 248),
            bg_dark: rgb(230, 230, 235),
            bg_panel: rgb(255, 255, 255),
            bg_filled: rgb(248, 248, 252),
            border: rgb(205, 205, 215),
            border_focus: rgb(20, 140, 90),
            border_dim: rgb(218, 218, 228),
            accent: rgb(16, 130, 84),
            accent_dim: rgb(35, 120, 80),
            accent_fade: rgb(210, 235, 225),
            text: rgb(25, 25, 35),
            text_dim: rgb(105, 105, 120),
            text_muted: rgb(135, 135, 150),
            text_subtle: rgb(175, 175, 188),
            success: rgb(16, 130, 84),
            warning: rgb(180, 115, 0),
            error: rgb(210, 45, 45),
            info: rgb(25, 100, 200),
            focus: rgb(20, 140, 90),
            selection: rgb(235, 240, 238),
            fabric: rgb(75, 95, 215),
            forge: rgb(200, 90, 30),
            vanilla: rgb(75, 75, 85),
            divider: rgb(218, 218, 228),
        }
    }

    /// The `dracula` palette.
    pub fn dracula() -> (t: Theme)
        ensures
            t.name@ == "dracula"@,
            t == dracula_theme(),
    {
        Theme {
            name: "dracula",
            bg: rgb(40, 42, 54),
            bg_dark: rgb(33, 34, 50),
            bg_panel: rgb(56, 58, 84),
            bg_filled: rgb(68, 71, 90),
            border: rgb(98, 114, 164),
            border_focus: rgb(139, 148, 255),
            border_dim: rgb(73, 76, 102),
            accent: rgb(80, 200, 120),
            accent_dim: rgb(60, 160, 90),
            accent_fade: rgb(40, 120, 70),
            text: rgb(248, 248, 242),
            text_dim: rgb(169, 183, 202),
            text_muted: rgb(98, 114, 143),
            text_subtle: rgb(66, 73, 92),
            success: rgb(80, 200, 120),
            warning: rgb(241, 250, 140),
            error: rgb(255, 85, 85),
            info: rgb(139, 148, 255),
            focus: rgb(139, 148, 255),
            selection: rgb(68, 71, 90),
            fabric: rgb(114, 137, 218),
            forge: rgb(255, 128, 64),
            vanilla: rgb(189, 147, 249),
            divider: rgb(74, 77, 92),
        }
    }

    /// The `tokyo-night` palette.
    pub fn tokyo_night() -> (t: Theme)
        ensures
            t.name@ == "tokyo-night"@,
            t == tokyo_night_theme(),
    {
        Theme {
            name: "tokyo-night",
            bg: rgb(26, 27, 39),
            bg_dark: rgb(22, 23, 42),
            bg_panel: rgb(41, 41, 74),
            bg_filled: rgb(51, 52, 76),
            border: rgb(86, 95, 137),
            border_focus: rgb(114, 137, 218),
            border_dim: rgb(60, 66, 102),
            accent: rgb(80, 200, 120),
            accent_dim: rgb(60, 160, 90),
            accent_fade: rgb(40, 120, 70),
            text: rgb(192, 202, 245),
            text_dim: rgb(122, 129, 165),
            text_muted: rgb(69, 71, 92),
            text_subtle: rgb(48, 50, 65),
            success: rgb(115, 215, 148),
            warning: rgb(241, 187, 106),
            error: rgb(247, 118, 141),
            info: rgb(114, 137, 218),
            focus: rgb(114, 137, 218),
            selection: rgb(41, 41, 74),
            fabric: rgb(114, 137, 218),
            forge: rgb(255, 148, 76),
            vanilla: rgb(192, 202, 245),
            divider: rgb(51, 53, 72),
        }
    }

    /// The palette of a selection.
    pub fn of(p: Palette) -> (t: Theme)
        ensures
            t.name@ == palette_name(p),
            t == palette_theme(p),
    {
        match p {
            Palette::Dark => Theme::dark(),
            Palette::Light => Theme::light(),
            Palette::Dracula => Theme::dracula(),
            Palette::TokyoNight => Theme::tokyo_night(),
        }
    }

    /// Which palette a setting selects (`system_light` is the operating
    /// system's preference, read by the caller).
    pub fn select(name: &str, system_light: bool) -> (p: Palette)
        ensures
            p == palette_for(name@, system_light),
    {
        let l = to_lowercase(name);
        let s = l.as_str();
        if str_eq(s, "light") {
            Palette::Light
        } else if str_eq(s, "system") {
            if system_light {
                Palette::Light
            } else {
                Palette::Dark
            }
        } else if str_eq(s, "dracula") {
            Palette::Dracula
        } else if str_eq(s, "tokyo-night") || str_eq(s, "tokyonight") || str_eq(s, "tokyo night") {
            Palette::TokyoNight
        } else {
            Palette::Dark
        }
    }

    /// The palette a setting resolves to.
    pub fn resolve(name: &str, system_light: bool) -> (t: Theme)
        ensures
            t.name@ == palette_name(palette_for(name@, system_light)),
            t == palette_theme(palette_for(name@, system_light)),
    {
        Theme::of(Theme::select(name, system_light))
    }
}

/// The active palette and the setting it was applied from.
pub struct ThemeRegistry {
    current: Theme,
    applied: Option<String>,
}

impl ThemeRegistry {
    /// The applied setting, if any.
    pub closed spec fn applied_name(&self) -> Option<Seq<char>> {
        match self.applied {
            Some(s) => Some(s@),
            None => None,
        }
    }

    /// The name of the active palette.
    pub closed spec fn current_name(&self) -> Seq<char> {
        self.current.name@
    }

    /// The active palette.
    pub closed spec fn current_theme(&self) -> Theme {
        self.current
    }

    /// Dark, with no setting applied yet.
    pub fn new() -> (r: Self)
        ensures
            r.current_name() == "dark"@,
            r.current_theme() == dark_theme(),
            r.applied_name() is None,
    {
        ThemeRegistry { current: Theme::dark(), applied: None }
    }

    /// The active palette is the one that the applied setting selected
    /// (under some preference of the operating system).
    #[verifier::type_invariant]
    spec fn palette_follows_setting(self) -> bool {
        self.applied matches Some(n) ==> exists|b: bool| self.current == palette_theme(palette_for(n@, b))
    }

    /// Applies a theme setting; applying the setting already applied
    /// changes nothing. Afterwards the active palette is the one the
    /// setting resolves to (for `system`, under the preference of the
    /// operating system when it was first applied).
    pub fn apply(&mut self, name: &str, system_light: bool)
        ensures
            applied_by(*old(self), *final(self), name@, system_light),
            lowercase(name@) != "system"@ ==> final(self).current_theme() == palette_theme(palette_for(name@, system_light)),
    {
        proof {
            use_type_invariant(&*self);
        }
        if let Some(prev) = &self.applied {
            if str_eq(prev.as_str(), name) {
                proof {
                    let b = choose|b: bool| self.current == palette_theme(palette_for(name@, b));
                    assert(palette_for(name@, b) == palette_for(name@, system_light) || lowercase(name@) == "system"@);
                }
                return;
            }
        }
        let t = Theme::resolve(name, system_light);
        proof {
            assert(t == palette_theme(palette_for(name@, system_light)));
        }
        let next = ThemeRegistry { current: t, applied: Some(name.to_owned()) };
        proof {
            assert(next.current == palette_theme(palette_for(name@, system_light)));
        }
        *self = next;
    }

    /// A copy of the active palette.
    pub fn current(&self) -> (t: Theme)
        ensures
            t.name@ == self.current_name(),
            t == self.current_theme(),
    {
        self.current
    }
}

/// `r1` is `r0` after applying setting `name` with the operating system
/// preferring light when `system_light`: the setting is recorded, and the
/// active palette changes to the one it selects unless it was applied
/// already.
pub open spec fn applied_by(r0: ThemeRegistry, r1: ThemeRegistry, name: Seq<char>, system_light: bool) -> bool {
    &&& r1.applied_name() == Some(name)
    &&& r0.applied_name() == Some(name) ==> r1.current_theme() == r0.current_theme()
    &&& r0.applied_name() != Some(name) ==> r1.current_theme() == palette_theme(palette_for(name, system_light))
}

/// Applying the same setting twice leaves the palette that the first
/// application chose; for a setting other than `system` that palette is
/// the one the setting resolves to.
pub proof fn law_reapply_keeps_palette(r0: ThemeRegistry, r1: ThemeRegistry, r2: ThemeRegistry, name: Seq<char>, b1: bool, b2: bool)
    requires
        applied_by(r0, r1, name, b1),
        applied_by(r1, r2, name, b2),
        lowercase(name) != "system"@ ==> r1.current_theme() == palette_theme(palette_for(name, b1)),
    ensures
        r2.current_theme() == r1.current_theme(),
        lowercase(name) != "system"@ ==> r2.current_theme() == palette_theme(palette_for(name, b2)),
{
}

/// Whether the operating system prefers light apps, from the words of its
/// settings query (the value of `AppsUseLightTheme`): the first word that is
/// `0x1` or `0x0` decides, and none means dark.
pub open spec fn light_from_words(ws: Seq<Seq<char>>) -> bool
    decreases ws.len(),
{
    if ws.len() == 0 {
        false
    } else if ws[0] == "0x1"@ {
        true
    } else if ws[0] == "0x0"@ {
        false
    } else {
        light_from_words(ws.drop_first())
    }
}

/// Reads the light preference from the output of the settings query.
pub fn prefers_light(output: &str) -> (r: bool)
    ensures
        r == light_from_words(words(output@)),
{
    proof {
        reveal_strlit("0x1");
        reveal_strlit("0x0");
    }
    let ws = split_words(output);
    let ghost all = ws@.map_values(|w: String| w@);
    assert(all.subrange(0, all.len() as int) =~= all);
    let mut i: usize = 0;
    while i < ws.len()
        invariant
            i <= ws@.len(),
            all == ws@.map_values(|w: String| w@),
            all == words(output@),
            light_from_words(all) == light_from_words(all.subrange(i as int, all.len() as int)),
        decreases ws@.len() - i,
    {
        let ghost rest = all.subrange(i as int, all.len() as int);
        assert(rest[0] == ws@[i as int]@);
        if str_eq(ws[i].as_str(), "0x1") {
            return true;
        }
        if str_eq(ws[i].as_str(), "0x0") {
            return false;
        }
        assert(rest.drop_first() =~= all.subrange(i + 1, all.len() as int));
        i = i + 1;
    }
    false
}

} // verus!
