use era_launcher::argus::theme::{Palette, Theme, ThemeRegistry};

#[test]
fn test_apply_and_current_roundtrip() {
    let mut registry = ThemeRegistry::new();
    registry.apply("light", false);
    assert_eq!(registry.current().name, "light");
    registry.apply("dark", false);
    assert_eq!(registry.current().name, "dark");
}

#[test]
fn test_resolve_dark() {
    assert_eq!(Theme::select("dark", false), Palette::Dark);
    assert_eq!(Theme::select("unknown", false), Palette::Dark);
    assert_eq!(Theme::select("", false), Palette::Dark);
}

#[test]
fn test_resolve_dracula() {
    assert_eq!(Theme::select("dracula", false), Palette::Dracula);
    assert_eq!(Theme::select("Dracula", false), Palette::Dracula);
}

#[test]
fn test_resolve_tokyo_night() {
    assert_eq!(Theme::select("tokyo-night", false), Palette::TokyoNight);
    assert_eq!(Theme::select("tokyonight", false), Palette::TokyoNight);
    assert_eq!(Theme::select("tokyo night", false), Palette::TokyoNight);
}

#[test]
fn test_resolve_light() {
    assert_eq!(Theme::select("light", false), Palette::Light);
    assert_eq!(Theme::select("LIGHT", false), Palette::Light);
}

#[test]
fn test_resolve_system_returns_valid_palette() {
    assert_eq!(Theme::select("system", true), Palette::Light);
    assert_eq!(Theme::select("system", false), Palette::Dark);
    let t = Theme::resolve("system", false);
    assert!(t.name == "dark" || t.name == "light");
}

#[test]
fn test_palettes_differ() {
    assert_ne!(Theme::dark().bg, Theme::light().bg);
    assert_ne!(Theme::dark().text, Theme::light().text);
}
