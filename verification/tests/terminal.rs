use ratatui::style::Color as RatatuiColor;

use palette_core::color::Color;
use palette_core::manifest::PaletteManifest;
use palette_core::palette::Palette;
use palette_core::registry::preset_toml;
use palette_core::section::ManifestSection;
use palette_core::terminal::{to_ratatui_color, to_terminal_theme, TerminalTheme};

fn load_preset(name: &str) -> PaletteManifest {
    PaletteManifest::from_toml(preset_toml(name).unwrap()).unwrap()
}

fn set(slots: Vec<Option<RatatuiColor>>) -> usize {
    slots.iter().filter(|slot| slot.is_some()).count()
}

fn set_in_theme(theme: &TerminalTheme) -> usize {
    set(theme.base.to_slots())
        + set(theme.semantic.to_slots())
        + set(theme.diff.to_slots())
        + set(theme.surface.to_slots())
        + set(theme.typography.to_slots())
        + set(theme.syntax.to_slots())
        + set(theme.editor.to_slots())
        + set(theme.terminal_ansi.to_slots())
}

#[test]
fn single_color_converts_rgb() {
    let color = Color { r: 26, g: 27, b: 42 };
    assert_eq!(to_ratatui_color(&color), RatatuiColor::Rgb(26, 27, 42));
}

#[test]
fn terminal_all_populated_slots_present() {
    let manifest = load_preset("tokyonight");
    let palette = Palette::from_manifest(&manifest).unwrap();
    let theme = to_terminal_theme(&palette);

    let expected = palette.base.populated_slots().len()
        + palette.semantic.populated_slots().len()
        + palette.diff.populated_slots().len()
        + palette.surface.populated_slots().len()
        + palette.typography.populated_slots().len()
        + palette.syntax.populated_slots().len()
        + palette.editor.populated_slots().len()
        + palette.terminal_ansi.populated_slots().len();

    let actual = set_in_theme(&theme);

    assert_eq!(actual, expected);
}

#[test]
fn rgb_values_match_source() {
    let manifest = load_preset("tokyonight");
    let palette = Palette::from_manifest(&manifest).unwrap();
    let theme = to_terminal_theme(&palette);

    assert_eq!(
        theme.base.background.unwrap(),
        RatatuiColor::Rgb(26, 27, 42),
    );
}

#[test]
fn empty_sections_produce_empty_maps() {
    let mut base = ManifestSection::new();
    base.insert("background".to_string(), "#000000".to_string());
    let manifest = PaletteManifest {
        meta: None,
        base,
        semantic: ManifestSection::new(),
        diff: ManifestSection::new(),
        surface: ManifestSection::new(),
        typography: ManifestSection::new(),
        syntax: ManifestSection::new(),
        editor: ManifestSection::new(),
        terminal: ManifestSection::new(),
    };
    let palette = Palette::from_manifest(&manifest).unwrap();
    let theme = to_terminal_theme(&palette);

    assert_eq!(set(theme.base.to_slots()), 1);
    assert_eq!(set(theme.semantic.to_slots()), 0);
    assert_eq!(set(theme.diff.to_slots()), 0);
    assert_eq!(set(theme.surface.to_slots()), 0);
    assert_eq!(set(theme.typography.to_slots()), 0);
    assert_eq!(set(theme.syntax.to_slots()), 0);
    assert_eq!(set(theme.editor.to_slots()), 0);
    assert_eq!(set(theme.terminal_ansi.to_slots()), 0);
}

#[test]
fn terminal_ansi_maps_all_16_colors() {
    let manifest = load_preset("tokyonight");
    let palette = Palette::from_manifest(&manifest).unwrap();
    let theme = to_terminal_theme(&palette);

    assert_eq!(set(theme.terminal_ansi.to_slots()), 16);
    assert_eq!(
        theme.terminal_ansi.black.unwrap(),
        RatatuiColor::Rgb(21, 22, 30),
    );
}

#[test]
fn every_slot_keeps_its_place_and_channels() {
    let manifest = load_preset("tokyonight_storm");
    let palette = Palette::from_manifest(&manifest).unwrap();
    let theme = to_terminal_theme(&palette);

    assert_eq!(theme.base.background, Some(RatatuiColor::Rgb(36, 40, 59)));
    assert_eq!(theme.base.background_dark, Some(RatatuiColor::Rgb(31, 35, 53)));
    assert_eq!(theme.base.foreground, None);
    assert_eq!(theme.surface.menu, Some(RatatuiColor::Rgb(31, 35, 53)));
    assert_eq!(theme.terminal_ansi.black, Some(RatatuiColor::Rgb(29, 32, 47)));
    assert_eq!(theme.terminal_ansi.red, None);
    let expected: Vec<Option<RatatuiColor>> = palette
        .terminal_ansi
        .to_slots()
        .iter()
        .map(|slot| slot.map(|c| RatatuiColor::Rgb(c.r, c.g, c.b)))
        .collect();
    assert_eq!(theme.terminal_ansi.to_slots(), expected);
}
