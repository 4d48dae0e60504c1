use palette_core::color::Color;
use palette_core::error::PaletteError;
use palette_core::manifest::PaletteManifest;
use palette_core::registry::{
    load_preset, preset_ids, preset_toml, resolve_manifest, resolve_parent, sibling_file_name,
};

#[test]
fn tokyonight_background_is_loaded() {
    let palette = load_preset("tokyonight").unwrap();
    let background = palette.base.background.unwrap();
    assert_eq!(background, Color { r: 26, g: 27, b: 42 });
    assert_eq!(background.to_hex(), "#1A1B2A");
    assert_eq!(palette.meta.unwrap().preset_id, "tokyonight");
}

#[test]
fn storm_overrides_background_and_inherits_the_rest() {
    let palette = load_preset("tokyonight_storm").unwrap();
    assert_eq!(palette.base.background.unwrap().to_hex(), "#24283B");
    assert_eq!(palette.terminal_ansi.red.unwrap().to_hex(), "#F7768E");
    assert_eq!(palette.terminal_ansi.black.unwrap().to_hex(), "#1D202F");
    assert_eq!(palette.base.foreground.unwrap().to_hex(), "#C0CAF5");
    let meta = palette.meta.unwrap();
    assert_eq!(meta.preset_id, "tokyonight_storm");
    assert_eq!(meta.inherits.as_deref(), Some("tokyonight"));
}

#[test]
fn unknown_preset_is_refused_by_name() {
    let err = load_preset("does_not_exist").unwrap_err();
    assert!(matches!(&err, PaletteError::UnknownPreset(id) if id == "does_not_exist"));
    let err = load_preset("").unwrap_err();
    assert!(matches!(&err, PaletteError::UnknownPreset(id) if id.is_empty()));
    let err = load_preset("TokyoNight").unwrap_err();
    assert!(matches!(&err, PaletteError::UnknownPreset(id) if id == "TokyoNight"));
}

#[test]
fn preset_ids_are_in_declaration_order() {
    assert_eq!(preset_ids(), vec!["tokyonight", "tokyonight_storm"]);
}

#[test]
fn every_listed_preset_has_a_source_and_loads() {
    for id in preset_ids() {
        assert!(preset_toml(id).is_some());
        let palette = load_preset(id).unwrap();
        assert_eq!(palette.meta.unwrap().preset_id, id);
    }
    assert!(preset_toml("does_not_exist").is_none());
}

#[test]
fn unknown_parent_is_refused_by_its_name() {
    let text = "[meta]\nname = \"n\"\npreset_id = \"p\"\nschema_version = \"1\"\nstyle = \"s\"\nkind = \"k\"\ninherits = \"nowhere\"\n[base]\n";
    let manifest = PaletteManifest::from_toml(text).unwrap();
    let err = resolve_manifest(&manifest, None).unwrap_err();
    assert!(matches!(&err, PaletteError::UnknownPreset(id) if id == "nowhere"));
    let err = resolve_parent("nowhere", None).unwrap_err();
    assert!(matches!(&err, PaletteError::UnknownPreset(id) if id == "nowhere"));
}

#[test]
fn sibling_goes_before_the_catalog() {
    let child = "[meta]\nname = \"n\"\npreset_id = \"p\"\nschema_version = \"1\"\nstyle = \"s\"\nkind = \"k\"\ninherits = \"tokyonight\"\n[base]\nforeground = \"#010203\"\n";
    let manifest = PaletteManifest::from_toml(child).unwrap();

    let from_catalog = resolve_manifest(&manifest, None).unwrap();
    assert_eq!(from_catalog.base.background.unwrap().to_hex(), "#1A1B2A");
    assert_eq!(from_catalog.base.foreground.unwrap().to_hex(), "#010203");

    let sibling = "[base]\nbackground = \"#aaaaaa\"\nforeground = \"#bbbbbb\"\n";
    let from_sibling = resolve_manifest(&manifest, Some(sibling)).unwrap();
    assert_eq!(from_sibling.base.background.unwrap().to_hex(), "#AAAAAA");
    assert_eq!(from_sibling.base.foreground.unwrap().to_hex(), "#010203");
    assert!(from_sibling.terminal_ansi.red.is_none());
    assert_eq!(from_sibling.meta.unwrap().preset_id, "p");
}

#[test]
fn sibling_serves_a_parent_that_the_catalog_lacks() {
    let parent = resolve_parent("nowhere", Some("[base]\nborder = \"#123456\"\n")).unwrap();
    assert_eq!(parent.base.get("border"), Some("#123456"));
}

#[test]
fn errors_of_the_parent_come_through() {
    let child = "[meta]\nname = \"n\"\npreset_id = \"p\"\nschema_version = \"1\"\nstyle = \"s\"\nkind = \"k\"\ninherits = \"tokyonight\"\n[base]\n";
    let manifest = PaletteManifest::from_toml(child).unwrap();
    let err = resolve_manifest(&manifest, Some("[semantic]\n")).unwrap_err();
    assert!(matches!(err, PaletteError::MissingBase));
    let err = resolve_manifest(&manifest, Some("[base")).unwrap_err();
    assert!(matches!(err, PaletteError::Parse(_)));
    let err = resolve_manifest(&manifest, Some("[base]\nborder = \"zzz\"\n")).unwrap_err();
    assert!(matches!(
        &err,
        PaletteError::InvalidHex { section, field, value }
            if section == "base" && field == "border" && value == "zzz"
    ));
}

#[test]
fn only_one_level_of_inheritance_is_resolved() {
    let child = "[meta]\nname = \"n\"\npreset_id = \"p\"\nschema_version = \"1\"\nstyle = \"s\"\nkind = \"k\"\ninherits = \"middle\"\n[base]\n";
    let middle = "[meta]\nname = \"m\"\npreset_id = \"middle\"\nschema_version = \"1\"\nstyle = \"s\"\nkind = \"k\"\ninherits = \"tokyonight\"\n[base]\nborder = \"#123456\"\n";
    let manifest = PaletteManifest::from_toml(child).unwrap();
    let palette = resolve_manifest(&manifest, Some(middle)).unwrap();
    assert_eq!(palette.base.border.unwrap().to_hex(), "#123456");
    assert!(palette.base.background.is_none());
    assert!(palette.terminal_ansi.red.is_none());
}

#[test]
fn base_theme_needs_no_parent() {
    let manifest = PaletteManifest::from_toml("[base]\nborder = \"#123456\"\n").unwrap();
    let palette = resolve_manifest(&manifest, Some("[base")).unwrap();
    assert_eq!(palette.base.border.unwrap().to_hex(), "#123456");
}

#[test]
fn sibling_file_name_takes_the_extension_of_the_child() {
    assert_eq!(sibling_file_name("tokyonight", Some("toml")), "tokyonight.toml");
    assert_eq!(sibling_file_name("tokyonight", Some("theme")), "tokyonight.theme");
    assert_eq!(sibling_file_name("tokyonight", None), "tokyonight");
    assert_eq!(sibling_file_name("", Some("toml")), ".toml");
}
