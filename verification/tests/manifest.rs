use palette_core::error::PaletteError;
use palette_core::manifest::PaletteManifest;
use palette_core::registry::preset_toml;

const BASE_TOML: &str = r##"
[meta]
name = "Test Theme"
preset_id = "test_theme"
schema_version = "1"
style = "dark"
kind = "preset-base"
upstream_repo = "https://github.com/example/theme"

[base]
background = "#1a1b2a"
foreground = "#c0caf5"

[semantic]
success = "#73daca"
error = "#db4b4b"

[diff]
added_bg = "#243e4a"

[surface]
menu = "#16161e"

[typography]
comment = "#565f89"

[syntax]
keywords = "#9d7cd8"

[editor]
cursor = "#c0caf5"

[terminal]
black = "#15161e"
red = "#f7768e"
"##;

const VARIANT_TOML: &str = r##"
[meta]
name = "Test Theme Storm"
preset_id = "test_theme_storm"
schema_version = "1"
style = "storm"
kind = "preset-variant"
inherits = "test_theme"

[base]
background = "#24283b"

[surface]
menu = "#1f2335"
"##;

#[test]
fn parse_full_base_preset() {
    let manifest = PaletteManifest::from_toml(BASE_TOML).unwrap();

    let meta = manifest.meta.as_ref().unwrap();
    assert_eq!(&*meta.name, "Test Theme");
    assert_eq!(&*meta.preset_id, "test_theme");
    assert_eq!(&*meta.schema_version, "1");
    assert_eq!(&*meta.style, "dark");
    assert_eq!(&*meta.kind, "preset-base");
    assert_eq!(
        meta.upstream_repo.as_deref(),
        Some("https://github.com/example/theme")
    );

    assert_eq!(manifest.base.len(), 2);
    assert_eq!(manifest.semantic.len(), 2);
    assert_eq!(manifest.diff.len(), 1);
    assert_eq!(manifest.surface.len(), 1);
    assert_eq!(manifest.typography.len(), 1);
    assert_eq!(manifest.syntax.len(), 1);
    assert_eq!(manifest.editor.len(), 1);
    assert_eq!(manifest.terminal.len(), 2);
}

#[test]
fn parse_sparse_variant() {
    let manifest = PaletteManifest::from_toml(VARIANT_TOML).unwrap();

    assert_eq!(manifest.base.len(), 1);
    assert_eq!(manifest.surface.len(), 1);
    assert!(manifest.semantic.is_empty());
    assert!(manifest.diff.is_empty());
    assert!(manifest.typography.is_empty());
    assert!(manifest.syntax.is_empty());
    assert!(manifest.editor.is_empty());
    assert!(manifest.terminal.is_empty());
}

#[test]
fn inherits_from_returns_parent_for_variant() {
    let manifest = PaletteManifest::from_toml(VARIANT_TOML).unwrap();
    assert_eq!(manifest.inherits_from(), Some("test_theme"));
}

#[test]
fn inherits_from_returns_none_for_base() {
    let manifest = PaletteManifest::from_toml(BASE_TOML).unwrap();
    assert_eq!(manifest.inherits_from(), None);
}

#[test]
fn missing_base_section_returns_error() {
    let toml = r##"
[meta]
name = "No Base"
preset_id = "no_base"
schema_version = "1"
style = "dark"
kind = "preset-base"
"##;

    let err = PaletteManifest::from_toml(toml).unwrap_err();
    assert!(matches!(err, PaletteError::MissingBase));
}

#[test]
fn empty_base_section_succeeds() {
    let toml = r##"
[meta]
name = "Empty Base"
preset_id = "empty_base"
schema_version = "1"
style = "dark"
kind = "preset-base"

[base]
"##;

    let manifest = PaletteManifest::from_toml(toml).unwrap();
    assert!(manifest.base.is_empty());
}

#[test]
fn unknown_sections_silently_ignored() {
    let toml = r##"
[meta]
name = "With Extras"
preset_id = "extras"
schema_version = "1"
style = "dark"
kind = "preset-base"

[base]
background = "#000000"

[git]
add = "#449dab"

[palette]
red = "#f7768e"
"##;

    let manifest = PaletteManifest::from_toml(toml).unwrap();
    assert_eq!(manifest.base.len(), 1);
}

#[test]
fn base_keys_accessible_via_btreemap_get() {
    let manifest = PaletteManifest::from_toml(BASE_TOML).unwrap();

    let bg: &str = manifest.base.get("background").unwrap();
    assert_eq!(bg, "#1a1b2a");

    let fg: &str = manifest.base.get("foreground").unwrap();
    assert_eq!(fg, "#c0caf5");
}

#[test]
fn real_preset_tokyonight_parses() {
    let toml = preset_toml("tokyonight").unwrap();
    let manifest = PaletteManifest::from_toml(toml).unwrap();

    let meta = manifest.meta.as_ref().unwrap();
    assert_eq!(&*meta.preset_id, "tokyonight");
    assert_eq!(&*meta.kind, "preset-base");
    assert_eq!(manifest.inherits_from(), None);
    assert!(!manifest.base.is_empty());
    assert!(!manifest.terminal.is_empty());
}

#[test]
fn real_preset_tokyonight_storm_parses() {
    let toml = preset_toml("tokyonight_storm").unwrap();
    let manifest = PaletteManifest::from_toml(toml).unwrap();

    let meta = manifest.meta.as_ref().unwrap();
    assert_eq!(&*meta.preset_id, "tokyonight_storm");
    assert_eq!(&*meta.kind, "preset-variant");
    assert_eq!(manifest.inherits_from(), Some("tokyonight"));
}

#[test]
fn text_that_is_no_document_is_refused() {
    for text in ["[base", "base = ", "= 1", "[base]\nbackground = #000000\n", "[base]\n[base]\n"] {
        let err = PaletteManifest::from_toml(text).unwrap_err();
        assert!(matches!(err, PaletteError::Parse(_)), "{text:?} gave {err:?}");
    }
}

#[test]
fn parser_message_is_kept() {
    let err = PaletteManifest::from_toml("[base").unwrap_err();
    match err {
        PaletteError::Parse(message) => assert!(!message.is_empty()),
        other => panic!("expected a parse error, got {other:?}"),
    }
}

#[test]
fn missing_base_goes_before_a_malformed_section() {
    let err = PaletteManifest::from_toml("semantic = 5\n").unwrap_err();
    assert!(matches!(err, PaletteError::MissingBase));
    let err = PaletteManifest::from_toml("").unwrap_err();
    assert!(matches!(err, PaletteError::MissingBase));
}

#[test]
fn base_that_is_no_table_is_malformed() {
    let err = PaletteManifest::from_toml("base = 5\n").unwrap_err();
    match err {
        PaletteError::Parse(message) => assert_eq!(message, "malformed table: base"),
        other => panic!("expected a parse error, got {other:?}"),
    }
}

#[test]
fn section_with_a_value_that_is_no_string_is_malformed() {
    let err = PaletteManifest::from_toml("[base]\n[semantic]\nerror = 5\n").unwrap_err();
    match err {
        PaletteError::Parse(message) => assert_eq!(message, "malformed table: semantic"),
        other => panic!("expected a parse error, got {other:?}"),
    }
    let err = PaletteManifest::from_toml("[base]\n[terminal.bright]\nred = \"#ff0000\"\n")
        .unwrap_err();
    match err {
        PaletteError::Parse(message) => assert_eq!(message, "malformed table: terminal"),
        other => panic!("expected a parse error, got {other:?}"),
    }
}

#[test]
fn first_malformed_table_is_named() {
    let text = "[base]\nbackground = 1\n[meta]\nname = 2\n[diff]\nadded = 3\n";
    let err = PaletteManifest::from_toml(text).unwrap_err();
    match err {
        PaletteError::Parse(message) => assert_eq!(message, "malformed table: meta"),
        other => panic!("expected a parse error, got {other:?}"),
    }
    let text = "[base]\n[syntax]\nkeywords = 1\n[diff]\nadded = 3\n";
    let err = PaletteManifest::from_toml(text).unwrap_err();
    match err {
        PaletteError::Parse(message) => assert_eq!(message, "malformed table: diff"),
        other => panic!("expected a parse error, got {other:?}"),
    }
}

#[test]
fn meta_needs_its_five_names_and_labels() {
    let full = "[meta]\nname = \"n\"\npreset_id = \"p\"\nschema_version = \"1\"\nstyle = \"s\"\nkind = \"k\"\n[base]\n";
    assert!(PaletteManifest::from_toml(full).is_ok());
    for missing in ["name", "preset_id", "schema_version", "style", "kind"] {
        let text: String = full
            .lines()
            .filter(|line| !line.starts_with(&format!("{missing} =")))
            .map(|line| format!("{line}\n"))
            .collect();
        let err = PaletteManifest::from_toml(&text).unwrap_err();
        match err {
            PaletteError::Parse(message) => assert_eq!(message, "malformed table: meta"),
            other => panic!("expected a parse error, got {other:?}"),
        }
    }
}

#[test]
fn meta_ignores_other_fields_of_any_type() {
    let text = "[meta]\nname = \"n\"\npreset_id = \"p\"\nschema_version = \"1\"\nstyle = \"s\"\nkind = \"k\"\ntags = [1, 2]\nauthor = \"a\"\n[base]\n";
    let manifest = PaletteManifest::from_toml(text).unwrap();
    let meta = manifest.meta.unwrap();
    assert_eq!(meta.name, "n");
    assert_eq!(meta.upstream_repo, None);
    assert_eq!(meta.inherits, None);
}

#[test]
fn meta_optional_fields_must_be_strings() {
    let text = "[meta]\nname = \"n\"\npreset_id = \"p\"\nschema_version = \"1\"\nstyle = \"s\"\nkind = \"k\"\ninherits = 7\n[base]\n";
    assert!(matches!(PaletteManifest::from_toml(text), Err(PaletteError::Parse(_))));
    let text = "[meta]\nname = \"n\"\npreset_id = \"p\"\nschema_version = \"1\"\nstyle = \"s\"\nkind = \"k\"\nupstream_repo = true\n[base]\n";
    assert!(matches!(PaletteManifest::from_toml(text), Err(PaletteError::Parse(_))));
}

#[test]
fn empty_parent_marks_a_base_theme() {
    let text = "[meta]\nname = \"n\"\npreset_id = \"p\"\nschema_version = \"1\"\nstyle = \"s\"\nkind = \"k\"\ninherits = \"\"\n[base]\n";
    let manifest = PaletteManifest::from_toml(text).unwrap();
    assert_eq!(manifest.meta.as_ref().unwrap().inherits.as_deref(), Some(""));
    assert_eq!(manifest.inherits_from(), None);
}

#[test]
fn manifest_without_meta_has_no_parent() {
    let manifest = PaletteManifest::from_toml("[base]\n").unwrap();
    assert!(manifest.meta.is_none());
    assert_eq!(manifest.inherits_from(), None);
}

#[test]
fn section_values_are_kept_verbatim() {
    let manifest =
        PaletteManifest::from_toml("[base]\nbackground = \"not-a-color\"\nextra = \" x \"\n")
            .unwrap();
    assert_eq!(manifest.base.get("background"), Some("not-a-color"));
    assert_eq!(manifest.base.get("extra"), Some(" x "));
    assert_eq!(manifest.base.get("foreground"), None);
}

#[test]
fn unknown_top_level_keys_of_any_type_change_nothing() {
    let plain = PaletteManifest::from_toml("[base]\nbackground = \"#000000\"\n").unwrap();
    let extra = PaletteManifest::from_toml(
        "title = \"x\"\nnumbers = [1, 2]\n[base]\nbackground = \"#000000\"\n[git]\nadd = 5\n[git.deep]\nk = 1.5\n",
    )
    .unwrap();
    assert!(extra.meta.is_none());
    assert_eq!(extra.base.len(), plain.base.len());
    assert_eq!(extra.base.get("background"), plain.base.get("background"));
    for section in [
        &extra.semantic,
        &extra.diff,
        &extra.surface,
        &extra.typography,
        &extra.syntax,
        &extra.editor,
        &extra.terminal,
    ] {
        assert!(section.is_empty());
    }
}
