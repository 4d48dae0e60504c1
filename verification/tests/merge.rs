use palette_core::manifest::PaletteManifest;
use palette_core::merge::merge_manifests;
use palette_core::registry::preset_toml;
use palette_core::section::ManifestSection;

fn section(pairs: &[(&str, &str)]) -> ManifestSection {
    let mut s = ManifestSection::new();
    for (k, v) in pairs {
        s.insert(k.to_string(), v.to_string());
    }
    s
}

fn empty() -> ManifestSection {
    ManifestSection::new()
}

fn make_manifest(
    name: &str,
    preset_id: &str,
    base: ManifestSection,
    terminal: ManifestSection,
) -> PaletteManifest {
    let toml = format!(
        r##"
[meta]
name = "{name}"
preset_id = "{preset_id}"
schema_version = "1"
style = "dark"
kind = "preset-base"

[base]
placeholder = "#000000"
"##
    );
    let mut m = PaletteManifest::from_toml(&toml).unwrap();
    m.base = base;
    m.terminal = terminal;
    m
}

#[test]
fn variant_key_overrides_base_key() {
    let variant = make_manifest("V", "v", section(&[("bg", "#111")]), empty());
    let base = make_manifest("B", "b", section(&[("bg", "#222")]), empty());

    let merged = merge_manifests(&variant, &base);

    assert_eq!(merged.base.get("bg").unwrap(), "#111");
}

#[test]
fn base_key_fills_gap_when_variant_section_empty() {
    let variant = make_manifest("V", "v", empty(), empty());
    let base = make_manifest("B", "b", section(&[("bg", "#222")]), empty());

    let merged = merge_manifests(&variant, &base);

    assert_eq!(merged.base.get("bg").unwrap(), "#222");
}

#[test]
fn base_key_fills_gap_when_variant_section_lacks_key() {
    let variant = make_manifest("V", "v", section(&[("fg", "#aaa")]), empty());
    let base = make_manifest("B", "b", section(&[("bg", "#222")]), empty());

    let merged = merge_manifests(&variant, &base);

    assert_eq!(merged.base.get("fg").unwrap(), "#aaa");
    assert_eq!(merged.base.get("bg").unwrap(), "#222");
}

#[test]
fn meta_taken_from_variant() {
    let variant = make_manifest("Variant", "variant_id", empty(), empty());
    let base = make_manifest("Base", "base_id", empty(), empty());

    let merged = merge_manifests(&variant, &base);

    let meta = merged.meta.as_ref().unwrap();
    assert_eq!(&*meta.name, "Variant");
    assert_eq!(&*meta.preset_id, "variant_id");
}

#[test]
fn full_merge_produces_union_of_all_keys() {
    let variant = make_manifest(
        "V",
        "v",
        section(&[("bg", "#111"), ("fg", "#aaa")]),
        section(&[("black", "#000")]),
    );
    let base = make_manifest(
        "B",
        "b",
        section(&[("bg", "#222"), ("border", "#333")]),
        section(&[("black", "#010"), ("red", "#f00")]),
    );

    let merged = merge_manifests(&variant, &base);

    assert_eq!(merged.base.len(), 3);
    assert_eq!(merged.base.get("bg").unwrap(), "#111");
    assert_eq!(merged.base.get("fg").unwrap(), "#aaa");
    assert_eq!(merged.base.get("border").unwrap(), "#333");

    assert_eq!(merged.terminal.len(), 2);
    assert_eq!(merged.terminal.get("black").unwrap(), "#000");
    assert_eq!(merged.terminal.get("red").unwrap(), "#f00");
}

#[test]
fn real_preset_tokyonight_storm_merge() {
    let base_toml = preset_toml("tokyonight").unwrap();
    let storm_toml = preset_toml("tokyonight_storm").unwrap();

    let base = PaletteManifest::from_toml(base_toml).unwrap();
    let storm = PaletteManifest::from_toml(storm_toml).unwrap();

    let merged = merge_manifests(&storm, &base);

    // Storm overrides base.background
    assert_eq!(merged.base.get("background").unwrap(), "#24283b");

    // Storm doesn't override terminal.red — falls back to base
    assert_eq!(merged.terminal.get("red").unwrap(), "#f7768e");

    // Meta is the variant's
    let meta = merged.meta.as_ref().unwrap();
    assert_eq!(&*meta.preset_id, "tokyonight_storm");
}

fn entries(s: &ManifestSection) -> Vec<(String, String)> {
    let mut out = Vec::new();
    let mut i = 0;
    while let Some((k, v)) = s.entry_at(i) {
        out.push((k.to_string(), v.to_string()));
        i += 1;
    }
    out
}

#[test]
fn merge_leaves_both_manifests_as_they_were() {
    let variant = make_manifest(
        "V",
        "v",
        section(&[("bg", "#111"), ("fg", "#aaa")]),
        section(&[("black", "#000")]),
    );
    let base = make_manifest(
        "B",
        "b",
        section(&[("bg", "#222"), ("border", "#333")]),
        section(&[("black", "#010"), ("red", "#f00")]),
    );
    let variant_before = (entries(&variant.base), entries(&variant.terminal));
    let base_before = (entries(&base.base), entries(&base.terminal));

    let first = merge_manifests(&variant, &base);
    let second = merge_manifests(&variant, &base);

    assert_eq!((entries(&variant.base), entries(&variant.terminal)), variant_before);
    assert_eq!((entries(&base.base), entries(&base.terminal)), base_before);
    assert_eq!(variant.meta.as_ref().unwrap().name, "V");
    assert_eq!(base.meta.as_ref().unwrap().name, "B");
    assert_eq!(entries(&first.base), entries(&second.base));
    assert_eq!(entries(&first.terminal), entries(&second.terminal));
}

#[test]
fn merge_over_empty_sections_keeps_the_variant() {
    let variant = make_manifest(
        "V",
        "v",
        section(&[("bg", "#111"), ("fg", "#aaa")]),
        section(&[("black", "#000")]),
    );
    let nothing = make_manifest("B", "b", empty(), empty());

    let merged = merge_manifests(&variant, &nothing);

    assert_eq!(entries(&merged.base), entries(&variant.base));
    assert_eq!(entries(&merged.terminal), entries(&variant.terminal));
    assert!(merged.semantic.is_empty());
}

#[test]
fn merge_takes_the_meta_of_a_variant_without_one() {
    let mut variant = make_manifest("V", "v", empty(), empty());
    variant.meta = None;
    let base = make_manifest("B", "b", empty(), empty());
    assert!(merge_manifests(&variant, &base).meta.is_none());
}

#[test]
fn merge_resolves_one_section_at_a_time() {
    let variant = make_manifest("V", "v", section(&[("red", "#111")]), empty());
    let base = make_manifest("B", "b", empty(), section(&[("red", "#f00"), ("bg", "#222")]));

    let merged = merge_manifests(&variant, &base);

    assert_eq!(entries(&merged.base), vec![("red".to_string(), "#111".to_string())]);
    assert_eq!(
        entries(&merged.terminal),
        vec![("bg".to_string(), "#222".to_string()), ("red".to_string(), "#f00".to_string())]
    );
}
