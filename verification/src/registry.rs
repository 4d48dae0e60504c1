//! The catalog of built-in presets, and the loading of a theme with one
//! level of inheritance.

use vstd::prelude::*;
use vstd::string::*;
use crate::error::{result_view, ErrorView, PaletteError};
use crate::manifest::{manifest_of_text, ManifestView, PaletteManifest};
use crate::merge::{merge_manifests, merged};
use crate::palette::{palette_of, Palette, PaletteView};
use crate::presets::{TOKYONIGHT, TOKYONIGHT_STORM};
use crate::slots::names_view;
use crate::text::same_text;

verus! {

/// The identifiers of the catalog, in the order in which it declares them.
pub open spec fn catalog_ids() -> Seq<Seq<char>> {
    seq!["tokyonight"@, "tokyonight_storm"@]
}

/// The source that the catalog holds under `id`.
pub open spec fn catalog_source(id: Seq<char>) -> Option<Seq<char>> {
    if id == "tokyonight"@ {
        Some(TOKYONIGHT@)
    } else if id == "tokyonight_storm"@ {
        Some(TOKYONIGHT_STORM@)
    } else {
        None
    }
}

/// The source of a parent: the sibling file's text where there is such a
/// file, else what the catalog holds under the parent's identifier.
pub open spec fn parent_source(parent_id: Seq<char>, sibling: Option<Seq<char>>) -> Option<
    Seq<char>,
> {
    match sibling {
        Some(text) => Some(text),
        None => catalog_source(parent_id),
    }
}

/// The manifest of a parent.
pub open spec fn parent_of(parent_id: Seq<char>, sibling: Option<Seq<char>>) -> Result<
    ManifestView,
    ErrorView,
> {
    match parent_source(parent_id, sibling) {
        Some(text) => manifest_of_text(text),
        None => Err(ErrorView::UnknownPreset(parent_id)),
    }
}

/// What a manifest resolves to: its own palette where it is a base theme;
/// where it is a variant, the palette of the manifest merged over its
/// parent. The parent of the parent is never asked for.
pub open spec fn resolved(m: ManifestView, sibling: Option<Seq<char>>) -> Result<
    PaletteView,
    ErrorView,
> {
    match m.parent() {
        None => palette_of(m),
        Some(parent_id) => match parent_of(parent_id, sibling) {
            Ok(parent) => palette_of(merged(m, parent)),
            Err(e) => Err(e),
        },
    }
}

/// What the preset `id` loads as.
pub open spec fn loaded(id: Seq<char>) -> Result<PaletteView, ErrorView> {
    match catalog_source(id) {
        None => Err(ErrorView::UnknownPreset(id)),
        Some(text) => match manifest_of_text(text) {
            Ok(m) => resolved(m, None),
            Err(e) => Err(e),
        },
    }
}

/// The characters of an optional text.
pub open spec fn source_view(text: Option<&str>) -> Option<Seq<char>> {
    match text {
        Some(t) => Some(t@),
        None => None,
    }
}

/// The name of the file beside a theme file in which its parent is looked
/// for first: the parent's identifier with the extension of the theme file.
pub open spec fn sibling_name(parent_id: Seq<char>, extension: Option<Seq<char>>) -> Seq<char> {
    match extension {
        Some(ext) => parent_id + "."@ + ext,
        None => parent_id,
    }
}

/// The identifiers of the built-in presets, in the order of their
/// declaration.
pub fn preset_ids() -> (ids: Vec<&'static str>)
    ensures
        names_view(ids@) == catalog_ids(),
{
    let ids = vec!["tokyonight", "tokyonight_storm"];
    assert(names_view(ids@) =~= catalog_ids());
    ids
}

/// The source of the built-in preset `id`.
pub fn preset_toml(id: &str) -> (r: Option<&'static str>)
    ensures
        source_view(r) == catalog_source(id@),
{
    if same_text(id, "tokyonight") {
        Some(TOKYONIGHT)
    } else if same_text(id, "tokyonight_storm") {
        Some(TOKYONIGHT_STORM)
    } else {
        None
    }
}

/// The name of the sibling file of a parent.
pub fn sibling_file_name(parent_id: &str, extension: Option<&str>) -> (name: String)
    ensures
        name@ == sibling_name(parent_id@, source_view(extension)),
{
    let mut name = parent_id.to_owned();
    match extension {
        Some(ext) => {
            name.append(".");
            name.append(ext);
        },
        None => {},
    }
    name
}

/// Reads the manifest of a parent. `sibling` is the text of the file of the
/// parent's name beside the child's file, where there is such a file; it
/// goes before the catalog.
pub fn resolve_parent(parent_id: &str, sibling: Option<&str>) -> (r: Result<
    PaletteManifest,
    PaletteError,
>)
    ensures
        result_view(r) == parent_of(parent_id@, source_view(sibling)),
{
    match sibling {
        Some(text) => PaletteManifest::from_toml(text),
        None => match preset_toml(parent_id) {
            Some(embedded) => PaletteManifest::from_toml(embedded),
            None => Err(PaletteError::UnknownPreset(parent_id.to_owned())),
        },
    }
}

/// Resolves a manifest into a palette, merging it over its parent where it
/// names one.
pub fn resolve_manifest(manifest: &PaletteManifest, sibling: Option<&str>) -> (r: Result<
    Palette,
    PaletteError,
>)
    ensures
        result_view(r) == resolved(manifest@, source_view(sibling)),
{
    match manifest.inherits_from() {
        None => Palette::from_manifest(manifest),
        Some(parent_id) => match resolve_parent(parent_id, sibling) {
            Ok(parent) => {
                let merged = merge_manifests(manifest, &parent);
                Palette::from_manifest(&merged)
            },
            Err(e) => Err(e),
        },
    }
}

/// Loads a built-in preset by its identifier.
pub fn load_preset(id: &str) -> (r: Result<Palette, PaletteError>)
    ensures
        result_view(r) == loaded(id@),
{
    match preset_toml(id) {
        None => Err(PaletteError::UnknownPreset(id.to_owned())),
        Some(text) => match PaletteManifest::from_toml(text) {
            Ok(manifest) => resolve_manifest(&manifest, None),
            Err(e) => Err(e),
        },
    }
}

} // verus!
