//! The raw form of one theme document: its meta and its eight sections,
//! before any colour is looked at.

use vstd::prelude::*;
use vstd::string::*;
use crate::document::{
    field_named, find_field, find_item, item_named, read_document, toml_document, RawDocument,
    RawField, RawItem,
};
use crate::error::{result_view, ErrorView, PaletteError};
use crate::meta::{clone_meta, clone_text, meta_view, text_view, MetaView, PaletteMeta};
use crate::section::ManifestSection;

verus! {

/// The names of the eight sections, in their fixed order.
pub open spec fn section_names() -> Seq<Seq<char>> {
    seq![
        "base"@,
        "semantic"@,
        "diff"@,
        "surface"@,
        "typography"@,
        "syntax"@,
        "editor"@,
        "terminal"@,
    ]
}

/// One parsed theme document. A key that a section lacks is simply absent.
#[derive(Debug)]
pub struct PaletteManifest {
    pub meta: Option<PaletteMeta>,
    pub base: ManifestSection,
    pub semantic: ManifestSection,
    pub diff: ManifestSection,
    pub surface: ManifestSection,
    pub typography: ManifestSection,
    pub syntax: ManifestSection,
    pub editor: ManifestSection,
    pub terminal: ManifestSection,
}

/// A manifest as mathematics: its meta, and the mappings of its eight
/// sections in the order of [`section_names`].
pub struct ManifestView {
    pub meta: Option<MetaView>,
    pub sections: Seq<Map<Seq<char>, Seq<char>>>,
}

impl ManifestView {
    /// The parent that the manifest names: it is a variant where there is
    /// one, and a base theme where there is none.
    pub open spec fn parent(self) -> Option<Seq<char>> {
        match self.meta {
            Some(m) => m.parent(),
            None => None,
        }
    }
}

impl View for PaletteManifest {
    type V = ManifestView;

    open spec fn view(&self) -> ManifestView {
        ManifestView {
            meta: meta_view(self.meta),
            sections: seq![
                self.base@,
                self.semantic@,
                self.diff@,
                self.surface@,
                self.typography@,
                self.syntax@,
                self.editor@,
                self.terminal@,
            ],
        }
    }
}

impl Clone for PaletteManifest {
    /// A copy with the same meta and the same entries in every section.
    fn clone(&self) -> (r: Self)
        ensures
            r@ == self@,
    {
        let r = PaletteManifest {
            meta: clone_meta(&self.meta),
            base: self.base.clone(),
            semantic: self.semantic.clone(),
            diff: self.diff.clone(),
            surface: self.surface.clone(),
            typography: self.typography.clone(),
            syntax: self.syntax.clone(),
            editor: self.editor.clone(),
            terminal: self.terminal.clone(),
        };
        assert(r@.sections =~= self@.sections);
        r
    }
}

/// Whether every field of a table is a string.
pub open spec fn all_text(fields: Seq<RawField>) -> bool {
    forall|i: int| 0 <= i < fields.len() ==> (#[trigger] fields[i]).text is Some
}

/// The mapping that a table of strings stands for.
pub open spec fn fields_map(fields: Seq<RawField>) -> Map<Seq<char>, Seq<char>> {
    Map::new(
        |k: Seq<char>| field_named(fields, k) is Some,
        |k: Seq<char>| text_view(field_named(fields, k).unwrap().text).unwrap(),
    )
}

/// Whether the item `name`, where the document has it, is a table of strings.
pub open spec fn section_ok(items: Seq<RawItem>, name: Seq<char>) -> bool {
    match item_named(items, name) {
        Some(item) => match item.fields {
            Some(fields) => all_text(fields@),
            None => false,
        },
        None => true,
    }
}

/// The section `name` of a document: the mapping of its table, and the empty
/// mapping where the document has no such item.
pub open spec fn section_of(items: Seq<RawItem>, name: Seq<char>) -> Map<Seq<char>, Seq<char>> {
    match item_named(items, name) {
        Some(item) => match item.fields {
            Some(fields) => fields_map(fields@),
            None => Map::empty(),
        },
        None => Map::empty(),
    }
}

/// The text of the field `name`, where the table has it as a string.
pub open spec fn field_text(fields: Seq<RawField>, name: Seq<char>) -> Option<Seq<char>> {
    match field_named(fields, name) {
        Some(field) => text_view(field.text),
        None => None,
    }
}

/// Whether the field `name` is a string wherever the table has it.
pub open spec fn text_if_present(fields: Seq<RawField>, name: Seq<char>) -> bool {
    match field_named(fields, name) {
        Some(field) => field.text is Some,
        None => true,
    }
}

/// Whether a table can be read as a meta: the five names and labels are
/// strings, and so are the repository and the parent where they are given.
pub open spec fn meta_fields_ok(fields: Seq<RawField>) -> bool {
    &&& field_text(fields, "name"@) is Some
    &&& field_text(fields, "preset_id"@) is Some
    &&& field_text(fields, "schema_version"@) is Some
    &&& field_text(fields, "style"@) is Some
    &&& field_text(fields, "kind"@) is Some
    &&& text_if_present(fields, "upstream_repo"@)
    &&& text_if_present(fields, "inherits"@)
}

/// The meta that a table is read as.
pub open spec fn meta_from_fields(fields: Seq<RawField>) -> MetaView {
    MetaView {
        name: field_text(fields, "name"@).unwrap(),
        preset_id: field_text(fields, "preset_id"@).unwrap(),
        schema_version: field_text(fields, "schema_version"@).unwrap(),
        style: field_text(fields, "style"@).unwrap(),
        kind: field_text(fields, "kind"@).unwrap(),
        upstream_repo: field_text(fields, "upstream_repo"@),
        inherits: field_text(fields, "inherits"@),
    }
}

/// Whether the item `meta`, where the document has it, can be read as a meta.
pub open spec fn meta_ok(items: Seq<RawItem>) -> bool {
    match item_named(items, "meta"@) {
        Some(item) => match item.fields {
            Some(fields) => meta_fields_ok(fields@),
            None => false,
        },
        None => true,
    }
}

/// The meta of a document, where it has one.
pub open spec fn meta_of(items: Seq<RawItem>) -> Option<MetaView> {
    match item_named(items, "meta"@) {
        Some(item) => match item.fields {
            Some(fields) => Some(meta_from_fields(fields@)),
            None => None,
        },
        None => None,
    }
}

/// The first of the sections from number `from` on that is no table of
/// strings.
pub open spec fn first_bad_section(items: Seq<RawItem>, from: int) -> Option<Seq<char>>
    decreases 8 - from,
{
    if from < 0 || from >= 8 {
        None
    } else if !section_ok(items, section_names()[from]) {
        Some(section_names()[from])
    } else {
        first_bad_section(items, from + 1)
    }
}

/// The first recognised item that has not the shape it needs: `meta` is
/// looked at first, then the sections in their order.
pub open spec fn first_bad_item(items: Seq<RawItem>) -> Option<Seq<char>> {
    if !meta_ok(items) {
        Some("meta"@)
    } else {
        first_bad_section(items, 0)
    }
}

/// The message of the error for an item of the wrong shape.
pub open spec fn shape_message(key: Seq<char>) -> Seq<char> {
    "malformed table: "@ + key
}

/// What a parsed document resolves to. Without a `base` item it is refused
/// as such, whatever else it holds; with a recognised item of the wrong shape
/// it is refused as malformed; else it gives a manifest. Items of any other
/// key are not looked at.
pub open spec fn manifest_of(items: Seq<RawItem>) -> Result<ManifestView, ErrorView> {
    if item_named(items, "base"@) is None {
        Err(ErrorView::MissingBase)
    } else {
        match first_bad_item(items) {
            Some(key) => Err(ErrorView::Parse(shape_message(key))),
            None => Ok(
                ManifestView {
                    meta: meta_of(items),
                    sections: Seq::new(8, |i: int| section_of(items, section_names()[i])),
                },
            ),
        }
    }
}

/// What a text resolves to: what its parsed document resolves to, or the
/// parser's refusal.
pub open spec fn manifest_of_text(text: Seq<char>) -> Result<ManifestView, ErrorView> {
    match toml_document(text) {
        Ok(items) => manifest_of(items),
        Err(message) => Err(ErrorView::Parse(message)),
    }
}

/// Whether `key` is one of the nine keys that a document is read by: `meta`
/// and the names of the eight sections.
pub open spec fn is_recognised(key: Seq<char>) -> bool {
    key == "meta"@ || exists|i: int| 0 <= i < 8 && section_names()[i] == key
}

/// Missing base: a document without a `base` item is refused as such,
/// whatever else it holds.
pub proof fn lemma_missing_base(items: Seq<RawItem>)
    requires
        item_named(items, "base"@) is None,
    ensures
        manifest_of(items) == Err::<ManifestView, ErrorView>(ErrorView::MissingBase),
{
}

/// Empty base: a document whose `base` is a table without fields, and whose
/// other recognised items have the shape they need, gives a manifest, and
/// the `base` section of that manifest has no entry.
pub proof fn lemma_empty_base(items: Seq<RawItem>)
    requires
        item_named(items, "base"@) matches Some(item) && item.fields matches Some(fields)
            && fields@.len() == 0,
        first_bad_item(items) is None,
    ensures
        manifest_of(items) matches Ok(m) && m.sections.len() == 8 && m.sections[0] == Map::<
            Seq<char>,
            Seq<char>,
        >::empty(),
{
    let fields = item_named(items, "base"@).unwrap().fields.unwrap()@;
    assert(fields_map(fields) =~= Map::<Seq<char>, Seq<char>>::empty());
}

/// An item of another key does not change which item has the key `key`.
proof fn lemma_item_named_insert(items: Seq<RawItem>, at: int, extra: RawItem, key: Seq<char>)
    requires
        0 <= at <= items.len(),
        extra.key@ != key,
    ensures
        item_named(items.insert(at, extra), key) == item_named(items, key),
    decreases items.len() - at,
{
    let longer = items.insert(at, extra);
    if at == items.len() {
        assert(longer.drop_last() =~= items);
    } else {
        assert(longer.last() == items.last());
        assert(longer.drop_last() =~= items.drop_last().insert(at, extra));
        lemma_item_named_insert(items.drop_last(), at, extra, key);
    }
}

proof fn lemma_first_bad_section_same(a: Seq<RawItem>, b: Seq<RawItem>, from: int)
    requires
        forall|i: int| 0 <= i < 8 ==> item_named(a, section_names()[i]) == item_named(
            b,
            section_names()[i],
        ),
    ensures
        first_bad_section(a, from) == first_bad_section(b, from),
    decreases 8 - from,
{
    if 0 <= from < 8 {
        lemma_first_bad_section_same(a, b, from + 1);
    }
}

/// Unrecognised keys: an item whose key is none of the nine recognised ones
/// has no effect, wherever in the document it stands and whatever it holds.
pub proof fn lemma_unrecognised_item_ignored(items: Seq<RawItem>, at: int, extra: RawItem)
    requires
        0 <= at <= items.len(),
        !is_recognised(extra.key@),
    ensures
        manifest_of(items.insert(at, extra)) == manifest_of(items),
{
    let longer = items.insert(at, extra);
    lemma_item_named_insert(items, at, extra, "meta"@);
    assert forall|i: int| 0 <= i < 8 implies item_named(longer, section_names()[i])
        == item_named(items, section_names()[i]) by {
        lemma_item_named_insert(items, at, extra, section_names()[i]);
    }
    assert(item_named(longer, "base"@) == item_named(items, "base"@)) by {
        assert(section_names()[0] == "base"@);
    }
    lemma_first_bad_section_same(longer, items, 0);
    assert forall|i: int| 0 <= i < 8 implies section_of(longer, section_names()[i])
        == section_of(items, section_names()[i]) by {}
    assert(Seq::new(8, |i: int| section_of(longer, section_names()[i])) =~= Seq::new(
        8,
        |i: int| section_of(items, section_names()[i]),
    ));
}

/// The error for the recognised item `key` of the wrong shape.
fn malformed(key: &str) -> (e: PaletteError)
    ensures
        e@ == ErrorView::Parse(shape_message(key@)),
{
    let mut message = String::from_str("malformed table: ");
    message.append(key);
    PaletteError::Parse(message)
}

/// Reads a table of strings into a section.
fn read_fields(fields: &Vec<RawField>) -> (r: Option<ManifestSection>)
    ensures
        match r {
            Some(section) => all_text(fields@) && section@ == fields_map(fields@),
            None => !all_text(fields@),
        },
{
    let mut section = ManifestSection::new();
    let mut i: usize = 0;
    assert(section@ =~= fields_map(fields@.take(0)));
    while i < fields.len()
        invariant
            i <= fields@.len(),
            forall|j: int| 0 <= j < i ==> (#[trigger] fields@[j]).text is Some,
            section@ == fields_map(fields@.take(i as int)),
        decreases fields@.len() - i,
    {
        match &fields[i].text {
            None => {
                return None;
            },
            Some(text) => {
                let ghost before = fields@.take(i as int);
                let ghost after = fields@.take(i + 1);
                section.insert(fields[i].name.clone(), text.clone());
                proof {
                    assert(after.drop_last() =~= before);
                    assert(after.last() == fields@[i as int]);
                    assert(fields_map(after) =~= fields_map(before).insert(
                        fields@[i as int].name@,
                        text@,
                    ));
                }
            },
        }
        i += 1;
    }
    assert(fields@.take(i as int) =~= fields@);
    Some(section)
}

/// Reads the section `name` of a document.
fn read_section(items: &Vec<RawItem>, name: &str) -> (r: Result<ManifestSection, PaletteError>)
    ensures
        match r {
            Ok(section) => section_ok(items@, name@) && section@ == section_of(items@, name@),
            Err(e) => !section_ok(items@, name@) && e@ == ErrorView::Parse(shape_message(name@)),
        },
{
    match find_item(items, name) {
        None => Ok(ManifestSection::new()),
        Some(item) => match &item.fields {
            None => Err(malformed(name)),
            Some(fields) => match read_fields(fields) {
                Some(section) => Ok(section),
                None => Err(malformed(name)),
            },
        },
    }
}

/// The text of the field `name`, where the table has it as a string.
fn read_text(fields: &Vec<RawField>, name: &str) -> (r: Option<String>)
    ensures
        text_view(r) == field_text(fields@, name@),
{
    match find_field(fields, name) {
        Some(field) => clone_text(&field.text),
        None => None,
    }
}

/// Reads a table as a meta.
fn read_meta_fields(fields: &Vec<RawField>) -> (r: Option<PaletteMeta>)
    ensures
        match r {
            Some(meta) => meta_fields_ok(fields@) && meta@ == meta_from_fields(fields@),
            None => !meta_fields_ok(fields@),
        },
{
    let name = read_text(fields, "name");
    let preset_id = read_text(fields, "preset_id");
    let schema_version = read_text(fields, "schema_version");
    let style = read_text(fields, "style");
    let kind = read_text(fields, "kind");
    let upstream_repo = read_text(fields, "upstream_repo");
    let inherits = read_text(fields, "inherits");
    if upstream_repo.is_none() && find_field(fields, "upstream_repo").is_some() {
        return None;
    }
    if inherits.is_none() && find_field(fields, "inherits").is_some() {
        return None;
    }
    match (name, preset_id, schema_version, style, kind) {
        (Some(name), Some(preset_id), Some(schema_version), Some(style), Some(kind)) => Some(
            PaletteMeta { name, preset_id, schema_version, style, kind, upstream_repo, inherits },
        ),
        _ => None,
    }
}

/// Reads the meta of a document.
fn read_meta(items: &Vec<RawItem>) -> (r: Result<Option<PaletteMeta>, PaletteError>)
    ensures
        match r {
            Ok(meta) => meta_ok(items@) && meta_view(meta) == meta_of(items@),
            Err(e) => !meta_ok(items@) && e@ == ErrorView::Parse(shape_message("meta"@)),
        },
{
    match find_item(items, "meta") {
        None => Ok(None),
        Some(item) => match &item.fields {
            None => Err(malformed("meta")),
            Some(fields) => match read_meta_fields(fields) {
                Some(meta) => Ok(Some(meta)),
                None => Err(malformed("meta")),
            },
        },
    }
}

impl PaletteManifest {
    /// Resolves a parsed document into a manifest.
    pub fn from_document(doc: &RawDocument) -> (r: Result<PaletteManifest, PaletteError>)
        ensures
            result_view(r) == manifest_of(doc.items@),
    {
        let items = &doc.items;
        proof {
            reveal_with_fuel(first_bad_section, 9);
        }
        if find_item(items, "base").is_none() {
            return Err(PaletteError::MissingBase);
        }
        let meta = match read_meta(items) {
            Ok(meta) => meta,
            Err(e) => {
                return Err(e);
            },
        };
        let base = match read_section(items, "base") {
            Ok(section) => section,
            Err(e) => {
                return Err(e);
            },
        };
        let semantic = match read_section(items, "semantic") {
            Ok(section) => section,
            Err(e) => {
                return Err(e);
            },
        };
        let diff = match read_section(items, "diff") {
            Ok(section) => section,
            Err(e) => {
                return Err(e);
            },
        };
        let surface = match read_section(items, "surface") {
            Ok(section) => section,
            Err(e) => {
                return Err(e);
            },
        };
        let typography = match read_section(items, "typography") {
            Ok(section) => section,
            Err(e) => {
                return Err(e);
            },
        };
        let syntax = match read_section(items, "syntax") {
            Ok(section) => section,
            Err(e) => {
                return Err(e);
            },
        };
        let editor = match read_section(items, "editor") {
            Ok(section) => section,
            Err(e) => {
                return Err(e);
            },
        };
        let terminal = match read_section(items, "terminal") {
            Ok(section) => section,
            Err(e) => {
                return Err(e);
            },
        };
        let manifest = PaletteManifest {
            meta,
            base,
            semantic,
            diff,
            surface,
            typography,
            syntax,
            editor,
            terminal,
        };
        assert(manifest@.sections =~= Seq::new(
            8,
            |i: int| section_of(items@, section_names()[i]),
        ));
        Ok(manifest)
    }

    /// Parses a theme document. Keys at the top level other than `meta` and
    /// the eight section names are ignored; no colour is looked at.
    pub fn from_toml(text: &str) -> (r: Result<PaletteManifest, PaletteError>)
        ensures
            result_view(r) == manifest_of_text(text@),
    {
        match read_document(text) {
            Ok(doc) => PaletteManifest::from_document(&doc),
            Err(message) => Err(PaletteError::Parse(message)),
        }
    }

    /// The identifier of the parent, where the manifest is a variant.
    pub fn inherits_from<'a>(&'a self) -> (r: Option<&'a str>)
        ensures
            match r {
                Some(parent) => self@.parent() == Some(parent@),
                None => self@.parent() is None,
            },
    {
        match &self.meta {
            Some(meta) => match &meta.inherits {
                Some(parent) => if parent.as_str().is_empty() {
                    None
                } else {
                    Some(parent.as_str())
                },
                None => None,
            },
            None => None,
        }
    }
}

} // verus!
