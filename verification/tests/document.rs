use palette_core::document::{find_field, find_item, RawDocument, RawField, RawItem};
use palette_core::error::PaletteError;
use palette_core::manifest::PaletteManifest;

fn text(name: &str, value: &str) -> RawField {
    RawField { name: name.to_string(), text: Some(value.to_string()) }
}

fn other(name: &str) -> RawField {
    RawField { name: name.to_string(), text: None }
}

fn table(key: &str, fields: Vec<RawField>) -> RawItem {
    RawItem { key: key.to_string(), fields: Some(fields) }
}

fn scalar(key: &str) -> RawItem {
    RawItem { key: key.to_string(), fields: None }
}

#[test]
fn document_without_base_is_refused() {
    let doc = RawDocument { items: vec![scalar("git"), table("semantic", vec![other("x")])] };
    assert!(matches!(PaletteManifest::from_document(&doc), Err(PaletteError::MissingBase)));
    let doc = RawDocument { items: vec![] };
    assert!(matches!(PaletteManifest::from_document(&doc), Err(PaletteError::MissingBase)));
}

#[test]
fn document_with_sections_gives_a_manifest() {
    let doc = RawDocument {
        items: vec![
            table("terminal", vec![text("red", "#f00"), text("black", "#000")]),
            scalar("title"),
            table("base", vec![text("background", "anything")]),
            table("git", vec![other("add")]),
        ],
    };
    let manifest = PaletteManifest::from_document(&doc).unwrap();
    assert!(manifest.meta.is_none());
    assert_eq!(manifest.base.len(), 1);
    assert_eq!(manifest.base.get("background"), Some("anything"));
    assert_eq!(manifest.terminal.len(), 2);
    assert_eq!(manifest.terminal.entry_at(0), Some(("black", "#000")));
    assert_eq!(manifest.terminal.entry_at(1), Some(("red", "#f00")));
    assert!(manifest.semantic.is_empty());
}

#[test]
fn last_occurrence_of_a_key_counts() {
    let doc = RawDocument {
        items: vec![
            scalar("base"),
            table("base", vec![text("border", "#111"), text("border", "#222")]),
        ],
    };
    let manifest = PaletteManifest::from_document(&doc).unwrap();
    assert_eq!(manifest.base.len(), 1);
    assert_eq!(manifest.base.get("border"), Some("#222"));

    let doc = RawDocument { items: vec![table("base", vec![]), scalar("base")] };
    match PaletteManifest::from_document(&doc) {
        Err(PaletteError::Parse(message)) => assert_eq!(message, "malformed table: base"),
        other => panic!("expected a parse error, got {other:?}"),
    }
}

#[test]
fn meta_is_read_field_by_field() {
    let fields = vec![
        text("kind", "preset-variant"),
        text("name", "N"),
        other("tags"),
        text("style", "dark"),
        text("schema_version", "1"),
        text("preset_id", "n"),
        text("inherits", "parent"),
    ];
    let doc = RawDocument { items: vec![table("meta", fields), table("base", vec![])] };
    let manifest = PaletteManifest::from_document(&doc).unwrap();
    let meta = manifest.meta.as_ref().unwrap();
    assert_eq!(meta.name, "N");
    assert_eq!(meta.preset_id, "n");
    assert_eq!(meta.schema_version, "1");
    assert_eq!(meta.style, "dark");
    assert_eq!(meta.kind, "preset-variant");
    assert_eq!(meta.upstream_repo, None);
    assert_eq!(meta.inherits.as_deref(), Some("parent"));
    assert_eq!(manifest.inherits_from(), Some("parent"));
}

#[test]
fn meta_that_is_no_table_is_malformed() {
    let doc = RawDocument { items: vec![scalar("meta"), table("base", vec![])] };
    match PaletteManifest::from_document(&doc) {
        Err(PaletteError::Parse(message)) => assert_eq!(message, "malformed table: meta"),
        other => panic!("expected a parse error, got {other:?}"),
    }
}

#[test]
fn find_item_and_field_take_the_last_match() {
    let items = vec![scalar("a"), table("b", vec![]), scalar("b"), scalar("c")];
    assert!(find_item(&items, "b").unwrap().fields.is_none());
    assert!(find_item(&items, "a").is_some());
    assert!(find_item(&items, "d").is_none());
    let fields = vec![text("x", "1"), other("y"), text("x", "2")];
    assert_eq!(find_field(&fields, "x").unwrap().text.as_deref(), Some("2"));
    assert!(find_field(&fields, "y").unwrap().text.is_none());
    assert!(find_field(&fields, "z").is_none());
}
