//! The shape of a parsed document: its top-level items, and the text fields
//! of those that are tables.

use vstd::prelude::*;
use vstd::string::*;
use crate::text::same_text;

verus! {

/// One entry of a table: its name, and its text where its value is a string.
#[derive(Debug)]
pub struct RawField {
    pub name: String,
    pub text: Option<String>,
}

/// One top-level item: its key, and its fields where its value is a table.
#[derive(Debug)]
pub struct RawItem {
    pub key: String,
    pub fields: Option<Vec<RawField>>,
}

/// The top level of a parsed document. Where a key occurs more than once,
/// its last occurrence counts.
#[derive(Debug)]
pub struct RawDocument {
    pub items: Vec<RawItem>,
}

/// What `toml::from_str` makes of a text: the items of the top-level table,
/// or the message of the error with which it refuses the text.
pub uninterp spec fn toml_document(text: Seq<char>) -> Result<Seq<RawItem>, Seq<char>>;

/// Parses a TOML text with `toml::from_str` into a `toml::Table`.
///
/// Trusted: the outcome is the one that [`toml_document`] names for the
/// characters of `text`. On success the items are the entries of the
/// top-level table as `Map::iter` walks them; `fields` is filled where
/// `Value::as_table` gives a table, and `text` where `Value::as_str` gives a
/// string. On failure the message is the error's `Display` text.
#[verifier::external_body]
pub(crate) fn read_document(text: &str) -> (r: Result<RawDocument, String>)
    ensures
        match r {
            Ok(doc) => toml_document(text@) == Ok::<Seq<RawItem>, Seq<char>>(doc.items@),
            Err(message) => toml_document(text@) == Err::<Seq<RawItem>, Seq<char>>(message@),
        },
{
    let table = toml::from_str::<toml::Table>(text).map_err(|e| e.to_string())?;
    let items = table.iter().map(|(key, value)| RawItem {
        key: key.clone(),
        fields: value.as_table().map(|t| t.iter().map(|(name, v)| RawField {
            name: name.clone(),
            text: v.as_str().map(String::from),
        }).collect()),
    }).collect();
    Ok(RawDocument { items })
}

/// The last item of `items` with the key `key`.
pub open spec fn item_named(items: Seq<RawItem>, key: Seq<char>) -> Option<RawItem>
    decreases items.len(),
{
    if items.len() == 0 {
        None
    } else if items.last().key@ == key {
        Some(items.last())
    } else {
        item_named(items.drop_last(), key)
    }
}

/// The last field of `fields` with the name `name`.
pub open spec fn field_named(fields: Seq<RawField>, name: Seq<char>) -> Option<RawField>
    decreases fields.len(),
{
    if fields.len() == 0 {
        None
    } else if fields.last().name@ == name {
        Some(fields.last())
    } else {
        field_named(fields.drop_last(), name)
    }
}

/// Finds the last item with the key `key`.
pub fn find_item<'a>(items: &'a Vec<RawItem>, key: &str) -> (r: Option<&'a RawItem>)
    ensures
        match r {
            Some(item) => item_named(items@, key@) == Some(*item),
            None => item_named(items@, key@) is None,
        },
{
    let mut i = items.len();
    assert(items@.take(i as int) =~= items@);
    while i > 0
        invariant
            i <= items@.len(),
            item_named(items@, key@) == item_named(items@.take(i as int), key@),
        decreases i,
    {
        i -= 1;
        assert(items@.take(i + 1).drop_last() =~= items@.take(i as int));
        if same_text(items[i].key.as_str(), key) {
            return Some(&items[i]);
        }
    }
    None
}

/// Finds the last field with the name `name`.
pub fn find_field<'a>(fields: &'a Vec<RawField>, name: &str) -> (r: Option<&'a RawField>)
    ensures
        match r {
            Some(field) => field_named(fields@, name@) == Some(*field),
            None => field_named(fields@, name@) is None,
        },
{
    let mut i = fields.len();
    assert(fields@.take(i as int) =~= fields@);
    while i > 0
        invariant
            i <= fields@.len(),
            field_named(fields@, name@) == field_named(fields@.take(i as int), name@),
        decreases i,
    {
        i -= 1;
        assert(fields@.take(i + 1).drop_last() =~= fields@.take(i as int));
        if same_text(fields[i].name.as_str(), name) {
            return Some(&fields[i]);
        }
    }
    None
}

} // verus!
