//! What a theme document says of itself.

use vstd::prelude::*;
use vstd::string::*;

verus! {

/// The identity of a theme: its names and labels, and the parent that it
/// inherits from, if it is a variant.
#[derive(Debug)]
pub struct PaletteMeta {
    pub name: String,
    pub preset_id: String,
    pub schema_version: String,
    pub style: String,
    pub kind: String,
    pub upstream_repo: Option<String>,
    pub inherits: Option<String>,
}

/// The characters of a [`PaletteMeta`].
pub struct MetaView {
    pub name: Seq<char>,
    pub preset_id: Seq<char>,
    pub schema_version: Seq<char>,
    pub style: Seq<char>,
    pub kind: Seq<char>,
    pub upstream_repo: Option<Seq<char>>,
    pub inherits: Option<Seq<char>>,
}

/// The characters of an optional text.
pub open spec fn text_view(text: Option<String>) -> Option<Seq<char>> {
    match text {
        Some(t) => Some(t@),
        None => None,
    }
}

/// The characters of an optional meta.
pub open spec fn meta_view(meta: Option<PaletteMeta>) -> Option<MetaView> {
    match meta {
        Some(m) => Some(m@),
        None => None,
    }
}

impl View for PaletteMeta {
    type V = MetaView;

    open spec fn view(&self) -> MetaView {
        MetaView {
            name: self.name@,
            preset_id: self.preset_id@,
            schema_version: self.schema_version@,
            style: self.style@,
            kind: self.kind@,
            upstream_repo: text_view(self.upstream_repo),
            inherits: text_view(self.inherits),
        }
    }
}

impl MetaView {
    /// The parent that the theme names, where it names one that is not empty.
    pub open spec fn parent(self) -> Option<Seq<char>> {
        match self.inherits {
            Some(p) => if p.len() > 0 {
                Some(p)
            } else {
                None
            },
            None => None,
        }
    }
}

/// A copy of an optional text.
pub fn clone_text(text: &Option<String>) -> (r: Option<String>)
    ensures
        text_view(r) == text_view(*text),
{
    match text {
        Some(t) => Some(t.clone()),
        None => None,
    }
}

impl Clone for PaletteMeta {
    /// A copy with the same characters in every field.
    fn clone(&self) -> (r: Self)
        ensures
            r@ == self@,
    {
        PaletteMeta {
            name: self.name.clone(),
            preset_id: self.preset_id.clone(),
            schema_version: self.schema_version.clone(),
            style: self.style.clone(),
            kind: self.kind.clone(),
            upstream_repo: clone_text(&self.upstream_repo),
            inherits: clone_text(&self.inherits),
        }
    }
}

/// A copy of an optional meta.
pub fn clone_meta(meta: &Option<PaletteMeta>) -> (r: Option<PaletteMeta>)
    ensures
        meta_view(r) == meta_view(*meta),
{
    match meta {
        Some(m) => Some(m.clone()),
        None => None,
    }
}

} // verus!
