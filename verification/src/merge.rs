//! Merging a variant manifest over the manifest of its parent.

use vstd::prelude::*;
use vstd::string::*;
use crate::manifest::{ManifestView, PaletteManifest};
use crate::meta::clone_meta;
use crate::section::ManifestSection;

verus! {

/// One section merged: every entry of the variant, and of the base those
/// whose key the variant lacks.
pub open spec fn merged_section(
    variant: Map<Seq<char>, Seq<char>>,
    base: Map<Seq<char>, Seq<char>>,
) -> Map<Seq<char>, Seq<char>> {
    base.union_prefer_right(variant)
}

/// A variant merged over its base: the meta of the variant, and each of the
/// eight sections merged by itself. One level of inheritance, no more.
pub open spec fn merged(variant: ManifestView, base: ManifestView) -> ManifestView {
    ManifestView {
        meta: variant.meta,
        sections: Seq::new(
            8,
            |i: int| merged_section(variant.sections[i], base.sections[i]),
        ),
    }
}

/// Precedence: in every section a key of the variant keeps the variant's
/// value; a key that only the base has gets the base's value; a key that
/// neither has is absent.
pub proof fn lemma_merge_precedence(
    variant: ManifestView,
    base: ManifestView,
    section: int,
    key: Seq<char>,
)
    requires
        0 <= section < 8,
    ensures
        ({
            let v = variant.sections[section];
            let b = base.sections[section];
            let m = merged(variant, base).sections[section];
            &&& v.contains_key(key) ==> m.contains_key(key) && m[key] == v[key]
            &&& !v.contains_key(key) && b.contains_key(key) ==> m.contains_key(key) && m[key]
                == b[key]
            &&& !v.contains_key(key) && !b.contains_key(key) ==> !m.contains_key(key)
        }),
{
}

/// The meta of the outcome is the variant's, whatever the base says of
/// itself.
pub proof fn lemma_merge_meta(variant: ManifestView, base: ManifestView)
    ensures
        merged(variant, base).meta == variant.meta,
        merged(variant, base).sections.len() == 8,
{
}

/// Merging over a base whose sections are all empty leaves the sections of
/// the variant as they are.
pub proof fn lemma_merge_empty_base(variant: ManifestView, base: ManifestView)
    requires
        variant.sections.len() == 8,
        forall|i: int| 0 <= i < 8 ==> base.sections[i] == Map::<Seq<char>, Seq<char>>::empty(),
    ensures
        merged(variant, base) == variant,
{
    assert forall|i: int| 0 <= i < 8 implies merged(variant, base).sections[i]
        == variant.sections[i] by {
        assert(merged_section(variant.sections[i], base.sections[i]) =~= variant.sections[i]);
    }
    assert(merged(variant, base).sections =~= variant.sections);
}

/// Merges one section: starts from a copy of `primary`, and adds every
/// entry of `fallback` whose key the copy lacks.
fn merge_sections(primary: &ManifestSection, fallback: &ManifestSection) -> (merged: ManifestSection)
    ensures
        merged@ == merged_section(primary@, fallback@),
{
    let mut merged = primary.clone();
    let n = fallback.len();
    let mut i: usize = 0;
    let ghost keys = fallback.keys();
    let ghost values = fallback.values();
    assert(merged@ =~= Map::new(
        |k: Seq<char>| primary@.contains_key(k) || keys.take(0).contains(k),
        |k: Seq<char>|
            if primary@.contains_key(k) {
                primary@[k]
            } else {
                fallback@[k]
            },
    ));
    while i < n
        invariant
            i <= n,
            n == keys.len(),
            keys == fallback.keys(),
            values == fallback.values(),
            merged@ == Map::new(
                |k: Seq<char>| primary@.contains_key(k) || keys.take(i as int).contains(k),
                |k: Seq<char>|
                    if primary@.contains_key(k) {
                        primary@[k]
                    } else {
                        fallback@[k]
                    },
            ),
        decreases n - i,
    {
        let ghost before = merged@;
        match fallback.entry_at(i) {
            Some((key, value)) => {
                if !merged.contains_key(key) {
                    merged.insert(key.to_owned(), value.to_owned());
                }
                proof {
                    let k0 = keys[i as int];
                    assert(keys.take(i + 1) =~= keys.take(i as int).push(k0));
                    assert forall|k: Seq<char>| keys.take(i + 1).contains(k) <==> (k == k0
                        || keys.take(i as int).contains(k)) by {
                        if keys.take(i as int).contains(k) {
                            let j = choose|j: int|
                                0 <= j < keys.take(i as int).len() && keys.take(i as int)[j] == k;
                            assert(keys.take(i + 1)[j] == k);
                        }
                        if k == k0 {
                            assert(keys.take(i + 1)[i as int] == k);
                        }
                    }
                    assert(merged@ =~= Map::new(
                        |k: Seq<char>| primary@.contains_key(k) || keys.take(i + 1).contains(k),
                        |k: Seq<char>|
                            if primary@.contains_key(k) {
                                primary@[k]
                            } else {
                                fallback@[k]
                            },
                    ));
                }
            },
            None => {},
        }
        i += 1;
    }
    proof {
        assert(keys.take(n as int) =~= keys);
        assert(merged@ =~= merged_section(primary@, fallback@));
    }
    merged
}

/// Merges `variant` over `base`: the variant's meta, and in each section
/// the variant's entries filled up from the base. Neither manifest changes.
pub fn merge_manifests(variant: &PaletteManifest, base: &PaletteManifest) -> (r: PaletteManifest)
    ensures
        r@ == merged(variant@, base@),
{
    let r = PaletteManifest {
        meta: clone_meta(&variant.meta),
        base: merge_sections(&variant.base, &base.base),
        semantic: merge_sections(&variant.semantic, &base.semantic),
        diff: merge_sections(&variant.diff, &base.diff),
        surface: merge_sections(&variant.surface, &base.surface),
        typography: merge_sections(&variant.typography, &base.typography),
        syntax: merge_sections(&variant.syntax, &base.syntax),
        editor: merge_sections(&variant.editor, &base.editor),
        terminal: merge_sections(&variant.terminal, &base.terminal),
    };
    assert(r@.sections =~= merged(variant@, base@).sections);
    r
}

} // verus!
