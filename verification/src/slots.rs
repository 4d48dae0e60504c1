//! Reading the slots of one group out of one section, and listing the slots
//! that are set.

use vstd::prelude::*;
use vstd::string::*;
use crate::color::{parse_hex_spec, Color};
use crate::error::{ErrorView, PaletteError};
use crate::section::ManifestSection;

verus! {

/// The characters of each name of a list.
pub open spec fn names_view(names: Seq<&'static str>) -> Seq<Seq<char>> {
    Seq::new(names.len(), |i: int| names[i]@)
}

/// The colour of the slot `name`: unset where the section lacks the key.
pub open spec fn slot_of(section: Map<Seq<char>, Seq<char>>, name: Seq<char>) -> Option<Color> {
    if section.contains_key(name) {
        parse_hex_spec(section[name])
    } else {
        None
    }
}

/// Whether the section has a text for the slot `name` that is no colour.
pub open spec fn slot_invalid(section: Map<Seq<char>, Seq<char>>, name: Seq<char>) -> bool {
    section.contains_key(name) && parse_hex_spec(section[name]) is None
}

/// The first slot from place `from` on, in the order of `names`, whose text
/// is no colour.
pub open spec fn first_invalid(
    section: Map<Seq<char>, Seq<char>>,
    names: Seq<Seq<char>>,
    from: int,
) -> Option<int>
    decreases names.len() - from,
{
    if from < 0 || from >= names.len() {
        None
    } else if slot_invalid(section, names[from]) {
        Some(from)
    } else {
        first_invalid(section, names, from + 1)
    }
}

/// The slots of a group, in the order of `names`.
pub open spec fn group_slots(section: Map<Seq<char>, Seq<char>>, names: Seq<Seq<char>>) -> Seq<
    Option<Color>,
> {
    Seq::new(names.len(), |i: int| slot_of(section, names[i]))
}

/// What one section resolves to: the slots of its group; or, where a slot's
/// text is no colour, the error that names the section, the first such slot
/// and its text. Keys of the section that name no slot are not looked at.
pub open spec fn group_of(
    section: Map<Seq<char>, Seq<char>>,
    section_name: Seq<char>,
    names: Seq<Seq<char>>,
) -> Result<Seq<Option<Color>>, ErrorView> {
    match first_invalid(section, names, 0) {
        Some(i) => Err(
            ErrorView::InvalidHex {
                section: section_name,
                field: names[i],
                value: section[names[i]],
            },
        ),
        None => Ok(group_slots(section, names)),
    }
}

/// The set slots of a group with their names, in the order of `names`.
pub open spec fn populated(names: Seq<Seq<char>>, slots: Seq<Option<Color>>) -> Seq<
    (Seq<char>, Color),
>
    decreases slots.len(),
{
    if slots.len() == 0 || names.len() != slots.len() {
        Seq::empty()
    } else {
        let front = populated(names.drop_last(), slots.drop_last());
        match slots.last() {
            Some(c) => front.push((names.last(), c)),
            None => front,
        }
    }
}

/// The number of set slots.
pub open spec fn set_count(slots: Seq<Option<Color>>) -> nat
    decreases slots.len(),
{
    if slots.len() == 0 {
        0
    } else {
        set_count(slots.drop_last()) + if slots.last() is Some {
            1nat
        } else {
            0nat
        }
    }
}

/// The characters of each name of a list of named colours.
pub open spec fn named_view(pairs: Seq<(&'static str, Color)>) -> Seq<(Seq<char>, Color)> {
    Seq::new(pairs.len(), |i: int| (pairs[i].0@, pairs[i].1))
}

/// As many slots are listed as are set.
pub proof fn lemma_populated_count(names: Seq<Seq<char>>, slots: Seq<Option<Color>>)
    requires
        names.len() == slots.len(),
    ensures
        populated(names, slots).len() == set_count(slots),
    decreases slots.len(),
{
    if slots.len() > 0 {
        lemma_populated_count(names.drop_last(), slots.drop_last());
    }
}

/// Reads the slots `names` out of `section`, in their order, and stops at
/// the first text that is no colour.
pub fn resolve_slots(
    section: &ManifestSection,
    section_name: &str,
    names: &Vec<&'static str>,
) -> (r: Result<Vec<Option<Color>>, PaletteError>)
    ensures
        match r {
            Ok(slots) => group_of(section@, section_name@, names_view(names@)) == Ok::<
                Seq<Option<Color>>,
                ErrorView,
            >(slots@),
            Err(e) => group_of(section@, section_name@, names_view(names@)) == Err::<
                Seq<Option<Color>>,
                ErrorView,
            >(e@),
        },
{
    let ghost nv = names_view(names@);
    let mut slots: Vec<Option<Color>> = Vec::new();
    let mut i: usize = 0;
    while i < names.len()
        invariant
            i <= names@.len(),
            nv == names_view(names@),
            first_invalid(section@, nv, 0) == first_invalid(section@, nv, i as int),
            slots@.len() == i,
            forall|j: int| 0 <= j < i ==> slots@[j] == slot_of(section@, nv[j]),
        decreases names@.len() - i,
    {
        let name: &'static str = names[i];
        assert(nv[i as int] == name@);
        match section.get(name) {
            None => {
                slots.push(None);
            },
            Some(text) => match Color::parse_hex(text) {
                Ok(color) => {
                    slots.push(Some(color));
                },
                Err(_) => {
                    return Err(
                        PaletteError::InvalidHex {
                            section: section_name.to_owned(),
                            field: name.to_owned(),
                            value: text.to_owned(),
                        },
                    );
                },
            },
        }
        i += 1;
    }
    assert(slots@ =~= group_slots(section@, nv));
    Ok(slots)
}

/// Lists the set slots with their names, in the order of `names`. Nothing is
/// listed where the two lists differ in length.
pub fn populated_of(names: &Vec<&'static str>, slots: &Vec<Option<Color>>) -> (r: Vec<
    (&'static str, Color),
>)
    ensures
        named_view(r@) == populated(names_view(names@), slots@),
{
    let ghost nv = names_view(names@);
    let mut out: Vec<(&'static str, Color)> = Vec::new();
    if names.len() != slots.len() {
        assert(named_view(out@) =~= populated(nv, slots@));
        return out;
    }
    let mut i: usize = 0;
    assert(named_view(out@) =~= populated(nv.take(0), slots@.take(0)));
    while i < slots.len()
        invariant
            i <= slots@.len(),
            names@.len() == slots@.len(),
            nv == names_view(names@),
            named_view(out@) == populated(nv.take(i as int), slots@.take(i as int)),
        decreases slots@.len() - i,
    {
        let ghost before = named_view(out@);
        proof {
            assert(nv.take(i + 1).drop_last() =~= nv.take(i as int));
            assert(slots@.take(i + 1).drop_last() =~= slots@.take(i as int));
            assert(nv.take(i + 1).last() == names@[i as int]@);
        }
        match slots[i] {
            Some(color) => {
                out.push((names[i], color));
                assert(named_view(out@) =~= before.push((names@[i as int]@, color)));
            },
            None => {},
        }
        i += 1;
    }
    assert(nv.take(i as int) =~= nv);
    assert(slots@.take(i as int) =~= slots@);
    out
}

} // verus!
