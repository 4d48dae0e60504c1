//! The resolved theme: every slot of every group is a validated colour or
//! is unset.

use vstd::prelude::*;
use vstd::string::*;
use crate::color::Color;
use crate::error::{result_view, ErrorView, PaletteError};
use crate::groups::{
    BaseColors, DiffColors, EditorColors, SemanticColors, SurfaceColors, SyntaxColors,
    TerminalAnsiColors, TypographyColors,
};
use crate::manifest::{section_names, ManifestView, PaletteManifest};
use crate::meta::{clone_meta, meta_view, MetaView};
use crate::slots::{
    first_invalid, group_of, group_slots, lemma_populated_count, populated, set_count,
    slot_invalid,
};

pub use crate::meta::PaletteMeta;

verus! {

/// The names of the slots of group number `group`, in their fixed order. The
/// groups are numbered as the sections that they are read from.
pub open spec fn group_names(group: int) -> Seq<Seq<char>> {
    if group == 0 {
        BaseColors::names()
    } else if group == 1 {
        SemanticColors::names()
    } else if group == 2 {
        DiffColors::names()
    } else if group == 3 {
        SurfaceColors::names()
    } else if group == 4 {
        TypographyColors::names()
    } else if group == 5 {
        SyntaxColors::names()
    } else if group == 6 {
        EditorColors::names()
    } else {
        TerminalAnsiColors::names()
    }
}

/// A validated theme. It is made once from a manifest and never changes.
#[derive(Debug)]
pub struct Palette {
    pub meta: Option<PaletteMeta>,
    pub base: BaseColors,
    pub semantic: SemanticColors,
    pub diff: DiffColors,
    pub surface: SurfaceColors,
    pub typography: TypographyColors,
    pub syntax: SyntaxColors,
    pub editor: EditorColors,
    pub terminal_ansi: TerminalAnsiColors,
}

/// A palette as mathematics: its meta, and the slots of its eight groups,
/// each group in the order of its names.
pub struct PaletteView {
    pub meta: Option<MetaView>,
    pub groups: Seq<Seq<Option<Color>>>,
}

impl PaletteView {
    /// Whether there are eight groups, each with one slot for each name.
    pub open spec fn well_formed(self) -> bool {
        &&& self.groups.len() == 8
        &&& forall|g: int| 0 <= g < 8 ==> (#[trigger] self.groups[g]).len() == group_names(g).len()
    }

    /// The number of slots that the groups list as set, from group `from` on.
    pub open spec fn populated_from(self, from: int) -> nat
        decreases 8 - from,
    {
        if from < 0 || from >= 8 {
            0
        } else {
            populated(group_names(from), self.groups[from]).len() + self.populated_from(from + 1)
        }
    }

    /// The number of set slots, from group `from` on.
    pub open spec fn set_from(self, from: int) -> nat
        decreases 8 - from,
    {
        if from < 0 || from >= 8 {
            0
        } else {
            set_count(self.groups[from]) + self.set_from(from + 1)
        }
    }

    /// The number of slots that the eight groups list as set.
    pub open spec fn populated_total(self) -> nat {
        self.populated_from(0)
    }

    /// The number of set slots in the palette.
    pub open spec fn set_total(self) -> nat {
        self.set_from(0)
    }
}

impl View for Palette {
    type V = PaletteView;

    open spec fn view(&self) -> PaletteView {
        PaletteView {
            meta: meta_view(self.meta),
            groups: seq![
                self.base.slots(),
                self.semantic.slots(),
                self.diff.slots(),
                self.surface.slots(),
                self.typography.slots(),
                self.syntax.slots(),
                self.editor.slots(),
                self.terminal_ansi.slots(),
            ],
        }
    }
}

impl Clone for Palette {
    /// A copy with the same meta and the same slots.
    fn clone(&self) -> (r: Self)
        ensures
            r@ == self@,
    {
        Palette {
            meta: clone_meta(&self.meta),
            base: self.base,
            semantic: self.semantic,
            diff: self.diff,
            surface: self.surface,
            typography: self.typography,
            syntax: self.syntax,
            editor: self.editor,
            terminal_ansi: self.terminal_ansi,
        }
    }
}

/// What section number `group` of a manifest resolves to.
pub open spec fn group_result(m: ManifestView, group: int) -> Result<
    Seq<Option<Color>>,
    ErrorView,
> {
    group_of(m.sections[group], section_names()[group], group_names(group))
}

/// The error of the first group, from number `from` on, that has a slot
/// whose text is no colour.
pub open spec fn first_group_error(m: ManifestView, from: int) -> Option<ErrorView>
    decreases 8 - from,
{
    if from < 0 || from >= 8 {
        None
    } else {
        match group_result(m, from) {
            Err(e) => Some(e),
            Ok(_) => first_group_error(m, from + 1),
        }
    }
}

/// What a manifest resolves to: the palette of its slots with its meta; or,
/// where the text of a slot is no colour, the error of the first such slot,
/// the groups taken in their order and the slots in theirs.
pub open spec fn palette_of(m: ManifestView) -> Result<PaletteView, ErrorView> {
    match first_group_error(m, 0) {
        Some(e) => Err(e),
        None => Ok(
            PaletteView {
                meta: m.meta,
                groups: Seq::new(8, |g: int| group_slots(m.sections[g], group_names(g))),
            },
        ),
    }
}

/// A text that is no colour fails the whole manifest: the error names the
/// section and the slot of such a text and carries the text, and it is the
/// first of them in the order of the groups and their slots.
pub proof fn lemma_invalid_color_fails(m: ManifestView, group: int, slot: int)
    requires
        0 <= group < 8,
        0 <= slot < group_names(group).len(),
        slot_invalid(m.sections[group], group_names(group)[slot]),
    ensures
        palette_of(m) is Err,
        exists|g: int, i: int|
            {
                &&& 0 <= g <= group
                &&& 0 <= i < group_names(g).len()
                &&& g == group ==> i <= slot
                &&& slot_invalid(m.sections[g], #[trigger] group_names(g)[i])
                &&& palette_of(m) == Err::<PaletteView, ErrorView>(
                    ErrorView::InvalidHex {
                        section: section_names()[g],
                        field: group_names(g)[i],
                        value: m.sections[g][group_names(g)[i]],
                    },
                )
            },
{
    lemma_first_group_error(m, 0, group, slot);
}

/// The first invalid slot from `from` on is found at or before any invalid
/// slot, and is itself invalid.
proof fn lemma_first_invalid(
    section: Map<Seq<char>, Seq<char>>,
    names: Seq<Seq<char>>,
    from: int,
    slot: int,
)
    requires
        0 <= from <= slot < names.len(),
        slot_invalid(section, names[slot]),
    ensures
        first_invalid(section, names, from) matches Some(i) && from <= i <= slot && slot_invalid(
            section,
            names[i],
        ),
    decreases slot - from,
{
    if !slot_invalid(section, names[from]) {
        lemma_first_invalid(section, names, from + 1, slot);
    }
}

/// The first invalid slot, where there is one, is a slot and is invalid.
proof fn lemma_first_invalid_is_invalid(
    section: Map<Seq<char>, Seq<char>>,
    names: Seq<Seq<char>>,
    from: int,
)
    requires
        0 <= from,
        first_invalid(section, names, from) is Some,
    ensures
        first_invalid(section, names, from) matches Some(i) && from <= i < names.len()
            && slot_invalid(section, names[i]),
    decreases names.len() - from,
{
    if from < names.len() && !slot_invalid(section, names[from]) {
        lemma_first_invalid_is_invalid(section, names, from + 1);
    }
}

proof fn lemma_first_group_error(m: ManifestView, from: int, group: int, slot: int)
    requires
        0 <= from <= group < 8,
        0 <= slot < group_names(group).len(),
        slot_invalid(m.sections[group], group_names(group)[slot]),
    ensures
        first_group_error(m, from) is Some,
        exists|g: int, i: int|
            {
                &&& from <= g <= group
                &&& 0 <= i < group_names(g).len()
                &&& g == group ==> i <= slot
                &&& slot_invalid(m.sections[g], #[trigger] group_names(g)[i])
                &&& first_group_error(m, from) == Some(
                    ErrorView::InvalidHex {
                        section: section_names()[g],
                        field: group_names(g)[i],
                        value: m.sections[g][group_names(g)[i]],
                    },
                )
            },
    decreases group - from,
{
    let section = m.sections[from];
    let names = group_names(from);
    match first_invalid(section, names, 0) {
        Some(i) => {
            lemma_first_invalid_is_invalid(section, names, 0);
            if from == group {
                lemma_first_invalid(section, names, 0, slot);
            }
            assert(slot_invalid(m.sections[from], group_names(from)[i]));
        },
        None => {
            if from == group {
                lemma_first_invalid(section, names, 0, slot);
            } else {
                lemma_first_group_error(m, from + 1, group, slot);
            }
        },
    }
}

/// No group reports an error where no slot is invalid.
proof fn lemma_no_group_error(m: ManifestView, from: int)
    requires
        0 <= from,
        forall|g: int, i: int|
            0 <= g < 8 && 0 <= i < group_names(g).len() ==> !slot_invalid(
                m.sections[g],
                #[trigger] group_names(g)[i],
            ),
    ensures
        first_group_error(m, from) is None,
    decreases 8 - from,
{
    if from < 8 {
        if first_invalid(m.sections[from], group_names(from), 0) is Some {
            lemma_first_invalid_is_invalid(m.sections[from], group_names(from), 0);
            let i = first_invalid(m.sections[from], group_names(from), 0).unwrap();
            assert(slot_invalid(m.sections[from], group_names(from)[i]));
        }
        lemma_no_group_error(m, from + 1);
    }
}

/// A manifest in which every text of a slot is a colour resolves to a
/// palette, with the meta of the manifest.
pub proof fn lemma_valid_colors_succeed(m: ManifestView)
    requires
        forall|g: int, i: int|
            0 <= g < 8 && 0 <= i < group_names(g).len() ==> !slot_invalid(
                m.sections[g],
                #[trigger] group_names(g)[i],
            ),
    ensures
        palette_of(m) matches Ok(p) && p.meta == m.meta && p.well_formed(),
{
    lemma_no_group_error(m, 0);
}

/// A section without entries leaves every slot of its group unset, and
/// cannot fail.
pub proof fn lemma_empty_section_unset(m: ManifestView, group: int)
    requires
        0 <= group < 8,
        m.sections[group] == Map::<Seq<char>, Seq<char>>::empty(),
    ensures
        forall|i: int|
            0 <= i < group_names(group).len() ==> !slot_invalid(
                m.sections[group],
                #[trigger] group_names(group)[i],
            ),
        forall|i: int|
            0 <= i < group_names(group).len() ==> (#[trigger] group_slots(
                m.sections[group],
                group_names(group),
            )[i]) is None,
        set_count(group_slots(m.sections[group], group_names(group))) == 0,
{
    lemma_unset_count(group_slots(m.sections[group], group_names(group)));
}

/// A group whose slots are all unset has no set slot.
proof fn lemma_unset_count(slots: Seq<Option<Color>>)
    requires
        forall|i: int| 0 <= i < slots.len() ==> (#[trigger] slots[i]) is None,
    ensures
        set_count(slots) == 0,
    decreases slots.len(),
{
    if slots.len() > 0 {
        lemma_unset_count(slots.drop_last());
    }
}

proof fn lemma_slot_count_from(p: PaletteView, from: int)
    requires
        p.well_formed(),
        0 <= from,
    ensures
        p.populated_from(from) == p.set_from(from),
    decreases 8 - from,
{
    if from < 8 {
        assert(p.groups[from].len() == group_names(from).len());
        lemma_populated_count(group_names(from), p.groups[from]);
        lemma_slot_count_from(p, from + 1);
    }
}

/// Slot count: the eight groups together list as many slots as the palette
/// has set.
pub proof fn lemma_slot_count(p: PaletteView)
    requires
        p.well_formed(),
    ensures
        p.populated_total() == p.set_total(),
{
    lemma_slot_count_from(p, 0);
}

impl Palette {
    /// The view of a palette has eight groups, each with one slot for each
    /// of its names.
    pub proof fn lemma_well_formed(&self)
        ensures
            self@.well_formed(),
    {
        assert(self@.groups[0].len() == group_names(0).len());
        assert(self@.groups[1].len() == group_names(1).len());
        assert(self@.groups[2].len() == group_names(2).len());
        assert(self@.groups[3].len() == group_names(3).len());
        assert(self@.groups[4].len() == group_names(4).len());
        assert(self@.groups[5].len() == group_names(5).len());
        assert(self@.groups[6].len() == group_names(6).len());
        assert(self@.groups[7].len() == group_names(7).len());
    }

    /// Validates a manifest into a palette. Each slot of each group is
    /// looked up in its section: a text that is a colour sets the slot, a
    /// missing key leaves it unset, and any other text fails the whole
    /// manifest. The meta is copied as it is.
    pub fn from_manifest(manifest: &PaletteManifest) -> (r: Result<Palette, PaletteError>)
        ensures
            result_view(r) == palette_of(manifest@),
    {
        proof {
            reveal_with_fuel(first_group_error, 9);
        }
        let base = match BaseColors::from_section(&manifest.base) {
            Ok(group) => group,
            Err(e) => {
                return Err(e);
            },
        };
        let semantic = match SemanticColors::from_section(&manifest.semantic) {
            Ok(group) => group,
            Err(e) => {
                return Err(e);
            },
        };
        let diff = match DiffColors::from_section(&manifest.diff) {
            Ok(group) => group,
            Err(e) => {
                return Err(e);
            },
        };
        let surface = match SurfaceColors::from_section(&manifest.surface) {
            Ok(group) => group,
            Err(e) => {
                return Err(e);
            },
        };
        let typography = match TypographyColors::from_section(&manifest.typography) {
            Ok(group) => group,
            Err(e) => {
                return Err(e);
            },
        };
        let syntax = match SyntaxColors::from_section(&manifest.syntax) {
            Ok(group) => group,
            Err(e) => {
                return Err(e);
            },
        };
        let editor = match EditorColors::from_section(&manifest.editor) {
            Ok(group) => group,
            Err(e) => {
                return Err(e);
            },
        };
        let terminal_ansi = match TerminalAnsiColors::from_section(&manifest.terminal) {
            Ok(group) => group,
            Err(e) => {
                return Err(e);
            },
        };
        let palette = Palette {
            meta: clone_meta(&manifest.meta),
            base,
            semantic,
            diff,
            surface,
            typography,
            syntax,
            editor,
            terminal_ansi,
        };
        assert(palette@.groups =~= Seq::new(
            8,
            |g: int| group_slots(manifest@.sections[g], group_names(g)),
        ));
        Ok(palette)
    }
}

} // verus!
