//! A palette written as CSS custom properties, one line for each set slot.

use vstd::prelude::*;
use vstd::string::*;
use crate::color::{hex_text, Color};
use crate::manifest::section_names;
use crate::palette::{group_names, Palette, PaletteView};
use crate::slots::{named_view, populated};

verus! {

/// A slot's name as CSS writes it: every underscore becomes a hyphen.
pub open spec fn hyphenated(name: Seq<char>) -> Seq<char> {
    Seq::new(
        name.len(),
        |i: int|
            if name[i] == '_' {
                '-'
            } else {
                name[i]
            },
    )
}

/// The line of one slot: two spaces, `--prefix-section-slot: #RRGGBB;` and a
/// line feed.
pub open spec fn css_line(
    prefix: Seq<char>,
    section: Seq<char>,
    slot: Seq<char>,
    color: Color,
) -> Seq<char> {
    "  --"@ + prefix + "-"@ + section + "-"@ + hyphenated(slot) + ": "@ + hex_text(color) + ";\n"@
}

/// The lines of the given slots, in their order.
pub open spec fn css_lines(
    prefix: Seq<char>,
    section: Seq<char>,
    slots: Seq<(Seq<char>, Color)>,
) -> Seq<char>
    decreases slots.len(),
{
    if slots.len() == 0 {
        Seq::empty()
    } else {
        css_lines(prefix, section, slots.drop_last()) + css_line(
            prefix,
            section,
            slots.last().0,
            slots.last().1,
        )
    }
}

/// The lines of the set slots of group number `group`, under the name of
/// its section.
pub open spec fn group_css(p: PaletteView, prefix: Seq<char>, group: int) -> Seq<char> {
    css_lines(prefix, section_names()[group], populated(group_names(group), p.groups[group]))
}

/// The lines of the first `count` groups, in their order.
pub open spec fn css_upto(p: PaletteView, prefix: Seq<char>, count: int) -> Seq<char>
    decreases count,
{
    if count <= 0 {
        Seq::empty()
    } else {
        css_upto(p, prefix, count - 1) + group_css(p, prefix, count - 1)
    }
}

/// The whole text: the lines of the eight groups, in their order.
pub open spec fn css_of(p: PaletteView, prefix: Seq<char>) -> Seq<char> {
    css_upto(p, prefix, 8)
}

/// Writes a slot's name with hyphens for its underscores.
fn hyphenate(name: &str) -> (r: String)
    ensures
        r@ == hyphenated(name@),
{
    let n = name.unicode_len();
    let mut out = String::new();
    let mut i: usize = 0;
    while i < n
        invariant
            i <= n,
            n == name@.len(),
            out@ == hyphenated(name@).take(i as int),
        decreases n - i,
    {
        let ghost before = out@;
        if name.get_char(i) == '_' {
            out.append("-");
            proof {
                reveal_strlit("-");
            }
            assert(out@ =~= before.push('-'));
        } else {
            out.append(name.substring_char(i, i + 1));
            assert(name@.subrange(i as int, i + 1) =~= seq![name@[i as int]]);
            assert(out@ =~= before.push(name@[i as int]));
        }
        assert(out@ =~= hyphenated(name@).take(i + 1));
        i += 1;
    }
    assert(out@ =~= hyphenated(name@));
    out
}

/// Appends the line of one slot.
fn write_line(out: &mut String, prefix: &str, section: &str, slot: &str, color: &Color)
    ensures
        final(out)@ == old(out)@ + css_line(prefix@, section@, slot@, *color),
{
    let name = hyphenate(slot);
    let hex = color.to_hex();
    out.append("  --");
    out.append(prefix);
    out.append("-");
    out.append(section);
    out.append("-");
    out.append(name.as_str());
    out.append(": ");
    out.append(hex.as_str());
    out.append(";\n");
    assert(out@ =~= old(out)@ + css_line(prefix@, section@, slot@, *color));
}

/// Appends the lines of the given slots of one section, in their order.
fn write_section(out: &mut String, prefix: &str, section: &str, slots: &Vec<(&'static str, Color)>)
    ensures
        final(out)@ == old(out)@ + css_lines(prefix@, section@, named_view(slots@)),
{
    let ghost all = named_view(slots@);
    let mut i: usize = 0;
    assert(out@ =~= old(out)@ + css_lines(prefix@, section@, all.take(0)));
    while i < slots.len()
        invariant
            i <= slots@.len(),
            all == named_view(slots@),
            out@ == old(out)@ + css_lines(prefix@, section@, all.take(i as int)),
        decreases slots@.len() - i,
    {
        let ghost before = out@;
        write_line(out, prefix, section, slots[i].0, &slots[i].1);
        proof {
            assert(all.take(i + 1).drop_last() =~= all.take(i as int));
            assert(all.take(i + 1).last() == (slots@[i as int].0@, slots@[i as int].1));
            assert(out@ =~= old(out)@ + css_lines(prefix@, section@, all.take(i + 1)));
        }
        i += 1;
    }
    assert(all.take(i as int) =~= all);
}

/// Writes every set slot of a palette as a CSS custom property, group by
/// group and slot by slot in their fixed order. An unset slot gives no line.
pub fn to_css_custom_properties(palette: &Palette, prefix: &str) -> (css: String)
    ensures
        css@ == css_of(palette@, prefix@),
{
    let ghost p = palette@;
    let mut out = String::new();
    assert(out@ =~= css_upto(p, prefix@, 0));
    write_section(&mut out, prefix, "base", &palette.base.populated_slots());
    assert(out@ =~= css_upto(p, prefix@, 1)) by {
        assert(p.groups[0] == palette.base.slots());
    }
    write_section(&mut out, prefix, "semantic", &palette.semantic.populated_slots());
    assert(out@ =~= css_upto(p, prefix@, 2)) by {
        assert(p.groups[1] == palette.semantic.slots());
    }
    write_section(&mut out, prefix, "diff", &palette.diff.populated_slots());
    assert(out@ =~= css_upto(p, prefix@, 3)) by {
        assert(p.groups[2] == palette.diff.slots());
    }
    write_section(&mut out, prefix, "surface", &palette.surface.populated_slots());
    assert(out@ =~= css_upto(p, prefix@, 4)) by {
        assert(p.groups[3] == palette.surface.slots());
    }
    write_section(&mut out, prefix, "typography", &palette.typography.populated_slots());
    assert(out@ =~= css_upto(p, prefix@, 5)) by {
        assert(p.groups[4] == palette.typography.slots());
    }
    write_section(&mut out, prefix, "syntax", &palette.syntax.populated_slots());
    assert(out@ =~= css_upto(p, prefix@, 6)) by {
        assert(p.groups[5] == palette.syntax.slots());
    }
    write_section(&mut out, prefix, "editor", &palette.editor.populated_slots());
    assert(out@ =~= css_upto(p, prefix@, 7)) by {
        assert(p.groups[6] == palette.editor.slots());
    }
    write_section(&mut out, prefix, "terminal", &palette.terminal_ansi.populated_slots());
    assert(out@ =~= css_upto(p, prefix@, 8)) by {
        assert(p.groups[7] == palette.terminal_ansi.slots());
    }
    out
}

impl Palette {
    /// The palette as CSS custom properties under the given prefix.
    pub fn to_css(&self, prefix: &str) -> (css: String)
        ensures
            css@ == css_of(self@, prefix@),
    {
        to_css_custom_properties(self, prefix)
    }
}

} // verus!
