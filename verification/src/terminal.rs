//! A palette as colours of the `ratatui` terminal library.

use vstd::prelude::*;
use ratatui::style::Color as TerminalColor;
use crate::color::Color;
use crate::groups::{
    BaseColors, DiffColors, EditorColors, SemanticColors, SurfaceColors, SyntaxColors,
    TerminalAnsiColors, TypographyColors,
};
use crate::palette::Palette;

verus! {

/// The colour type of `ratatui`, with its variants as the library declares
/// them.
#[verifier::external_type_specification]
pub struct ExTerminalColor(TerminalColor);

/// The terminal colour that a slot is shown in: the true colour of the same
/// three channels, and none for an unset slot.
pub open spec fn terminal_slot_of(slot: Option<Color>) -> Option<TerminalColor> {
    match slot {
        Some(c) => Some(TerminalColor::Rgb(c.r, c.g, c.b)),
        None => None,
    }
}

/// The terminal colours of the slots of a group, place by place.
pub open spec fn terminal_slots(slots: Seq<Option<Color>>) -> Seq<Option<TerminalColor>> {
    Seq::new(slots.len(), |i: int| terminal_slot_of(slots[i]))
}

/// The true-colour terminal colour of the same three channels.
pub fn to_ratatui_color(color: &Color) -> (r: TerminalColor)
    ensures
        r == TerminalColor::Rgb(color.r, color.g, color.b),
{
    TerminalColor::Rgb(color.r, color.g, color.b)
}

/// The terminal colour of a slot.
fn terminal_slot(slot: Option<Color>) -> (r: Option<TerminalColor>)
    ensures
        r == terminal_slot_of(slot),
{
    match slot {
        Some(c) => Some(to_ratatui_color(&c)),
        None => None,
    }
}

/// The slots of the `base` section as terminal colours.
#[derive(Clone, Copy, Debug)]
pub struct TerminalBaseColors {
    pub background: Option<TerminalColor>,
    pub background_dark: Option<TerminalColor>,
    pub background_highlight: Option<TerminalColor>,
    pub foreground: Option<TerminalColor>,
    pub foreground_dark: Option<TerminalColor>,
    pub border: Option<TerminalColor>,
    pub border_highlight: Option<TerminalColor>,
}

impl TerminalBaseColors {
    /// The slots, each at the place of its name.
    pub open spec fn slots(&self) -> Seq<Option<TerminalColor>> {
        seq![
            self.background,
            self.background_dark,
            self.background_highlight,
            self.foreground,
            self.foreground_dark,
            self.border,
            self.border_highlight,
        ]
    }

    /// The slots, each at the place of its name.
    pub fn to_slots(&self) -> (slots: Vec<Option<TerminalColor>>)
        ensures
            slots@ == self.slots(),
    {
        let slots = vec![
            self.background,
            self.background_dark,
            self.background_highlight,
            self.foreground,
            self.foreground_dark,
            self.border,
            self.border_highlight,
        ];
        assert(slots@ =~= self.slots());
        slots
    }

    /// The terminal colours of a group of the palette, slot by slot.
    fn from_palette(group: &BaseColors) -> (r: Self)
        ensures
            r.slots() == terminal_slots(group.slots()),
    {
        let r = TerminalBaseColors {
            background: terminal_slot(group.background),
            background_dark: terminal_slot(group.background_dark),
            background_highlight: terminal_slot(group.background_highlight),
            foreground: terminal_slot(group.foreground),
            foreground_dark: terminal_slot(group.foreground_dark),
            border: terminal_slot(group.border),
            border_highlight: terminal_slot(group.border_highlight),
        };
        assert(r.slots() =~= terminal_slots(group.slots()));
        r
    }
}

/// The slots of the `semantic` section as terminal colours.
#[derive(Clone, Copy, Debug)]
pub struct TerminalSemanticColors {
    pub success: Option<TerminalColor>,
    pub error: Option<TerminalColor>,
    pub warning: Option<TerminalColor>,
    pub info: Option<TerminalColor>,
    pub hint: Option<TerminalColor>,
}

impl TerminalSemanticColors {
    /// The slots, each at the place of its name.
    pub open spec fn slots(&self) -> Seq<Option<TerminalColor>> {
        seq![
            self.success,
            self.error,
            self.warning,
            self.info,
            self.hint,
        ]
    }

    /// The slots, each at the place of its name.
    pub fn to_slots(&self) -> (slots: Vec<Option<TerminalColor>>)
        ensures
            slots@ == self.slots(),
    {
        let slots = vec![
            self.success,
            self.error,
            self.warning,
            self.info,
            self.hint,
        ];
        assert(slots@ =~= self.slots());
        slots
    }

    /// The terminal colours of a group of the palette, slot by slot.
    fn from_palette(group: &SemanticColors) -> (r: Self)
        ensures
            r.slots() == terminal_slots(group.slots()),
    {
        let r = TerminalSemanticColors {
            success: terminal_slot(group.success),
            error: terminal_slot(group.error),
            warning: terminal_slot(group.warning),
            info: terminal_slot(group.info),
            hint: terminal_slot(group.hint),
        };
        assert(r.slots() =~= terminal_slots(group.slots()));
        r
    }
}

/// The slots of the `diff` section as terminal colours.
#[derive(Clone, Copy, Debug)]
pub struct TerminalDiffColors {
    pub added: Option<TerminalColor>,
    pub added_bg: Option<TerminalColor>,
    pub added_fg: Option<TerminalColor>,
    pub modified: Option<TerminalColor>,
    pub modified_bg: Option<TerminalColor>,
    pub modified_fg: Option<TerminalColor>,
    pub removed: Option<TerminalColor>,
    pub removed_bg: Option<TerminalColor>,
    pub removed_fg: Option<TerminalColor>,
    pub text_bg: Option<TerminalColor>,
    pub ignored: Option<TerminalColor>,
}

impl TerminalDiffColors {
    /// The slots, each at the place of its name.
    pub open spec fn slots(&self) -> Seq<Option<TerminalColor>> {
        seq![
            self.added,
            self.added_bg,
            self.added_fg,
            self.modified,
            self.modified_bg,
            self.modified_fg,
            self.removed,
            self.removed_bg,
            self.removed_fg,
            self.text_bg,
            self.ignored,
        ]
    }

    /// The slots, each at the place of its name.
    pub fn to_slots(&self) -> (slots: Vec<Option<TerminalColor>>)
        ensures
            slots@ == self.slots(),
    {
        let slots = vec![
            self.added,
            self.added_bg,
            self.added_fg,
            self.modified,
            self.modified_bg,
            self.modified_fg,
            self.removed,
            self.removed_bg,
            self.removed_fg,
            self.text_bg,
            self.ignored,
        ];
        assert(slots@ =~= self.slots());
        slots
    }

    /// The terminal colours of a group of the palette, slot by slot.
    fn from_palette(group: &DiffColors) -> (r: Self)
        ensures
            r.slots() == terminal_slots(group.slots()),
    {
        let r = TerminalDiffColors {
            added: terminal_slot(group.added),
            added_bg: terminal_slot(group.added_bg),
            added_fg: terminal_slot(group.added_fg),
            modified: terminal_slot(group.modified),
            modified_bg: terminal_slot(group.modified_bg),
            modified_fg: terminal_slot(group.modified_fg),
            removed: terminal_slot(group.removed),
            removed_bg: terminal_slot(group.removed_bg),
            removed_fg: terminal_slot(group.removed_fg),
            text_bg: terminal_slot(group.text_bg),
            ignored: terminal_slot(group.ignored),
        };
        assert(r.slots() =~= terminal_slots(group.slots()));
        r
    }
}

/// The slots of the `surface` section as terminal colours.
#[derive(Clone, Copy, Debug)]
pub struct TerminalSurfaceColors {
    pub menu: Option<TerminalColor>,
    pub sidebar: Option<TerminalColor>,
    pub statusline: Option<TerminalColor>,
    pub popup: Option<TerminalColor>,
    pub overlay: Option<TerminalColor>,
    pub highlight: Option<TerminalColor>,
    pub selection: Option<TerminalColor>,
    pub focus: Option<TerminalColor>,
    pub search: Option<TerminalColor>,
}

impl TerminalSurfaceColors {
    /// The slots, each at the place of its name.
    pub open spec fn slots(&self) -> Seq<Option<TerminalColor>> {
        seq![
            self.menu,
            self.sidebar,
            self.statusline,
            self.popup,
            self.overlay,
            self.highlight,
            self.selection,
            self.focus,
            self.search,
        ]
    }

    /// The slots, each at the place of its name.
    pub fn to_slots(&self) -> (slots: Vec<Option<TerminalColor>>)
        ensures
            slots@ == self.slots(),
    {
        let slots = vec![
            self.menu,
            self.sidebar,
            self.statusline,
            self.popup,
            self.overlay,
            self.highlight,
            self.selection,
            self.focus,
            self.search,
        ];
        assert(slots@ =~= self.slots());
        slots
    }

    /// The terminal colours of a group of the palette, slot by slot.
    fn from_palette(group: &SurfaceColors) -> (r: Self)
        ensures
            r.slots() == terminal_slots(group.slots()),
    {
        let r = TerminalSurfaceColors {
            menu: terminal_slot(group.menu),
            sidebar: terminal_slot(group.sidebar),
            statusline: terminal_slot(group.statusline),
            popup: terminal_slot(group.popup),
            overlay: terminal_slot(group.overlay),
            highlight: terminal_slot(group.highlight),
            selection: terminal_slot(group.selection),
            focus: terminal_slot(group.focus),
            search: terminal_slot(group.search),
        };
        assert(r.slots() =~= terminal_slots(group.slots()));
        r
    }
}

/// The slots of the `typography` section as terminal colours.
#[derive(Clone, Copy, Debug)]
pub struct TerminalTypographyColors {
    pub comment: Option<TerminalColor>,
    pub gutter: Option<TerminalColor>,
    pub line_number: Option<TerminalColor>,
    pub selection_text: Option<TerminalColor>,
    pub link: Option<TerminalColor>,
    pub title: Option<TerminalColor>,
}

impl TerminalTypographyColors {
    /// The slots, each at the place of its name.
    pub open spec fn slots(&self) -> Seq<Option<TerminalColor>> {
        seq![
            self.comment,
            self.gutter,
            self.line_number,
            self.selection_text,
            self.link,
            self.title,
        ]
    }

    /// The slots, each at the place of its name.
    pub fn to_slots(&self) -> (slots: Vec<Option<TerminalColor>>)
        ensures
            slots@ == self.slots(),
    {
        let slots = vec![
            self.comment,
            self.gutter,
            self.line_number,
            self.selection_text,
            self.link,
            self.title,
        ];
        assert(slots@ =~= self.slots());
        slots
    }

    /// The terminal colours of a group of the palette, slot by slot.
    fn from_palette(group: &TypographyColors) -> (r: Self)
        ensures
            r.slots() == terminal_slots(group.slots()),
    {
        let r = TerminalTypographyColors {
            comment: terminal_slot(group.comment),
            gutter: terminal_slot(group.gutter),
            line_number: terminal_slot(group.line_number),
            selection_text: terminal_slot(group.selection_text),
            link: terminal_slot(group.link),
            title: terminal_slot(group.title),
        };
        assert(r.slots() =~= terminal_slots(group.slots()));
        r
    }
}

/// The slots of the `syntax` section as terminal colours.
#[derive(Clone, Copy, Debug)]
pub struct TerminalSyntaxColors {
    pub keywords: Option<TerminalColor>,
    pub functions: Option<TerminalColor>,
    pub types: Option<TerminalColor>,
    pub strings: Option<TerminalColor>,
    pub numbers: Option<TerminalColor>,
    pub constants: Option<TerminalColor>,
    pub operators: Option<TerminalColor>,
    pub variables: Option<TerminalColor>,
    pub parameters: Option<TerminalColor>,
    pub properties: Option<TerminalColor>,
    pub tags: Option<TerminalColor>,
    pub attributes: Option<TerminalColor>,
}

impl TerminalSyntaxColors {
    /// The slots, each at the place of its name.
    pub open spec fn slots(&self) -> Seq<Option<TerminalColor>> {
        seq![
            self.keywords,
            self.functions,
            self.types,
            self.strings,
            self.numbers,
            self.constants,
            self.operators,
            self.variables,
            self.parameters,
            self.properties,
            self.tags,
            self.attributes,
        ]
    }

    /// The slots, each at the place of its name.
    pub fn to_slots(&self) -> (slots: Vec<Option<TerminalColor>>)
        ensures
            slots@ == self.slots(),
    {
        let slots = vec![
            self.keywords,
            self.functions,
            self.types,
            self.strings,
            self.numbers,
            self.constants,
            self.operators,
            self.variables,
            self.parameters,
            self.properties,
            self.tags,
            self.attributes,
        ];
        assert(slots@ =~= self.slots());
        slots
    }

    /// The terminal colours of a group of the palette, slot by slot.
    fn from_palette(group: &SyntaxColors) -> (r: Self)
        ensures
            r.slots() == terminal_slots(group.slots()),
    {
        let r = TerminalSyntaxColors {
            keywords: terminal_slot(group.keywords),
            functions: terminal_slot(group.functions),
            types: terminal_slot(group.types),
            strings: terminal_slot(group.strings),
            numbers: terminal_slot(group.numbers),
            constants: terminal_slot(group.constants),
            operators: terminal_slot(group.operators),
            variables: terminal_slot(group.variables),
            parameters: terminal_slot(group.parameters),
            properties: terminal_slot(group.properties),
            tags: terminal_slot(group.tags),
            attributes: terminal_slot(group.attributes),
        };
        assert(r.slots() =~= terminal_slots(group.slots()));
        r
    }
}

/// The slots of the `editor` section as terminal colours.
#[derive(Clone, Copy, Debug)]
pub struct TerminalEditorColors {
    pub cursor: Option<TerminalColor>,
    pub cursor_text: Option<TerminalColor>,
    pub match_paren: Option<TerminalColor>,
    pub selection_bg: Option<TerminalColor>,
    pub selection_fg: Option<TerminalColor>,
    pub inlay_hint_bg: Option<TerminalColor>,
    pub inlay_hint_fg: Option<TerminalColor>,
    pub search_bg: Option<TerminalColor>,
    pub search_fg: Option<TerminalColor>,
}

impl TerminalEditorColors {
    /// The slots, each at the place of its name.
    pub open spec fn slots(&self) -> Seq<Option<TerminalColor>> {
        seq![
            self.cursor,
            self.cursor_text,
            self.match_paren,
            self.selection_bg,
            self.selection_fg,
            self.inlay_hint_bg,
            self.inlay_hint_fg,
            self.search_bg,
            self.search_fg,
        ]
    }

    /// The slots, each at the place of its name.
    pub fn to_slots(&self) -> (slots: Vec<Option<TerminalColor>>)
        ensures
            slots@ == self.slots(),
    {
        let slots = vec![
            self.cursor,
            self.cursor_text,
            self.match_paren,
            self.selection_bg,
            self.selection_fg,
            self.inlay_hint_bg,
            self.inlay_hint_fg,
            self.search_bg,
            self.search_fg,
        ];
        assert(slots@ =~= self.slots());
        slots
    }

    /// The terminal colours of a group of the palette, slot by slot.
    fn from_palette(group: &EditorColors) -> (r: Self)
        ensures
            r.slots() == terminal_slots(group.slots()),
    {
        let r = TerminalEditorColors {
            cursor: terminal_slot(group.cursor),
            cursor_text: terminal_slot(group.cursor_text),
            match_paren: terminal_slot(group.match_paren),
            selection_bg: terminal_slot(group.selection_bg),
            selection_fg: terminal_slot(group.selection_fg),
            inlay_hint_bg: terminal_slot(group.inlay_hint_bg),
            inlay_hint_fg: terminal_slot(group.inlay_hint_fg),
            search_bg: terminal_slot(group.search_bg),
            search_fg: terminal_slot(group.search_fg),
        };
        assert(r.slots() =~= terminal_slots(group.slots()));
        r
    }
}

/// The slots of the `terminal` section as terminal colours.
#[derive(Clone, Copy, Debug)]
pub struct TerminalTerminalAnsiColors {
    pub black: Option<TerminalColor>,
    pub red: Option<TerminalColor>,
    pub green: Option<TerminalColor>,
    pub yellow: Option<TerminalColor>,
    pub blue: Option<TerminalColor>,
    pub magenta: Option<TerminalColor>,
    pub cyan: Option<TerminalColor>,
    pub white: Option<TerminalColor>,
    pub bright_black: Option<TerminalColor>,
    pub bright_red: Option<TerminalColor>,
    pub bright_green: Option<TerminalColor>,
    pub bright_yellow: Option<TerminalColor>,
    pub bright_blue: Option<TerminalColor>,
    pub bright_magenta: Option<TerminalColor>,
    pub bright_cyan: Option<TerminalColor>,
    pub bright_white: Option<TerminalColor>,
}

impl TerminalTerminalAnsiColors {
    /// The slots, each at the place of its name.
    pub open spec fn slots(&self) -> Seq<Option<TerminalColor>> {
        seq![
            self.black,
            self.red,
            self.green,
            self.yellow,
            self.blue,
            self.magenta,
            self.cyan,
            self.white,
            self.bright_black,
            self.bright_red,
            self.bright_green,
            self.bright_yellow,
            self.bright_blue,
            self.bright_magenta,
            self.bright_cyan,
            self.bright_white,
        ]
    }

    /// The slots, each at the place of its name.
    pub fn to_slots(&self) -> (slots: Vec<Option<TerminalColor>>)
        ensures
            slots@ == self.slots(),
    {
        let slots = vec![
            self.black,
            self.red,
            self.green,
            self.yellow,
            self.blue,
            self.magenta,
            self.cyan,
            self.white,
            self.bright_black,
            self.bright_red,
            self.bright_green,
            self.bright_yellow,
            self.bright_blue,
            self.bright_magenta,
            self.bright_cyan,
            self.bright_white,
        ];
        assert(slots@ =~= self.slots());
        slots
    }

    /// The terminal colours of a group of the palette, slot by slot.
    fn from_palette(group: &TerminalAnsiColors) -> (r: Self)
        ensures
            r.slots() == terminal_slots(group.slots()),
    {
        let r = TerminalTerminalAnsiColors {
            black: terminal_slot(group.black),
            red: terminal_slot(group.red),
            green: terminal_slot(group.green),
            yellow: terminal_slot(group.yellow),
            blue: terminal_slot(group.blue),
            magenta: terminal_slot(group.magenta),
            cyan: terminal_slot(group.cyan),
            white: terminal_slot(group.white),
            bright_black: terminal_slot(group.bright_black),
            bright_red: terminal_slot(group.bright_red),
            bright_green: terminal_slot(group.bright_green),
            bright_yellow: terminal_slot(group.bright_yellow),
            bright_blue: terminal_slot(group.bright_blue),
            bright_magenta: terminal_slot(group.bright_magenta),
            bright_cyan: terminal_slot(group.bright_cyan),
            bright_white: terminal_slot(group.bright_white),
        };
        assert(r.slots() =~= terminal_slots(group.slots()));
        r
    }
}

/// A palette in terminal colours: the same eight groups and the same slots.
#[derive(Clone, Copy, Debug)]
pub struct TerminalTheme {
    pub base: TerminalBaseColors,
    pub semantic: TerminalSemanticColors,
    pub diff: TerminalDiffColors,
    pub surface: TerminalSurfaceColors,
    pub typography: TerminalTypographyColors,
    pub syntax: TerminalSyntaxColors,
    pub editor: TerminalEditorColors,
    pub terminal_ansi: TerminalTerminalAnsiColors,
}

impl TerminalTheme {
    /// The slots of the eight groups, each group in the order of its names.
    pub open spec fn groups(&self) -> Seq<Seq<Option<TerminalColor>>> {
        seq![
            self.base.slots(),
            self.semantic.slots(),
            self.diff.slots(),
            self.surface.slots(),
            self.typography.slots(),
            self.syntax.slots(),
            self.editor.slots(),
            self.terminal_ansi.slots(),
        ]
    }
}

/// Turns every slot of a palette into a terminal colour: a set slot into
/// the true colour of its channels, an unset slot into none.
pub fn to_terminal_theme(palette: &Palette) -> (theme: TerminalTheme)
    ensures
        theme.groups().len() == 8,
        forall|g: int| 0 <= g < 8 ==> theme.groups()[g] == terminal_slots(palette@.groups[g]),
{
    TerminalTheme {
        base: TerminalBaseColors::from_palette(&palette.base),
        semantic: TerminalSemanticColors::from_palette(&palette.semantic),
        diff: TerminalDiffColors::from_palette(&palette.diff),
        surface: TerminalSurfaceColors::from_palette(&palette.surface),
        typography: TerminalTypographyColors::from_palette(&palette.typography),
        syntax: TerminalSyntaxColors::from_palette(&palette.syntax),
        editor: TerminalEditorColors::from_palette(&palette.editor),
        terminal_ansi: TerminalTerminalAnsiColors::from_palette(&palette.terminal_ansi),
    }
}

} // verus!
