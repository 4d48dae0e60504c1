//! The eight groups of a palette. Each has a fixed list of named slots, and
//! each slot holds a colour or is unset.

use vstd::prelude::*;
use vstd::string::*;
use crate::color::Color;
use crate::error::{ErrorView, PaletteError};
use crate::section::ManifestSection;
use crate::slots::{group_of, named_view, names_view, populated, populated_of, resolve_slots};

verus! {

/// The slots of the `base` section.
#[derive(Clone, Copy, Debug)]
pub struct BaseColors {
    pub background: Option<Color>,
    pub background_dark: Option<Color>,
    pub background_highlight: Option<Color>,
    pub foreground: Option<Color>,
    pub foreground_dark: Option<Color>,
    pub border: Option<Color>,
    pub border_highlight: Option<Color>,
}

impl BaseColors {
    /// The names of the slots, in their fixed order.
    pub open spec fn names() -> Seq<Seq<char>> {
        seq![
            "background"@,
            "background_dark"@,
            "background_highlight"@,
            "foreground"@,
            "foreground_dark"@,
            "border"@,
            "border_highlight"@,
        ]
    }

    /// The slots, each at the place of its name.
    pub open spec fn slots(&self) -> Seq<Option<Color>> {
        seq![
            self.background,
            self.background_dark,
            self.background_highlight,
            self.foreground,
            self.foreground_dark,
            self.border,
            self.border_highlight,
        ]
    }

    /// The names of the slots, in their fixed order.
    pub fn slot_names() -> (names: Vec<&'static str>)
        ensures
            names_view(names@) == Self::names(),
    {
        let names = vec![
            "background",
            "background_dark",
            "background_highlight",
            "foreground",
            "foreground_dark",
            "border",
            "border_highlight",
        ];
        assert(names_view(names@) =~= Self::names());
        names
    }

    /// The slots, each at the place of its name.
    pub fn to_slots(&self) -> (slots: Vec<Option<Color>>)
        ensures
            slots@ == self.slots(),
    {
        let slots = vec![
            self.background,
            self.background_dark,
            self.background_highlight,
            self.foreground,
            self.foreground_dark,
            self.border,
            self.border_highlight,
        ];
        assert(slots@ =~= self.slots());
        slots
    }

    /// The group that holds the given slots, each under the name of its place.
    fn from_slots(slots: &Vec<Option<Color>>) -> (r: Self)
        requires
            slots@.len() == 7,
        ensures
            r.slots() == slots@,
    {
        let r = BaseColors {
            background: slots[0],
            background_dark: slots[1],
            background_highlight: slots[2],
            foreground: slots[3],
            foreground_dark: slots[4],
            border: slots[5],
            border_highlight: slots[6],
        };
        assert(r.slots() =~= slots@);
        r
    }

    /// Reads the group out of the `base` section of a manifest.
    pub fn from_section(section: &ManifestSection) -> (r: Result<Self, PaletteError>)
        ensures
            match r {
                Ok(group) => group_of(section@, "base"@, Self::names()) == Ok::<
                    Seq<Option<Color>>,
                    ErrorView,
                >(group.slots()),
                Err(e) => group_of(section@, "base"@, Self::names()) == Err::<
                    Seq<Option<Color>>,
                    ErrorView,
                >(e@),
            },
    {
        let names = Self::slot_names();
        match resolve_slots(section, "base", &names) {
            Ok(slots) => Ok(Self::from_slots(&slots)),
            Err(e) => Err(e),
        }
    }

    /// The set slots with their names, in the fixed order of the names.
    pub fn populated_slots(&self) -> (r: Vec<(&'static str, Color)>)
        ensures
            named_view(r@) == populated(Self::names(), self.slots()),
    {
        populated_of(&Self::slot_names(), &self.to_slots())
    }
}

/// The slots of the `semantic` section.
#[derive(Clone, Copy, Debug)]
pub struct SemanticColors {
    pub success: Option<Color>,
    pub error: Option<Color>,
    pub warning: Option<Color>,
    pub info: Option<Color>,
    pub hint: Option<Color>,
}

impl SemanticColors {
    /// The names of the slots, in their fixed order.
    pub open spec fn names() -> Seq<Seq<char>> {
        seq![
            "success"@,
            "error"@,
            "warning"@,
            "info"@,
            "hint"@,
        ]
    }

    /// The slots, each at the place of its name.
    pub open spec fn slots(&self) -> Seq<Option<Color>> {
        seq![
            self.success,
            self.error,
            self.warning,
            self.info,
            self.hint,
        ]
    }

    /// The names of the slots, in their fixed order.
    pub fn slot_names() -> (names: Vec<&'static str>)
        ensures
            names_view(names@) == Self::names(),
    {
        let names = vec![
            "success",
            "error",
            "warning",
            "info",
            "hint",
        ];
        assert(names_view(names@) =~= Self::names());
        names
    }

    /// The slots, each at the place of its name.
    pub fn to_slots(&self) -> (slots: Vec<Option<Color>>)
        ensures
            slots@ == self.slots(),
    {
        let slots = vec![
            self.success,
            self.error,
            self.warning,
            self.info,
            self.hint,
        ];
        assert(slots@ =~= self.slots());
        slots
    }

    /// The group that holds the given slots, each under the name of its place.
    fn from_slots(slots: &Vec<Option<Color>>) -> (r: Self)
        requires
            slots@.len() == 5,
        ensures
            r.slots() == slots@,
    {
        let r = SemanticColors {
            success: slots[0],
            error: slots[1],
            warning: slots[2],
            info: slots[3],
            hint: slots[4],
        };
        assert(r.slots() =~= slots@);
        r
    }

    /// Reads the group out of the `semantic` section of a manifest.
    pub fn from_section(section: &ManifestSection) -> (r: Result<Self, PaletteError>)
        ensures
            match r {
                Ok(group) => group_of(section@, "semantic"@, Self::names()) == Ok::<
                    Seq<Option<Color>>,
                    ErrorView,
                >(group.slots()),
                Err(e) => group_of(section@, "semantic"@, Self::names()) == Err::<
                    Seq<Option<Color>>,
                    ErrorView,
                >(e@),
            },
    {
        let names = Self::slot_names();
        match resolve_slots(section, "semantic", &names) {
            Ok(slots) => Ok(Self::from_slots(&slots)),
            Err(e) => Err(e),
        }
    }

    /// The set slots with their names, in the fixed order of the names.
    pub fn populated_slots(&self) -> (r: Vec<(&'static str, Color)>)
        ensures
            named_view(r@) == populated(Self::names(), self.slots()),
    {
        populated_of(&Self::slot_names(), &self.to_slots())
    }
}

/// The slots of the `diff` section.
#[derive(Clone, Copy, Debug)]
pub struct DiffColors {
    pub added: Option<Color>,
    pub added_bg: Option<Color>,
    pub added_fg: Option<Color>,
    pub modified: Option<Color>,
    pub modified_bg: Option<Color>,
    pub modified_fg: Option<Color>,
    pub removed: Option<Color>,
    pub removed_bg: Option<Color>,
    pub removed_fg: Option<Color>,
    pub text_bg: Option<Color>,
    pub ignored: Option<Color>,
}

impl DiffColors {
    /// The names of the slots, in their fixed order.
    pub open spec fn names() -> Seq<Seq<char>> {
        seq![
            "added"@,
            "added_bg"@,
            "added_fg"@,
            "modified"@,
            "modified_bg"@,
            "modified_fg"@,
            "removed"@,
            "removed_bg"@,
            "removed_fg"@,
            "text_bg"@,
            "ignored"@,
        ]
    }

    /// The slots, each at the place of its name.
    pub open spec fn slots(&self) -> Seq<Option<Color>> {
        seq![
            self.added,
            self.added_bg,
            self.added_fg,
            self.modified,
            self.modified_bg,
            self.modified_fg,
            self.removed,
            self.removed_bg,
            self.removed_fg,
            self.text_bg,
            self.ignored,
        ]
    }

    /// The names of the slots, in their fixed order.
    pub fn slot_names() -> (names: Vec<&'static str>)
        ensures
            names_view(names@) == Self::names(),
    {
        let names = vec![
            "added",
            "added_bg",
            "added_fg",
            "modified",
            "modified_bg",
            "modified_fg",
            "removed",
            "removed_bg",
            "removed_fg",
            "text_bg",
            "ignored",
        ];
        assert(names_view(names@) =~= Self::names());
        names
    }

    /// The slots, each at the place of its name.
    pub fn to_slots(&self) -> (slots: Vec<Option<Color>>)
        ensures
            slots@ == self.slots(),
    {
        let slots = vec![
            self.added,
            self.added_bg,
            self.added_fg,
            self.modified,
            self.modified_bg,
            self.modified_fg,
            self.removed,
            self.removed_bg,
            self.removed_fg,
            self.text_bg,
            self.ignored,
        ];
        assert(slots@ =~= self.slots());
        slots
    }

    /// The group that holds the given slots, each under the name of its place.
    fn from_slots(slots: &Vec<Option<Color>>) -> (r: Self)
        requires
            slots@.len() == 11,
        ensures
            r.slots() == slots@,
    {
        let r = DiffColors {
            added: slots[0],
            added_bg: slots[1],
            added_fg: slots[2],
            modified: slots[3],
            modified_bg: slots[4],
            modified_fg: slots[5],
            removed: slots[6],
            removed_bg: slots[7],
            removed_fg: slots[8],
            text_bg: slots[9],
            ignored: slots[10],
        };
        assert(r.slots() =~= slots@);
        r
    }

    /// Reads the group out of the `diff` section of a manifest.
    pub fn from_section(section: &ManifestSection) -> (r: Result<Self, PaletteError>)
        ensures
            match r {
                Ok(group) => group_of(section@, "diff"@, Self::names()) == Ok::<
                    Seq<Option<Color>>,
                    ErrorView,
                >(group.slots()),
                Err(e) => group_of(section@, "diff"@, Self::names()) == Err::<
                    Seq<Option<Color>>,
                    ErrorView,
                >(e@),
            },
    {
        let names = Self::slot_names();
        match resolve_slots(section, "diff", &names) {
            Ok(slots) => Ok(Self::from_slots(&slots)),
            Err(e) => Err(e),
        }
    }

    /// The set slots with their names, in the fixed order of the names.
    pub fn populated_slots(&self) -> (r: Vec<(&'static str, Color)>)
        ensures
            named_view(r@) == populated(Self::names(), self.slots()),
    {
        populated_of(&Self::slot_names(), &self.to_slots())
    }
}

/// The slots of the `surface` section.
#[derive(Clone, Copy, Debug)]
pub struct SurfaceColors {
    pub menu: Option<Color>,
    pub sidebar: Option<Color>,
    pub statusline: Option<Color>,
    pub popup: Option<Color>,
    pub overlay: Option<Color>,
    pub highlight: Option<Color>,
    pub selection: Option<Color>,
    pub focus: Option<Color>,
    pub search: Option<Color>,
}

impl SurfaceColors {
    /// The names of the slots, in their fixed order.
    pub open spec fn names() -> Seq<Seq<char>> {
        seq![
            "menu"@,
            "sidebar"@,
            "statusline"@,
            "popup"@,
            "overlay"@,
            "highlight"@,
            "selection"@,
            "focus"@,
            "search"@,
        ]
    }

    /// The slots, each at the place of its name.
    pub open spec fn slots(&self) -> Seq<Option<Color>> {
        seq![
            self.menu,
            self.sidebar,
            self.statusline,
            self.popup,
            self.overlay,
            self.highlight,
            self.selection,
            self.focus,
            self.search,
        ]
    }

    /// The names of the slots, in their fixed order.
    pub fn slot_names() -> (names: Vec<&'static str>)
        ensures
            names_view(names@) == Self::names(),
    {
        let names = vec![
            "menu",
            "sidebar",
            "statusline",
            "popup",
            "overlay",
            "highlight",
            "selection",
            "focus",
            "search",
        ];
        assert(names_view(names@) =~= Self::names());
        names
    }

    /// The slots, each at the place of its name.
    pub fn to_slots(&self) -> (slots: Vec<Option<Color>>)
        ensures
            slots@ == self.slots(),
    {
        let slots = vec![
            self.menu,
            self.sidebar,
            self.statusline,
            self.popup,
            self.overlay,
            self.highlight,
            self.selection,
            self.focus,
            self.search,
        ];
        assert(slots@ =~= self.slots());
        slots
    }

    /// The group that holds the given slots, each under the name of its place.
    fn from_slots(slots: &Vec<Option<Color>>) -> (r: Self)
        requires
            slots@.len() == 9,
        ensures
            r.slots() == slots@,
    {
        let r = SurfaceColors {
            menu: slots[0],
            sidebar: slots[1],
            statusline: slots[2],
            popup: slots[3],
            overlay: slots[4],
            highlight: slots[5],
            selection: slots[6],
            focus: slots[7],
            search: slots[8],
        };
        assert(r.slots() =~= slots@);
        r
    }

    /// Reads the group out of the `surface` section of a manifest.
    pub fn from_section(section: &ManifestSection) -> (r: Result<Self, PaletteError>)
        ensures
            match r {
                Ok(group) => group_of(section@, "surface"@, Self::names()) == Ok::<
                    Seq<Option<Color>>,
                    ErrorView,
                >(group.slots()),
                Err(e) => group_of(section@, "surface"@, Self::names()) == Err::<
                    Seq<Option<Color>>,
                    ErrorView,
                >(e@),
            },
    {
        let names = Self::slot_names();
        match resolve_slots(section, "surface", &names) {
            Ok(slots) => Ok(Self::from_slots(&slots)),
            Err(e) => Err(e),
        }
    }

    /// The set slots with their names, in the fixed order of the names.
    pub fn populated_slots(&self) -> (r: Vec<(&'static str, Color)>)
        ensures
            named_view(r@) == populated(Self::names(), self.slots()),
    {
        populated_of(&Self::slot_names(), &self.to_slots())
    }
}

/// The slots of the `typography` section.
#[derive(Clone, Copy, Debug)]
pub struct TypographyColors {
    pub comment: Option<Color>,
    pub gutter: Option<Color>,
    pub line_number: Option<Color>,
    pub selection_text: Option<Color>,
    pub link: Option<Color>,
    pub title: Option<Color>,
}

impl TypographyColors {
    /// The names of the slots, in their fixed order.
    pub open spec fn names() -> Seq<Seq<char>> {
        seq![
            "comment"@,
            "gutter"@,
            "line_number"@,
            "selection_text"@,
            "link"@,
            "title"@,
        ]
    }

    /// The slots, each at the place of its name.
    pub open spec fn slots(&self) -> Seq<Option<Color>> {
        seq![
            self.comment,
            self.gutter,
            self.line_number,
            self.selection_text,
            self.link,
            self.title,
        ]
    }

    /// The names of the slots, in their fixed order.
    pub fn slot_names() -> (names: Vec<&'static str>)
        ensures
            names_view(names@) == Self::names(),
    {
        let names = vec![
            "comment",
            "gutter",
            "line_number",
            "selection_text",
            "link",
            "title",
        ];
        assert(names_view(names@) =~= Self::names());
        names
    }

    /// The slots, each at the place of its name.
    pub fn to_slots(&self) -> (slots: Vec<Option<Color>>)
        ensures
            slots@ == self.slots(),
    {
        let slots = vec![
            self.comment,
            self.gutter,
            self.line_number,
            self.selection_text,
            self.link,
            self.title,
        ];
        assert(slots@ =~= self.slots());
        slots
    }

    /// The group that holds the given slots, each under the name of its place.
    fn from_slots(slots: &Vec<Option<Color>>) -> (r: Self)
        requires
            slots@.len() == 6,
        ensures
            r.slots() == slots@,
    {
        let r = TypographyColors {
            comment: slots[0],
            gutter: slots[1],
            line_number: slots[2],
            selection_text: slots[3],
            link: slots[4],
            title: slots[5],
        };
        assert(r.slots() =~= slots@);
        r
    }

    /// Reads the group out of the `typography` section of a manifest.
    pub fn from_section(section: &ManifestSection) -> (r: Result<Self, PaletteError>)
        ensures
            match r {
                Ok(group) => group_of(section@, "typography"@, Self::names()) == Ok::<
                    Seq<Option<Color>>,
                    ErrorView,
                >(group.slots()),
                Err(e) => group_of(section@, "typography"@, Self::names()) == Err::<
                    Seq<Option<Color>>,
                    ErrorView,
                >(e@),
            },
    {
        let names = Self::slot_names();
        match resolve_slots(section, "typography", &names) {
            Ok(slots) => Ok(Self::from_slots(&slots)),
            Err(e) => Err(e),
        }
    }

    /// The set slots with their names, in the fixed order of the names.
    pub fn populated_slots(&self) -> (r: Vec<(&'static str, Color)>)
        ensures
            named_view(r@) == populated(Self::names(), self.slots()),
    {
        populated_of(&Self::slot_names(), &self.to_slots())
    }
}

/// The slots of the `syntax` section.
#[derive(Clone, Copy, Debug)]
pub struct SyntaxColors {
    pub keywords: Option<Color>,
    pub functions: Option<Color>,
    pub types: Option<Color>,
    pub strings: Option<Color>,
    pub numbers: Option<Color>,
    pub constants: Option<Color>,
    pub operators: Option<Color>,
    pub variables: Option<Color>,
    pub parameters: Option<Color>,
    pub properties: Option<Color>,
    pub tags: Option<Color>,
    pub attributes: Option<Color>,
}

impl SyntaxColors {
    /// The names of the slots, in their fixed order.
    pub open spec fn names() -> Seq<Seq<char>> {
        seq![
            "keywords"@,
            "functions"@,
            "types"@,
            "strings"@,
            "numbers"@,
            "constants"@,
            "operators"@,
            "variables"@,
            "parameters"@,
            "properties"@,
            "tags"@,
            "attributes"@,
        ]
    }

    /// The slots, each at the place of its name.
    pub open spec fn slots(&self) -> Seq<Option<Color>> {
        seq![
            self.keywords,
            self.functions,
            self.types,
            self.strings,
            self.numbers,
            self.constants,
            self.operators,
            self.variables,
            self.parameters,
            self.properties,
            self.tags,
            self.attributes,
        ]
    }

    /// The names of the slots, in their fixed order.
    pub fn slot_names() -> (names: Vec<&'static str>)
        ensures
            names_view(names@) == Self::names(),
    {
        let names = vec![
            "keywords",
            "functions",
            "types",
            "strings",
            "numbers",
            "constants",
            "operators",
            "variables",
            "parameters",
            "properties",
            "tags",
            "attributes",
        ];
        assert(names_view(names@) =~= Self::names());
        names
    }

    /// The slots, each at the place of its name.
    pub fn to_slots(&self) -> (slots: Vec<Option<Color>>)
        ensures
            slots@ == self.slots(),
    {
        let slots = vec![
            self.keywords,
            self.functions,
            self.types,
            self.strings,
            self.numbers,
            self.constants,
            self.operators,
            self.variables,
            self.parameters,
            self.properties,
            self.tags,
            self.attributes,
        ];
        assert(slots@ =~= self.slots());
        slots
    }

    /// The group that holds the given slots, each under the name of its place.
    fn from_slots(slots: &Vec<Option<Color>>) -> (r: Self)
        requires
            slots@.len() == 12,
        ensures
            r.slots() == slots@,
    {
        let r = SyntaxColors {
            keywords: slots[0],
            functions: slots[1],
            types: slots[2],
            strings: slots[3],
            numbers: slots[4],
            constants: slots[5],
            operators: slots[6],
            variables: slots[7],
            parameters: slots[8],
            properties: slots[9],
            tags: slots[10],
            attributes: slots[11],
        };
        assert(r.slots() =~= slots@);
        r
    }

    /// Reads the group out of the `syntax` section of a manifest.
    pub fn from_section(section: &ManifestSection) -> (r: Result<Self, PaletteError>)
        ensures
            match r {
                Ok(group) => group_of(section@, "syntax"@, Self::names()) == Ok::<
                    Seq<Option<Color>>,
                    ErrorView,
                >(group.slots()),
                Err(e) => group_of(section@, "syntax"@, Self::names()) == Err::<
                    Seq<Option<Color>>,
                    ErrorView,
                >(e@),
            },
    {
        let names = Self::slot_names();
        match resolve_slots(section, "syntax", &names) {
            Ok(slots) => Ok(Self::from_slots(&slots)),
            Err(e) => Err(e),
        }
    }

    /// The set slots with their names, in the fixed order of the names.
    pub fn populated_slots(&self) -> (r: Vec<(&'static str, Color)>)
        ensures
            named_view(r@) == populated(Self::names(), self.slots()),
    {
        populated_of(&Self::slot_names(), &self.to_slots())
    }
}

/// The slots of the `editor` section.
#[derive(Clone, Copy, Debug)]
pub struct EditorColors {
    pub cursor: Option<Color>,
    pub cursor_text: Option<Color>,
    pub match_paren: Option<Color>,
    pub selection_bg: Option<Color>,
    pub selection_fg: Option<Color>,
    pub inlay_hint_bg: Option<Color>,
    pub inlay_hint_fg: Option<Color>,
    pub search_bg: Option<Color>,
    pub search_fg: Option<Color>,
}

impl EditorColors {
    /// The names of the slots, in their fixed order.
    pub open spec fn names() -> Seq<Seq<char>> {
        seq![
            "cursor"@,
            "cursor_text"@,
            "match_paren"@,
            "selection_bg"@,
            "selection_fg"@,
            "inlay_hint_bg"@,
            "inlay_hint_fg"@,
            "search_bg"@,
            "search_fg"@,
        ]
    }

    /// The slots, each at the place of its name.
    pub open spec fn slots(&self) -> Seq<Option<Color>> {
        seq![
            self.cursor,
            self.cursor_text,
            self.match_paren,
            self.selection_bg,
            self.selection_fg,
            self.inlay_hint_bg,
            self.inlay_hint_fg,
            self.search_bg,
            self.search_fg,
        ]
    }

    /// The names of the slots, in their fixed order.
    pub fn slot_names() -> (names: Vec<&'static str>)
        ensures
            names_view(names@) == Self::names(),
    {
        let names = vec![
            "cursor",
            "cursor_text",
            "match_paren",
            "selection_bg",
            "selection_fg",
            "inlay_hint_bg",
            "inlay_hint_fg",
            "search_bg",
            "search_fg",
        ];
        assert(names_view(names@) =~= Self::names());
        names
    }

    /// The slots, each at the place of its name.
    pub fn to_slots(&self) -> (slots: Vec<Option<Color>>)
        ensures
            slots@ == self.slots(),
    {
        let slots = vec![
            self.cursor,
            self.cursor_text,
            self.match_paren,
            self.selection_bg,
            self.selection_fg,
            self.inlay_hint_bg,
            self.inlay_hint_fg,
            self.search_bg,
            self.search_fg,
        ];
        assert(slots@ =~= self.slots());
        slots
    }

    /// The group that holds the given slots, each under the name of its place.
    fn from_slots(slots: &Vec<Option<Color>>) -> (r: Self)
        requires
            slots@.len() == 9,
        ensures
            r.slots() == slots@,
    {
        let r = EditorColors {
            cursor: slots[0],
            cursor_text: slots[1],
            match_paren: slots[2],
            selection_bg: slots[3],
            selection_fg: slots[4],
            inlay_hint_bg: slots[5],
            inlay_hint_fg: slots[6],
            search_bg: slots[7],
            search_fg: slots[8],
        };
        assert(r.slots() =~= slots@);
        r
    }

    /// Reads the group out of the `editor` section of a manifest.
    pub fn from_section(section: &ManifestSection) -> (r: Result<Self, PaletteError>)
        ensures
            match r {
                Ok(group) => group_of(section@, "editor"@, Self::names()) == Ok::<
                    Seq<Option<Color>>,
                    ErrorView,
                >(group.slots()),
                Err(e) => group_of(section@, "editor"@, Self::names()) == Err::<
                    Seq<Option<Color>>,
                    ErrorView,
                >(e@),
            },
    {
        let names = Self::slot_names();
        match resolve_slots(section, "editor", &names) {
            Ok(slots) => Ok(Self::from_slots(&slots)),
            Err(e) => Err(e),
        }
    }

    /// The set slots with their names, in the fixed order of the names.
    pub fn populated_slots(&self) -> (r: Vec<(&'static str, Color)>)
        ensures
            named_view(r@) == populated(Self::names(), self.slots()),
    {
        populated_of(&Self::slot_names(), &self.to_slots())
    }
}

/// The slots of the `terminal` section.
#[derive(Clone, Copy, Debug)]
pub struct TerminalAnsiColors {
    pub black: Option<Color>,
    pub red: Option<Color>,
    pub green: Option<Color>,
    pub yellow: Option<Color>,
    pub blue: Option<Color>,
    pub magenta: Option<Color>,
    pub cyan: Option<Color>,
    pub white: Option<Color>,
    pub bright_black: Option<Color>,
    pub bright_red: Option<Color>,
    pub bright_green: Option<Color>,
    pub bright_yellow: Option<Color>,
    pub bright_blue: Option<Color>,
    pub bright_magenta: Option<Color>,
    pub bright_cyan: Option<Color>,
    pub bright_white: Option<Color>,
}

impl TerminalAnsiColors {
    /// The names of the slots, in their fixed order.
    pub open spec fn names() -> Seq<Seq<char>> {
        seq![
            "black"@,
            "red"@,
            "green"@,
            "yellow"@,
            "blue"@,
            "magenta"@,
            "cyan"@,
            "white"@,
            "bright_black"@,
            "bright_red"@,
            "bright_green"@,
            "bright_yellow"@,
            "bright_blue"@,
            "bright_magenta"@,
            "bright_cyan"@,
            "bright_white"@,
        ]
    }

    /// The slots, each at the place of its name.
    pub open spec fn slots(&self) -> Seq<Option<Color>> {
        seq![
            self.black,
            self.red,
            self.green,
            self.yellow,
            self.blue,
            self.magenta,
            self.cyan,
            self.white,
            self.bright_black,
            self.bright_red,
            self.bright_green,
            self.bright_yellow,
            self.bright_blue,
            self.bright_magenta,
            self.bright_cyan,
            self.bright_white,
        ]
    }

    /// The names of the slots, in their fixed order.
    pub fn slot_names() -> (names: Vec<&'static str>)
        ensures
            names_view(names@) == Self::names(),
    {
        let names = vec![
            "black",
            "red",
            "green",
            "yellow",
            "blue",
            "magenta",
            "cyan",
            "white",
            "bright_black",
            "bright_red",
            "bright_green",
            "bright_yellow",
            "bright_blue",
            "bright_magenta",
            "bright_cyan",
            "bright_white",
        ];
        assert(names_view(names@) =~= Self::names());
        names
    }

    /// The slots, each at the place of its name.
    pub fn to_slots(&self) -> (slots: Vec<Option<Color>>)
        ensures
            slots@ == self.slots(),
    {
        let slots = vec![
            self.black,
            self.red,
            self.green,
            self.yellow,
            self.blue,
            self.magenta,
            self.cyan,
            self.white,
            self.bright_black,
            self.bright_red,
            self.bright_green,
            self.bright_yellow,
            self.bright_blue,
            self.bright_magenta,
            self.bright_cyan,
            self.bright_white,
        ];
        assert(slots@ =~= self.slots());
        slots
    }

    /// The group that holds the given slots, each under the name of its place.
    fn from_slots(slots: &Vec<Option<Color>>) -> (r: Self)
        requires
            slots@.len() == 16,
        ensures
            r.slots() == slots@,
    {
        let r = TerminalAnsiColors {
            black: slots[0],
            red: slots[1],
            green: slots[2],
            yellow: slots[3],
            blue: slots[4],
            magenta: slots[5],
            cyan: slots[6],
            white: slots[7],
            bright_black: slots[8],
            bright_red: slots[9],
            bright_green: slots[10],
            bright_yellow: slots[11],
            bright_blue: slots[12],
            bright_magenta: slots[13],
            bright_cyan: slots[14],
            bright_white: slots[15],
        };
        assert(r.slots() =~= slots@);
        r
    }

    /// Reads the group out of the `terminal` section of a manifest.
    pub fn from_section(section: &ManifestSection) -> (r: Result<Self, PaletteError>)
        ensures
            match r {
                Ok(group) => group_of(section@, "terminal"@, Self::names()) == Ok::<
                    Seq<Option<Color>>,
                    ErrorView,
                >(group.slots()),
                Err(e) => group_of(section@, "terminal"@, Self::names()) == Err::<
                    Seq<Option<Color>>,
                    ErrorView,
                >(e@),
            },
    {
        let names = Self::slot_names();
        match resolve_slots(section, "terminal", &names) {
            Ok(slots) => Ok(Self::from_slots(&slots)),
            Err(e) => Err(e),
        }
    }

    /// The set slots with their names, in the fixed order of the names.
    pub fn populated_slots(&self) -> (r: Vec<(&'static str, Color)>)
        ensures
            named_view(r@) == populated(Self::names(), self.slots()),
    {
        populated_of(&Self::slot_names(), &self.to_slots())
    }
}

} // verus!
