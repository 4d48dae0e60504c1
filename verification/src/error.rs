//! The ways in which resolving a theme fails.

use vstd::prelude::*;
use vstd::string::*;

verus! {

/// Why a theme could not be resolved. Every failure ends the operation that
/// met it: nothing half-made is handed out.
#[derive(Debug)]
pub enum PaletteError {
    /// A file could not be read: its path, and what the system said.
    Io { path: String, message: String },
    /// No preset of this identifier is in the catalog.
    UnknownPreset(String),
    /// The document has no `base` section at all.
    MissingBase,
    /// The text of a slot is no `#RRGGBB`.
    InvalidHex { section: String, field: String, value: String },
    /// The text is no document of the expected form.
    Parse(String),
}

/// The characters of a [`PaletteError`].
pub enum ErrorView {
    Io { path: Seq<char>, message: Seq<char> },
    UnknownPreset(Seq<char>),
    MissingBase,
    InvalidHex { section: Seq<char>, field: Seq<char>, value: Seq<char> },
    Parse(Seq<char>),
}

impl View for PaletteError {
    type V = ErrorView;

    open spec fn view(&self) -> ErrorView {
        match self {
            PaletteError::Io { path, message } => ErrorView::Io { path: path@, message: message@ },
            PaletteError::UnknownPreset(id) => ErrorView::UnknownPreset(id@),
            PaletteError::MissingBase => ErrorView::MissingBase,
            PaletteError::InvalidHex { section, field, value } => ErrorView::InvalidHex {
                section: section@,
                field: field@,
                value: value@,
            },
            PaletteError::Parse(message) => ErrorView::Parse(message@),
        }
    }
}

/// The text that describes an error to a reader.
pub open spec fn error_text(e: ErrorView) -> Seq<char> {
    match e {
        ErrorView::Io { path, message } => "failed to read "@ + path + ": "@ + message,
        ErrorView::UnknownPreset(id) => "unknown preset: "@ + id,
        ErrorView::MissingBase => "missing [base] section"@,
        ErrorView::InvalidHex { section, field, value } => "invalid hex color in ["@ + section
            + "]."@ + field + ": "@ + value,
        ErrorView::Parse(message) => "failed to parse theme: "@ + message,
    }
}

impl PaletteError {
    /// The text that describes the error to a reader.
    pub fn message(&self) -> (text: String)
        ensures
            text@ == error_text(self@),
    {
        match self {
            PaletteError::Io { path, message } => {
                let mut text = String::from_str("failed to read ");
                text.append(path.as_str());
                text.append(": ");
                text.append(message.as_str());
                text
            },
            PaletteError::UnknownPreset(id) => {
                let mut text = String::from_str("unknown preset: ");
                text.append(id.as_str());
                text
            },
            PaletteError::MissingBase => String::from_str("missing [base] section"),
            PaletteError::InvalidHex { section, field, value } => {
                let mut text = String::from_str("invalid hex color in [");
                text.append(section.as_str());
                text.append("].");
                text.append(field.as_str());
                text.append(": ");
                text.append(value.as_str());
                text
            },
            PaletteError::Parse(message) => {
                let mut text = String::from_str("failed to parse theme: ");
                text.append(message.as_str());
                text
            },
        }
    }
}

/// An outcome seen through the views of its two sides.
pub open spec fn result_view<T: View, E: View>(r: Result<T, E>) -> Result<T::V, E::V> {
    match r {
        Ok(t) => Ok(t@),
        Err(e) => Err(e@),
    }
}

} // verus!
