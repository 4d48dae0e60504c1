//! Colour themes resolved from declarative documents.
//!
//! A theme is written as a table of named hex colours, grouped in eight
//! sections. A variant theme names a parent and overrides only some of its
//! slots. This crate parses such documents into a [`PaletteManifest`], merges
//! a variant over its parent, and validates the outcome into a typed
//! [`Palette`] whose slots are enumerated in one fixed order.

pub mod color;
pub mod text;
pub mod section;
pub mod meta;
pub mod error;
pub mod document;
pub mod manifest;
pub mod merge;
pub mod slots;
pub mod groups;
pub mod palette;
pub mod presets;
pub mod registry;
pub mod css;
pub mod terminal;
pub mod egui;

pub use color::Color;
pub use error::PaletteError;
pub use manifest::PaletteManifest;
pub use palette::{Palette, PaletteMeta};
pub use registry::{load_preset, preset_ids};
