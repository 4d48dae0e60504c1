//! The colours that a palette gives to an `egui` interface.

use vstd::prelude::*;
use crate::color::Color;
use crate::palette::Palette;

verus! {

/// The colour type of `egui`: four bytes that only the library reads.
#[verifier::external_type_specification]
#[verifier::external_body]
pub struct ExColor32(::egui::Color32);

/// The four bytes of an `egui` colour: red, green, blue and alpha.
pub uninterp spec fn color32_bytes(c: ::egui::Color32) -> Seq<u8>;

/// The opaque `egui` colour of the same three channels.
///
/// Trusted: `Color32::from_rgb` stores the three channels as given, with an
/// alpha of 255.
#[verifier::external_body]
pub fn to_color32(color: &Color) -> (c: ::egui::Color32)
    ensures
        color32_bytes(c) == seq![color.r, color.g, color.b, 255u8],
{
    ::egui::Color32::from_rgb(color.r, color.g, color.b)
}

/// Whether the `egui` colour `c` shows `color`: the same three channels,
/// fully opaque.
pub open spec fn shows(c: ::egui::Color32, color: Color) -> bool {
    color32_bytes(c) == seq![color.r, color.g, color.b, 255u8]
}

/// Whether a visual is given the colour of a slot: the colour that shows
/// it where the slot is set, and none where it is unset.
pub open spec fn given(visual: Option<::egui::Color32>, slot: Option<Color>) -> bool {
    match slot {
        Some(color) => visual matches Some(c) && shows(c, color),
        None => visual is None,
    }
}

/// The colours that a palette gives to the visuals of an interface, each
/// under the name of the visual that takes it. Where a colour is none, the
/// default of the dark theme stays.
#[derive(Clone, Copy, Debug)]
pub struct VisualColors {
    pub panel_fill: Option<::egui::Color32>,
    pub window_fill: Option<::egui::Color32>,
    pub faint_bg_color: Option<::egui::Color32>,
    pub extreme_bg_color: Option<::egui::Color32>,
    pub override_text_color: Option<::egui::Color32>,
    pub error_fg_color: Option<::egui::Color32>,
    pub warn_fg_color: Option<::egui::Color32>,
    pub hyperlink_color: Option<::egui::Color32>,
    pub selection_bg_fill: Option<::egui::Color32>,
    pub hovered_bg_fill: Option<::egui::Color32>,
    pub active_bg_fill: Option<::egui::Color32>,
}

/// The `egui` colour of a slot.
fn visual(slot: Option<Color>) -> (r: Option<::egui::Color32>)
    ensures
        given(r, slot),
{
    match slot {
        Some(color) => Some(to_color32(&color)),
        None => None,
    }
}

/// Picks the colours of the visuals out of a palette. The background fills
/// the panels, the windows and the faint and extreme backgrounds; the
/// foreground is the text; error, warning and info colour the errors, the
/// warnings and the hyperlinks; the selection is the selection's
/// background; the highlight fills the hovered and the active widgets.
pub fn to_egui_visuals(palette: &Palette) -> (v: VisualColors)
    ensures
        given(v.panel_fill, palette.base.background),
        given(v.window_fill, palette.base.background),
        given(v.faint_bg_color, palette.base.background),
        given(v.extreme_bg_color, palette.base.background),
        given(v.override_text_color, palette.base.foreground),
        given(v.error_fg_color, palette.semantic.error),
        given(v.warn_fg_color, palette.semantic.warning),
        given(v.hyperlink_color, palette.semantic.info),
        given(v.selection_bg_fill, palette.surface.selection),
        given(v.hovered_bg_fill, palette.surface.highlight),
        given(v.active_bg_fill, palette.surface.highlight),
{
    let background = visual(palette.base.background);
    let highlight = visual(palette.surface.highlight);
    VisualColors {
        panel_fill: background,
        window_fill: background,
        faint_bg_color: background,
        extreme_bg_color: background,
        override_text_color: visual(palette.base.foreground),
        error_fg_color: visual(palette.semantic.error),
        warn_fg_color: visual(palette.semantic.warning),
        hyperlink_color: visual(palette.semantic.info),
        selection_bg_fill: visual(palette.surface.selection),
        hovered_bg_fill: highlight,
        active_bg_fill: highlight,
    }
}

} // verus!
