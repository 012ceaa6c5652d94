//! The geometry and colour types of `egui` that the library carries, and the
//! few `egui` calls that it makes on them.

use vstd::prelude::*;

verus! {

#[verifier::external_type_specification]
#[verifier::external_body]
pub struct ExRect(egui::Rect);

#[verifier::external_type_specification]
#[verifier::external_body]
pub struct ExPos2(egui::Pos2);

#[verifier::external_type_specification]
#[verifier::external_body]
pub struct ExVec2(egui::Vec2);

#[verifier::external_type_specification]
#[verifier::external_body]
pub struct ExColor32(egui::Color32);

/// Whether `rect` contains `pos`, as `egui::Rect::contains` decides it
/// (inclusive on all four edges, on floating-point coordinates).
pub uninterp spec fn rect_contains(rect: egui::Rect, pos: egui::Pos2) -> bool;

/// The colour that `egui::Color32::from_rgb` makes of the three channels.
pub uninterp spec fn rgb_color(r: u8, g: u8, b: u8) -> egui::Color32;

/// Calls `egui::Rect::contains`. Claimed: the answer depends on the rectangle
/// and the point alone. What it is on given coordinates is not stated: it is a
/// comparison of floating-point numbers.
#[verifier::external_body]
pub(crate) fn rect_contains_pos(rect: &egui::Rect, pos: egui::Pos2) -> (b: bool)
    ensures
        b == rect_contains(*rect, pos),
{
    rect.contains(pos)
}

/// Calls `egui::Color32::from_rgb`. Claimed: the colour depends on the three
/// channels alone (the source builds `[r, g, b, 255]`).
#[verifier::external_body]
pub(crate) fn color_from_rgb(r: u8, g: u8, b: u8) -> (c: egui::Color32)
    ensures
        c == rgb_color(r, g, b),
{
    egui::Color32::from_rgb(r, g, b)
}

/// Reads `egui::Color32::GRAY`. Claimed: it is the colour that `from_rgb`
/// makes of 160, 160, 160, which is how the source defines the constant.
#[verifier::external_body]
pub(crate) fn gray() -> (c: egui::Color32)
    ensures
        c == rgb_color(160, 160, 160),
{
    egui::Color32::GRAY
}

} // verus!
