//! The egui colours, alignments and panel sides that the menus pick between.
use egui::{Align, Align2, Color32};
use vstd::prelude::*;

verus! {

#[verifier::external_type_specification]
#[verifier::external_body]
pub struct ExColor32(Color32);

#[verifier::external_type_specification]
pub struct ExAlign(Align);

#[verifier::external_type_specification]
pub struct ExAlign2(Align2);

/// The four channels (red, green, blue, alpha) that an egui colour holds.
pub uninterp spec fn color32_rgba(c: Color32) -> Seq<u8>;

/// `Color32::from_rgba_premultiplied`: a colour made of exactly the four given channels.
#[verifier::external_body]
pub(crate) fn rgba_premultiplied(r: u8, g: u8, b: u8, a: u8) -> (c: Color32)
    ensures
        color32_rgba(c) == seq![r, g, b, a],
{
    Color32::from_rgba_premultiplied(r, g, b, a)
}

/// `Color32::from_rgb`: an opaque colour, its alpha channel 255.
#[verifier::external_body]
pub(crate) fn rgb(r: u8, g: u8, b: u8) -> (c: Color32)
    ensures
        color32_rgba(c) == seq![r, g, b, 255u8],
{
    Color32::from_rgb(r, g, b)
}

/// `Color32::a`: the alpha channel, the fourth of the four channels.
#[verifier::external_body]
pub(crate) fn alpha(c: &Color32) -> (a: u8)
    ensures
        a == color32_rgba(*c)[3],
{
    c.a()
}

/// Indexing a `Color32` mutably at 3: the alpha channel is replaced, the others kept.
#[verifier::external_body]
pub(crate) fn set_alpha(c: &mut Color32, a: u8)
    ensures
        color32_rgba(*final(c)) == color32_rgba(*old(c)).update(3, a),
{
    c[3] = a;
}

/// egui's white, `Color32::WHITE`, which egui defines as `from_rgb(255, 255, 255)`.
pub fn white() -> (c: Color32)
    ensures
        color32_rgba(c) == seq![255u8, 255u8, 255u8, 255u8],
{
    rgb(255, 255, 255)
}

/// egui's gray, `Color32::GRAY`, which egui defines as `from_rgb(160, 160, 160)`.
pub fn gray() -> (c: Color32)
    ensures
        color32_rgba(c) == seq![160u8, 160u8, 160u8, 255u8],
{
    rgb(160, 160, 160)
}

/// The colour of a button's label: white when the item it stands for is selected, gray otherwise.
pub fn selection_color(selected: bool) -> (c: Color32)
    ensures
        selected ==> color32_rgba(c) == seq![255u8, 255u8, 255u8, 255u8],
        !selected ==> color32_rgba(c) == seq![160u8, 160u8, 160u8, 255u8],
{
    if selected {
        white()
    } else {
        gray()
    }
}

/// `Align2::LEFT_TOP`, which egui defines as `Align2([Align::Min, Align::Min])`.
pub fn left_top() -> (a: Align2)
    ensures
        a.0@ == seq![Align::Min, Align::Min],
{
    Align2([Align::Min, Align::Min])
}

} // verus!
