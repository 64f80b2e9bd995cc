//! The look of the debug menu.
use crate::colors::{color32_rgba, rgba_premultiplied};
use egui::Color32;
use vstd::prelude::*;

verus! {

/// The fill of the debug menu's frame: a dark gray at half opacity.
pub fn debug_frame_fill() -> (c: Color32)
    ensures
        color32_rgba(c) == seq![15u8, 15u8, 15u8, 128u8],
{
    rgba_premultiplied(15, 15, 15, 128)
}

} // verus!
