//! Resources that shape how the menus look.
use crate::colors::{color32_rgba, left_top, set_alpha};
use egui::{Align, Align2, Color32};
use vstd::prelude::*;

verus! {

/// The least opacity the menu's slider offers.
pub const OPACITY_MIN: u8 = 0;

/// The greatest opacity the menu's slider offers.
pub const OPACITY_MAX: u8 = 255;

/// The opacity that the menu's `Glass` button sets.
pub const GLASS_OPACITY: u8 = 128;

/// The opacity that the menu's `Opaque` button sets.
pub const OPAQUE_OPACITY: u8 = 255;

/// The alpha channel given to the menu window's fill.
pub struct Opacity(pub u8);

impl Default for Opacity {
    fn default() -> (r: Self)
        ensures
            r.0 == 0,
    {
        Opacity(0)
    }
}

impl Clone for Opacity {
    fn clone(&self) -> (r: Self)
        ensures
            r.0 == self.0,
    {
        Opacity(self.0)
    }
}

impl Opacity {
    /// The `Glass` button: half-transparent.
    pub fn set_glass(&mut self)
        ensures
            final(self).0 == GLASS_OPACITY,
    {
        self.0 = GLASS_OPACITY;
    }

    /// The `Opaque` button: fully opaque.
    pub fn set_opaque(&mut self)
        ensures
            final(self).0 == OPAQUE_OPACITY,
    {
        self.0 = OPAQUE_OPACITY;
    }
}

/// Gives a window fill the menu's opacity, where the opacity resource exists:
/// the alpha channel becomes the opacity and the colour channels stay.
pub fn apply_opacity(fill: &mut Color32, opacity: Option<&Opacity>)
    ensures
        match opacity {
            Some(o) => color32_rgba(*final(fill)) == color32_rgba(*old(fill)).update(3, o.0),
            None => *final(fill) == *old(fill),
        },
{
    match opacity {
        Some(o) => set_alpha(fill, o.0),
        None => {},
    }
}

/// Where the menus are anchored on the screen, if anywhere.
pub struct UiAlignment(pub Option<Align2>);

impl Default for UiAlignment {
    fn default() -> (r: Self)
        ensures
            r.0 matches Some(a) && a.0@ == seq![Align::Min, Align::Min],
    {
        UiAlignment(Some(left_top()))
    }
}

} // verus!
