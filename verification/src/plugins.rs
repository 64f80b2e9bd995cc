//! What the setup plugin puts into the application when it is built.
use crate::colors::{alpha, color32_rgba};
use crate::resources::Opacity;
use crate::widgets::debug_menu::DebugMenuKeybinds;
use bevy_input::keyboard::KeyCode;
use egui::Color32;
use vstd::prelude::*;

verus! {

/// The opacity the menu starts with: the alpha of the style's fill, or fully
/// opaque when there is no style.
pub fn initial_opacity(fill: Option<&Color32>) -> (r: Opacity)
    ensures
        r.0 == match fill {
            Some(c) => color32_rgba(*c)[3],
            None => 255u8,
        },
{
    match fill {
        Some(c) => Opacity(alpha(c)),
        None => Opacity(u8::MAX),
    }
}

/// The keybinds the menu uses: those given, or else the default ones.
pub fn keybinds_or_default(keybinds_override: Option<DebugMenuKeybinds>) -> (r: DebugMenuKeybinds)
    ensures
        keybinds_override is Some ==> r == keybinds_override->0,
        keybinds_override is None ==> {
            &&& r.wf()
            &&& r.toggle_debug_menu == KeyCode::Backquote
            &&& r.filter_quick_focus@ == set![KeyCode::ControlLeft, KeyCode::KeyF]
            &&& r.clear@ == set![KeyCode::ControlLeft, KeyCode::KeyC]
            &&& r.cycle_views == KeyCode::AltLeft
        },
{
    match keybinds_override {
        Some(k) => k,
        None => DebugMenuKeybinds::default(),
    }
}

} // verus!
