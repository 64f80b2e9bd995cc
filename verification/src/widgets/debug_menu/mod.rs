pub mod resources;
pub mod systems;

use crate::keyboard::KeyChord;
use bevy_input::keyboard::KeyCode;
use vstd::prelude::*;

verus! {

/// Whether the debug menu is shown, and in which form.
#[derive(Debug, Clone, Copy, PartialEq, Eq, Structural, Hash)]
pub enum DebugMenuState {
    /// Explain controls to manage debug menu
    Explain,
    Open,
    Closed,
}

impl Default for DebugMenuState {
    fn default() -> (r: Self)
        ensures
            r == DebugMenuState::Closed,
    {
        DebugMenuState::Closed
    }
}

/// The menu's keybinds.
pub struct DebugMenuKeybinds {
    /// toggles the debug menu on and off.
    pub toggle_debug_menu: KeyCode,
    /// opens the debug menu and puts the focus on the filter for components and resources.
    pub filter_quick_focus: KeyChord,
    /// clears all selected values in the debug menu.
    pub clear: KeyChord,
    /// cycles between the menu's views.
    pub cycle_views: KeyCode,
}

impl DebugMenuKeybinds {
    /// Neither chord lists a key twice.
    pub open spec fn wf(&self) -> bool {
        self.filter_quick_focus.wf() && self.clear.wf()
    }
}

impl Default for DebugMenuKeybinds {
    fn default() -> (r: Self)
        ensures
            r.wf(),
            r.toggle_debug_menu == KeyCode::Backquote,
            r.filter_quick_focus@ == set![KeyCode::ControlLeft, KeyCode::KeyF],
            r.clear@ == set![KeyCode::ControlLeft, KeyCode::KeyC],
            r.cycle_views == KeyCode::AltLeft,
    {
        let mut filter_quick_focus = KeyChord::new();
        filter_quick_focus.insert(KeyCode::ControlLeft);
        filter_quick_focus.insert(KeyCode::KeyF);
        let mut clear = KeyChord::new();
        clear.insert(KeyCode::ControlLeft);
        clear.insert(KeyCode::KeyC);
        proof {
            assert(filter_quick_focus@ =~= set![KeyCode::ControlLeft, KeyCode::KeyF]);
            assert(clear@ =~= set![KeyCode::ControlLeft, KeyCode::KeyC]);
        }
        DebugMenuKeybinds {
            toggle_debug_menu: KeyCode::Backquote,
            filter_quick_focus,
            clear,
            cycle_views: KeyCode::AltLeft,
        }
    }
}

} // verus!
