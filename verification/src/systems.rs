//! Systems shared by the menus.
use vstd::prelude::*;

verus! {

/// Switches a debug flag on, as the registered flags are when debug mode turns on.
pub fn set_entry_to_on(debug_mode_target: &mut bool)
    ensures
        *final(debug_mode_target),
{
    *debug_mode_target = true;
}

/// Switches a debug flag off, as the registered flags are when debug mode turns off.
pub fn set_entry_to_off(debug_mode_target: &mut bool)
    ensures
        !*final(debug_mode_target),
{
    *debug_mode_target = false;
}

} // verus!
