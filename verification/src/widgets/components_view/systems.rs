//! Markers for the components view.
use vstd::prelude::*;

verus! {

/// Marks the window that the components view is shown in.
pub struct FocusWindow;

} // verus!
