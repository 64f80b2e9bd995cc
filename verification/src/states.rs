//! The states of the debug menu.
pub use crate::widgets::debug_menu::DebugMenuState;
