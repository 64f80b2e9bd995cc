//! Verified core of a debug-menu toolkit for Bevy applications: the decisions
//! behind the menu's keyboard controls, its type catalog and selection, its
//! tables and its widgets, stated over plain values.
pub mod assoc;
pub mod colors;
pub mod keyboard;
pub mod plugins;
pub mod resources;
pub mod states;
pub mod stylesheets;
pub mod systems;
pub mod tables;
pub mod text;
pub mod tree;
pub mod type_ids;
pub mod widgets;

pub use plugins::{initial_opacity, keybinds_or_default};
pub use resources::{apply_opacity, Opacity, UiAlignment, GLASS_OPACITY, OPACITY_MAX, OPACITY_MIN, OPAQUE_OPACITY};
pub use stylesheets::debug_frame_fill;
pub use systems::{set_entry_to_off, set_entry_to_on};


use core::any::TypeId;
use vstd::prelude::*;

verus! {

/// Where a menu is shown: in a side panel, or in a window of its own.
pub enum Display {
    Side(Side),
    Window,
}

/// The side of the screen that a side panel sits on.
#[derive(Clone, Copy, Debug, PartialEq, Eq, Structural)]
pub enum Side {
    Left,
    Right,
}

/// Keeps a type's identity and its name together after the type itself has been erased.
#[derive(Debug, PartialEq, Eq, Hash)]
pub struct TypeIdNameCache {
    pub(crate) type_id: TypeId,
    pub(crate) name: String,
}

impl TypeIdNameCache {
    /// The identity held.
    pub closed spec fn type_id_view(&self) -> TypeId {
        self.type_id
    }

    /// The name held.
    pub closed spec fn name_view(&self) -> Seq<char> {
        self.name@
    }

    /// Pairs a type's identity with its name.
    pub fn new(type_id: TypeId, name: String) -> (r: Self)
        ensures
            r.type_id_view() == type_id,
            r.name_view() == name@,
    {
        TypeIdNameCache { type_id, name }
    }

    pub fn type_id(&self) -> (r: TypeId)
        ensures
            r == self.type_id_view(),
    {
        self.type_id
    }

    pub fn name(&self) -> (r: &str)
        ensures
            r@ == self.name_view(),
    {
        self.name.as_str()
    }
}

impl Clone for TypeIdNameCache {
    fn clone(&self) -> (r: Self)
        ensures
            r == *self,
    {
        TypeIdNameCache { type_id: self.type_id, name: self.name.clone() }
    }
}

} // verus!
