//! The panes of the selected-components tile tree.
use crate::TypeIdNameCache;
use vstd::prelude::*;

verus! {

/// A pane of the tile tree.
pub struct Pane {
    pub name: String,
    pub component_id: Option<TypeIdNameCache>,
}

impl Default for Pane {
    fn default() -> (p: Self)
        ensures
            p.name@ == Seq::<char>::empty(),
            p.component_id is None,
    {
        Pane { name: String::new(), component_id: None }
    }
}

impl Clone for Pane {
    fn clone(&self) -> (p: Self)
        ensures
            p == *self,
    {
        Pane {
            name: self.name.clone(),
            component_id: match &self.component_id {
                Some(c) => Some(c.clone()),
                None => None,
            },
        }
    }
}

impl Pane {
    /// The title of the pane's tab: the pane's name.
    pub fn tab_title(&self) -> (r: String)
        ensures
            r@ == self.name@,
    {
        self.name.clone()
    }
}

} // verus!
