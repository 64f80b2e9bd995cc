//! How a component filter combines the selected components.
use vstd::prelude::*;

verus! {

/// Whether an entity must hold all of the selected components, or any of them.
#[derive(Debug, Clone, Copy, PartialEq, Eq, Structural)]
pub enum ComponentFilterMode {
    AND,
    OR,
}

impl Default for ComponentFilterMode {
    fn default() -> (r: Self)
        ensures
            r == ComponentFilterMode::OR,
    {
        ComponentFilterMode::OR
    }
}

impl ComponentFilterMode {
    /// Every mode, in declaration order.
    pub fn all() -> (r: Vec<Self>)
        ensures
            r@ == seq![ComponentFilterMode::AND, ComponentFilterMode::OR],
    {
        vec![ComponentFilterMode::AND, ComponentFilterMode::OR]
    }

    /// The mode's name, as its button shows it.
    pub fn label(&self) -> (r: String)
        ensures
            match self {
                ComponentFilterMode::AND => r@ == "AND"@,
                ComponentFilterMode::OR => r@ == "OR"@,
            },
    {
        match self {
            ComponentFilterMode::AND => "AND".to_owned(),
            ComponentFilterMode::OR => "OR".to_owned(),
        }
    }
}

} // verus!
