//! Vocabulary of the registry surface: the actions a registry invocation can
//! be labelled with and the read-only response shapes.

use vstd::prelude::*;

verus! {

/// What a registry invocation did, as recorded in its result attributes.
#[derive(Clone, Copy, Debug, PartialEq, Eq, Structural)]
pub enum Action {
    Instantiate,
    UpdateConfig,
    AddPlanet,
    EditPlanet,
    RemovePlanet,
}

impl Action {
    /// The snake_case label of this action.
    pub fn label(&self) -> (r: &'static str)
        ensures
            match self {
                Action::Instantiate => r@ == "instantiate"@,
                Action::UpdateConfig => r@ == "update_config"@,
                Action::AddPlanet => r@ == "add_planet"@,
                Action::EditPlanet => r@ == "edit_planet"@,
                Action::RemovePlanet => r@ == "remove_planet"@,
            },
    {
        match self {
            Action::Instantiate => "instantiate",
            Action::UpdateConfig => "update_config",
            Action::AddPlanet => "add_planet",
            Action::EditPlanet => "edit_planet",
            Action::RemovePlanet => "remove_planet",
        }
    }
}

/// One registered planet, as read back by a query.
#[derive(Clone, Debug, PartialEq, Eq)]
pub struct PlanetResponse {
    pub contract_addr: String,
    pub title: String,
    pub description: String,
}

/// A page of registered planets, in ascending address order.
#[derive(Clone, Debug, PartialEq, Eq)]
pub struct PlanetsResponse {
    pub planets: Vec<PlanetResponse>,
}

} // verus!
