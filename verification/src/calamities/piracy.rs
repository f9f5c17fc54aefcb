use vstd::prelude::*;
use crate::entity::Entity;

verus! {

/// Piracy (rule 30.91): coastal cities are replaced by Pirate cities owned by
/// one persistent Pirate nation.
#[derive(Debug, Clone, Default)]
pub struct PiracyState {
    pub phase: PiracyPhase,
    pub coastal_cities_to_replace: usize,
    pub selected_cities: Vec<Entity>,
    pub cities_to_replace: Vec<Entity>,
    /// The Pirate nation that owns Pirate cities, once found or created.
    pub pirate_nation: Option<Entity>,
    /// The player who traded the card, who may not be a secondary victim.
    pub immune_player: Option<Entity>,
    /// Cities chosen from secondary victims (rule 30.912).
    pub secondary_cities: Vec<Entity>,
}

#[derive(Debug, Clone, Default, PartialEq, Eq, Structural)]
pub enum PiracyPhase {
    #[default]
    EnsurePirateNation,
    SelectCoastalCities,
    SelectSecondaryVictims,
    ApplyEffects,
    Complete,
}

impl PiracyState {
    pub fn new() -> (s: Self)
        ensures
            s.phase == PiracyPhase::EnsurePirateNation,
            s.coastal_cities_to_replace == 2,
            s.selected_cities@.len() == 0,
            s.cities_to_replace@.len() == 0,
            s.pirate_nation is None,
            s.immune_player is None,
            s.secondary_cities@.len() == 0,
    {
        PiracyState {
            phase: PiracyPhase::EnsurePirateNation,
            coastal_cities_to_replace: 2,
            selected_cities: Vec::new(),
            cities_to_replace: Vec::new(),
            pirate_nation: None,
            immune_player: None,
            secondary_cities: Vec::new(),
        }
    }

    pub fn with_immune_player(self, player: Entity) -> (s: Self)
        ensures
            s == (PiracyState { immune_player: Some(player), ..self }),
    {
        let mut s = self;
        s.immune_player = Some(player);
        s
    }
}

} // verus!
