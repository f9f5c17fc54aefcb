use vstd::prelude::*;
use crate::entity::Entity;

verus! {

/// Barbarian Hordes (rule 30.52): Barbarian tokens land in the area where
/// they do the primary victim most damage, fight there, and any surplus
/// moves on to the adjacent area of greatest damage until none is left.
#[derive(Debug, Clone, Default)]
pub struct BarbarianHordesState {
    pub phase: BarbarianHordesPhase,
    /// The area the Barbarians currently occupy.
    pub landing_area: Option<Entity>,
    /// The owner of the Barbarian tokens, once placed.
    pub barbarian_entity: Option<Entity>,
    /// Every area the Barbarians have occupied during this resolution.
    pub visited_areas: Vec<Entity>,
    /// Every Barbarian token placed for this resolution.
    pub all_tokens: Vec<Entity>,
    /// Hops taken so far by the movement cascade.
    pub cascade_iterations: usize,
}

/// Upper bound on the number of hops of the movement cascade.
pub const MAX_CASCADE_ITERATIONS: usize = 20;

#[derive(Debug, Clone, Default, PartialEq, Eq, Structural)]
pub enum BarbarianHordesPhase {
    #[default]
    FindLandingArea,
    PlaceBarbarians,
    EnterArea,
    AwaitingConflict,
    CheckSurplus,
    Complete,
}

impl BarbarianHordesState {
    pub fn new() -> (s: Self)
        ensures
            s.phase == BarbarianHordesPhase::FindLandingArea,
            s.landing_area is None,
            s.barbarian_entity is None,
            s.visited_areas@.len() == 0,
            s.all_tokens@.len() == 0,
            s.cascade_iterations == 0,
    {
        BarbarianHordesState {
            phase: BarbarianHordesPhase::FindLandingArea,
            landing_area: None,
            barbarian_entity: None,
            visited_areas: Vec::new(),
            all_tokens: Vec::new(),
            cascade_iterations: 0,
        }
    }
}

/// Damage the Barbarians do to the primary victim in an area (rules
/// 30.5211/30.5234): one point per victim token, five for a victim city.
pub open spec fn damage_score(victim_tokens: nat, victim_has_city: bool) -> nat {
    victim_tokens + if victim_has_city { 5nat } else { 0nat }
}

pub fn barbarian_damage_score(victim_tokens: usize, victim_has_city: bool) -> (score: usize)
    requires
        damage_score(victim_tokens as nat, victim_has_city) <= usize::MAX,
    ensures
        score == damage_score(victim_tokens as nat, victim_has_city),
{
    victim_tokens + if victim_has_city { 5 } else { 0 }
}

} // verus!
