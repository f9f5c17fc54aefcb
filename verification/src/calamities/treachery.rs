use vstd::prelude::*;
use crate::entity::Entity;

verus! {

/// Treachery (rule 30.22): a city of the primary victim is replaced by one of
/// the player who traded the card, or just reduced when it was not traded.
#[derive(Debug, Clone, Default)]
pub struct TreacheryState {
    pub phase: TreacheryPhase,
    pub city_to_replace: Option<Entity>,
    pub beneficiary: Option<Entity>,
}

#[derive(Debug, Clone, Default, PartialEq, Eq, Structural)]
pub enum TreacheryPhase {
    #[default]
    SelectCity,
    ApplyEffects,
    Complete,
}

impl TreacheryState {
    pub fn new() -> (s: Self)
        ensures
            s == (TreacheryState {
                phase: TreacheryPhase::SelectCity,
                city_to_replace: None,
                beneficiary: None,
            }),
    {
        TreacheryState { phase: TreacheryPhase::SelectCity, city_to_replace: None, beneficiary: None }
    }

    /// Traded Treachery: `city` goes to `beneficiary`.
    pub fn with_trade(city: Entity, beneficiary: Entity) -> (s: Self)
        ensures
            s == (TreacheryState {
                phase: TreacheryPhase::ApplyEffects,
                city_to_replace: Some(city),
                beneficiary: Some(beneficiary),
            }),
    {
        TreacheryState {
            phase: TreacheryPhase::ApplyEffects,
            city_to_replace: Some(city),
            beneficiary: Some(beneficiary),
        }
    }

    /// Untraded Treachery: `city` is reduced, nobody gains it.
    pub fn without_trade(city: Entity) -> (s: Self)
        ensures
            s == (TreacheryState {
                phase: TreacheryPhase::ApplyEffects,
                city_to_replace: Some(city),
                beneficiary: None,
            }),
    {
        TreacheryState {
            phase: TreacheryPhase::ApplyEffects,
            city_to_replace: Some(city),
            beneficiary: None,
        }
    }
}

} // verus!
