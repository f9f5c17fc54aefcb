use vstd::prelude::*;
use crate::entity::Entity;

verus! {

/// Superstition (rule 30.32): three of the primary victim's cities are
/// reduced; the highest Religion card held lowers that number instead of
/// adding to other reductions.
#[derive(Debug, Clone, Default)]
pub struct SuperstitionState {
    pub phase: SuperstitionPhase,
    pub cities_to_reduce: usize,
    pub selected_cities: Vec<Entity>,
}

#[derive(Debug, Clone, Default, PartialEq, Eq, Structural)]
pub enum SuperstitionPhase {
    #[default]
    ComputeEffects,
    SelectCities,
    ApplyEffects,
    Complete,
}

impl SuperstitionState {
    pub fn new() -> (s: Self)
        ensures
            s.phase == SuperstitionPhase::ComputeEffects,
            s.cities_to_reduce == 3,
            s.selected_cities@.len() == 0,
    {
        SuperstitionState {
            phase: SuperstitionPhase::ComputeEffects,
            cities_to_reduce: 3,
            selected_cities: Vec::new(),
        }
    }

    /// Mysticism: two cities instead of three.
    pub fn with_mysticism(self) -> (s: Self)
        ensures
            s == (SuperstitionState { cities_to_reduce: 2, ..self }),
    {
        let mut s = self;
        s.cities_to_reduce = 2;
        s
    }

    /// Deism: one city.
    pub fn with_deism(self) -> (s: Self)
        ensures
            s == (SuperstitionState { cities_to_reduce: 1, ..self }),
    {
        let mut s = self;
        s.cities_to_reduce = 1;
        s
    }

    /// Enlightenment: no city.
    pub fn with_enlightenment(self) -> (s: Self)
        ensures
            s == (SuperstitionState { cities_to_reduce: 0, ..self }),
    {
        let mut s = self;
        s.cities_to_reduce = 0;
        s
    }

    /// Records `city_area` as chosen unless enough cities are already chosen.
    pub fn select_city(&mut self, city_area: Entity)
        ensures
            final(self).phase == old(self).phase,
            final(self).cities_to_reduce == old(self).cities_to_reduce,
            final(self).selected_cities@ == if old(self).selected_cities@.len()
                < old(self).cities_to_reduce {
                old(self).selected_cities@.push(city_area)
            } else {
                old(self).selected_cities@
            },
    {
        if self.selected_cities.len() < self.cities_to_reduce {
            self.selected_cities.push(city_area);
        }
    }

    pub fn selection_complete(&self) -> (b: bool)
        ensures
            b == (self.selected_cities@.len() >= self.cities_to_reduce),
    {
        self.selected_cities.len() >= self.cities_to_reduce
    }
}

} // verus!
