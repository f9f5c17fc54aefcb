use vstd::prelude::*;
use crate::entity::Entity;

verus! {

/// Civil Disorder (rule 30.71): all but three of the primary victim's cities
/// are reduced; `cities_modifier` is the net signed change to the number of
/// cities kept (Music, Drama and Poetry, Law and Democracy each keep one
/// more; Military and Road Building each keep one fewer).
#[derive(Debug, Clone, Default)]
pub struct CivilDisorderState {
    pub phase: CivilDisorderPhase,
    pub cities_to_reduce: usize,
    pub cities_modifier: i32,
    pub selected_cities: Vec<Entity>,
}

#[derive(Debug, Clone, Default, PartialEq, Eq, Structural)]
pub enum CivilDisorderPhase {
    #[default]
    ComputeEffects,
    SelectCities,
    ApplyEffects,
    Complete,
}

/// Cities kept: three plus the modifier, never fewer than none.
pub open spec fn cities_kept(modifier: int) -> nat {
    if 3 + modifier < 0 { 0 } else { (3 + modifier) as nat }
}

/// Cities reduced out of `total`: all beyond those kept.
pub open spec fn cities_reduced(total: nat, modifier: int) -> nat {
    if total <= cities_kept(modifier) { 0 } else { (total - cities_kept(modifier)) as nat }
}

impl CivilDisorderState {
    pub fn new() -> (s: Self)
        ensures
            s.phase == CivilDisorderPhase::ComputeEffects,
            s.cities_to_reduce == 0,
            s.cities_modifier == 0,
            s.selected_cities@.len() == 0,
    {
        CivilDisorderState {
            phase: CivilDisorderPhase::ComputeEffects,
            cities_to_reduce: 0,
            cities_modifier: 0,
            selected_cities: Vec::new(),
        }
    }

    /// Sets the number of cities to reduce for a victim with `total_cities`.
    pub fn compute_cities_to_reduce(&mut self, total_cities: usize)
        requires
            old(self).cities_modifier <= i32::MAX - 3,
        ensures
            *final(self) == (CivilDisorderState {
                cities_to_reduce: cities_reduced(total_cities as nat, old(self).cities_modifier as int)
                    as usize,
                ..*old(self)
            }),
    {
        let sum: i32 = 3i32 + self.cities_modifier;
        let keep: usize = if sum < 0 { 0 } else { sum as usize };
        self.cities_to_reduce = if total_cities <= keep { 0 } else { total_cities - keep };
    }

    /// Music: one more city kept.
    pub fn with_music(self) -> (s: Self)
        requires
            self.cities_modifier < i32::MAX,
        ensures
            s == (CivilDisorderState { cities_modifier: (self.cities_modifier + 1) as i32, ..self }),
    {
        let mut s = self;
        s.cities_modifier = s.cities_modifier + 1;
        s
    }

    /// Drama and Poetry: one more city kept.
    pub fn with_drama_and_poetry(self) -> (s: Self)
        requires
            self.cities_modifier < i32::MAX,
        ensures
            s == (CivilDisorderState { cities_modifier: (self.cities_modifier + 1) as i32, ..self }),
    {
        let mut s = self;
        s.cities_modifier = s.cities_modifier + 1;
        s
    }

    /// Law: one more city kept.
    pub fn with_law(self) -> (s: Self)
        requires
            self.cities_modifier < i32::MAX,
        ensures
            s == (CivilDisorderState { cities_modifier: (self.cities_modifier + 1) as i32, ..self }),
    {
        let mut s = self;
        s.cities_modifier = s.cities_modifier + 1;
        s
    }

    /// Democracy: one more city kept.
    pub fn with_democracy(self) -> (s: Self)
        requires
            self.cities_modifier < i32::MAX,
        ensures
            s == (CivilDisorderState { cities_modifier: (self.cities_modifier + 1) as i32, ..self }),
    {
        let mut s = self;
        s.cities_modifier = s.cities_modifier + 1;
        s
    }

    /// Military: one city fewer kept.
    pub fn with_military(self) -> (s: Self)
        requires
            self.cities_modifier > i32::MIN,
        ensures
            s == (CivilDisorderState { cities_modifier: (self.cities_modifier - 1) as i32, ..self }),
    {
        let mut s = self;
        s.cities_modifier = s.cities_modifier - 1;
        s
    }

    /// Road Building: one city fewer kept.
    pub fn with_road_building(self) -> (s: Self)
        requires
            self.cities_modifier > i32::MIN,
        ensures
            s == (CivilDisorderState { cities_modifier: (self.cities_modifier - 1) as i32, ..self }),
    {
        let mut s = self;
        s.cities_modifier = s.cities_modifier - 1;
        s
    }

    /// Records `city_area` as chosen unless enough cities are already chosen.
    pub fn select_city(&mut self, city_area: Entity)
        ensures
            final(self).phase == old(self).phase,
            final(self).cities_to_reduce == old(self).cities_to_reduce,
            final(self).cities_modifier == old(self).cities_modifier,
            final(self).selected_cities@ == if old(self).selected_cities@.len()
                < old(self).cities_to_reduce {
                old(self).selected_cities@.push(city_area)
            } else {
                old(self).selected_cities@
            },
    {
        if self.selected_cities.len() < self.cities_to_reduce {
            self.selected_cities.push(city_area);
        }
    }

    pub fn selection_complete(&self) -> (b: bool)
        ensures
            b == (self.selected_cities@.len() >= self.cities_to_reduce),
    {
        self.selected_cities.len() >= self.cities_to_reduce
    }
}

/// Law: the cities reduced never exceed those the victim owns, and at most
/// three plus the modifier are spared.
pub proof fn lemma_cities_reduced_bounds(total: nat, modifier: int)
    ensures
        cities_reduced(total, modifier) <= total,
        cities_reduced(total, modifier) + cities_kept(modifier) >= total,
{
}

} // verus!
