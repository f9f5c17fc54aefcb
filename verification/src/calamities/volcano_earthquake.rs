use vstd::prelude::*;
use crate::entity::Entity;

verus! {

/// Volcanic Eruption or Earthquake (rule 30.21).
#[derive(Debug, Clone, Default)]
pub struct VolcanoEarthquakeState {
    pub phase: VolcanoEarthquakePhase,
    pub is_volcano: bool,
    pub volcano_area: Option<Entity>,
    pub city_to_destroy: Option<Entity>,
    pub city_to_reduce: Option<Entity>,
    pub areas_to_clear: Vec<Entity>,
    pub has_engineering: bool,
}

#[derive(Debug, Clone, Default, PartialEq, Eq, Structural)]
pub enum VolcanoEarthquakePhase {
    #[default]
    DetermineType,
    FindTargets,
    ApplyEffects,
    Complete,
}

impl VolcanoEarthquakeState {
    pub fn new() -> (s: Self)
        ensures
            s.phase == VolcanoEarthquakePhase::DetermineType,
            !s.is_volcano,
            s.volcano_area is None,
            s.city_to_destroy is None,
            s.city_to_reduce is None,
            s.areas_to_clear@.len() == 0,
            !s.has_engineering,
    {
        VolcanoEarthquakeState {
            phase: VolcanoEarthquakePhase::DetermineType,
            is_volcano: false,
            volcano_area: None,
            city_to_destroy: None,
            city_to_reduce: None,
            areas_to_clear: Vec::new(),
            has_engineering: false,
        }
    }

    /// An eruption of the volcano in `volcano_area`, clearing every area in
    /// `areas_to_clear` (rule 30.211).
    pub fn as_volcano(volcano_area: Entity, areas_to_clear: Vec<Entity>) -> (s: Self)
        ensures
            s.phase == VolcanoEarthquakePhase::ApplyEffects,
            s.is_volcano,
            s.volcano_area == Some(volcano_area),
            s.areas_to_clear@ == areas_to_clear@,
            s.city_to_destroy is None,
            s.city_to_reduce is None,
            !s.has_engineering,
    {
        VolcanoEarthquakeState {
            phase: VolcanoEarthquakePhase::ApplyEffects,
            is_volcano: true,
            volcano_area: Some(volcano_area),
            city_to_destroy: None,
            city_to_reduce: None,
            areas_to_clear,
            has_engineering: false,
        }
    }

    /// An earthquake destroying `city_to_destroy` and reducing an adjacent
    /// `city_to_reduce`; with Engineering the victim's city is only reduced
    /// (rules 30.212/30.213).
    pub fn as_earthquake(city_to_destroy: Entity, city_to_reduce: Option<Entity>, has_engineering: bool) -> (s: Self)
        ensures
            s.phase == VolcanoEarthquakePhase::ApplyEffects,
            !s.is_volcano,
            s.volcano_area is None,
            s.areas_to_clear@.len() == 0,
            s.has_engineering == has_engineering,
            s.city_to_destroy == if has_engineering { None } else { Some(city_to_destroy) },
            s.city_to_reduce == if has_engineering { Some(city_to_destroy) } else { city_to_reduce },
    {
        VolcanoEarthquakeState {
            phase: VolcanoEarthquakePhase::ApplyEffects,
            is_volcano: false,
            volcano_area: None,
            city_to_destroy: if has_engineering { None } else { Some(city_to_destroy) },
            city_to_reduce: if has_engineering { Some(city_to_destroy) } else { city_to_reduce },
            areas_to_clear: Vec::new(),
            has_engineering,
        }
    }
}

} // verus!
