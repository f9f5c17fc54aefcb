pub mod secondary_loss;
pub mod barbarian_hordes;
pub mod superstition;
pub mod civil_disorder;
pub mod treachery;
pub mod volcano_earthquake;
pub mod piracy;
pub mod slave_revolt;
pub mod flood;
pub mod famine;
pub mod epidemic;
pub mod iconoclasm_heresy;
pub mod civil_war;

use vstd::prelude::*;

verus! {

/// The calamity a player is currently resolving, with its progress.
#[derive(Debug, Clone)]
pub enum ResolvingCalamity {
    VolcanoEarthquake(volcano_earthquake::VolcanoEarthquakeState),
    Treachery(treachery::TreacheryState),
    Famine(famine::FamineState),
    Superstition(superstition::SuperstitionState),
    CivilWar(civil_war::CivilWarState),
    SlaveRevolt(slave_revolt::SlaveRevoltState),
    Flood(flood::FloodState),
    BarbarianHordes(barbarian_hordes::BarbarianHordesState),
    Epidemic(epidemic::EpidemicState),
    CivilDisorder(civil_disorder::CivilDisorderState),
    IconoclasmAndHeresy(iconoclasm_heresy::IconoclasmHeresyState),
    Piracy(piracy::PiracyState),
}

} // verus!
