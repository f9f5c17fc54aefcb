//! The state a calamity starts resolving in, from the primary victim's
//! civilization cards and who traded the calamity to them.
use vstd::prelude::*;
use crate::calamities::ResolvingCalamity;
use crate::calamities::barbarian_hordes::{BarbarianHordesPhase, BarbarianHordesState};
use crate::calamities::civil_disorder::{CivilDisorderPhase, CivilDisorderState};
use crate::calamities::civil_war::{CivilWarPhase, CivilWarState};
use crate::calamities::epidemic::{EpidemicPhase, EpidemicState};
use crate::calamities::famine::{grain_cards_needed, FaminePhase, FamineState};
use crate::calamities::flood::{FloodPhase, FloodState};
use crate::calamities::iconoclasm_heresy::{iconoclasm_cities, IconoclasmHeresyPhase, IconoclasmHeresyState};
use crate::calamities::piracy::{PiracyPhase, PiracyState};
use crate::calamities::slave_revolt::{SlaveRevoltPhase, SlaveRevoltState};
use crate::calamities::superstition::{SuperstitionPhase, SuperstitionState};
use crate::calamities::treachery::{TreacheryPhase, TreacheryState};
use crate::cards::{CivCardName, PlayerCivilizationCards, TradeCard};
use crate::entity::Entity;

verus! {

/// `n` when the card is held, else nothing.
pub open spec fn if_held(cards: PlayerCivilizationCards, card: CivCardName, n: int) -> int {
    if cards.holds(card) { n } else { 0 }
}

/// Famine before any loss: 10 points, less four per Grain card used with
/// Pottery (rule 30.312).
pub open spec fn famine_start(s: FamineState, grain: nat, pottery: bool) -> bool {
    let used = grain_cards_needed(10, grain);
    &&& s.phase == FaminePhase::ComputeLosses
    &&& s.secondary_total == 20
    &&& s.max_per_secondary == 8
    &&& s.secondary_allocations@.len() == 0
    &&& if pottery && grain > 0 {
        &&& s.grain_cards_used == used
        &&& s.grain_reduction == 4 * used
        &&& s.primary_loss == if 10 - 4 * used < 0 { 0int } else { 10 - 4 * used }
    } else {
        &&& s.grain_cards_used == 0
        &&& s.grain_reduction == 0
        &&& s.primary_loss == 10
    }
}

/// Superstition before any selection: the highest Religion card held sets
/// the number of cities (rule 30.32).
pub open spec fn superstition_start(s: SuperstitionState, cards: PlayerCivilizationCards) -> bool {
    &&& s.phase == SuperstitionPhase::ComputeEffects
    &&& s.selected_cities@.len() == 0
    &&& s.cities_to_reduce == if cards.holds(CivCardName::Enlightenment) {
        0nat
    } else if cards.holds(CivCardName::Deism) {
        1nat
    } else if cards.holds(CivCardName::Mysticism) {
        2nat
    } else {
        3nat
    }
}

/// Civil War before a beneficiary is named (rules 30.412-30.4124).
pub open spec fn civil_war_start(s: CivilWarState, cards: PlayerCivilizationCards) -> bool {
    let philosophy = cards.holds(CivCardName::Philosophy);
    &&& s.phase == CivilWarPhase::DetermineBeneficiary
    &&& s.beneficiary is None
    &&& s.victim_selected_units@.len() == 0
    &&& s.victim_selected_cities@.len() == 0
    &&& s.beneficiary_selected_units@.len() == 0
    &&& s.beneficiary_selected_cities@.len() == 0
    &&& s.second_faction_units@.len() == 0
    &&& s.second_faction_cities@.len() == 0
    &&& s.kept_faction is None
    &&& !s.military_penalty
    &&& s.philosophy_override == philosophy
    &&& s.victim_selection_points == if philosophy {
        0int
    } else {
        15 + if_held(cards, CivCardName::Music, 5) + if_held(cards, CivCardName::DramaAndPoetry, 5)
            + if_held(cards, CivCardName::Democracy, 10)
    }
    &&& s.beneficiary_selection_points == if philosophy { 15int } else { 20int }
}

/// Slave Revolt before its count: 15 tokens, five more with Mining, five
/// fewer with Enlightenment (rules 30.421-30.423).
pub open spec fn slave_revolt_start(s: SlaveRevoltState, cards: PlayerCivilizationCards) -> bool {
    &&& s.phase == SlaveRevoltPhase::ComputeEffects
    &&& s.cities_to_reduce == 0
    &&& s.selected_cities@.len() == 0
    &&& s.tokens_cannot_support == 15 + if_held(cards, CivCardName::Mining, 5) - if_held(
        cards,
        CivCardName::Enlightenment,
        5,
    )
}

/// Flood before a flood plain is chosen: at most 17 points, 7 with
/// Engineering (rule 30.511).
pub open spec fn flood_start(s: FloodState, cards: PlayerCivilizationCards) -> bool {
    let engineering = cards.holds(CivCardName::Engineering);
    s == (FloodState {
        phase: FloodPhase::FindFloodPlain,
        flood_plain_area: None,
        primary_max_loss: if engineering { 7 } else { 17 },
        has_engineering: engineering,
        fallback_city: None,
    })
}

/// Barbarian Hordes before landing.
pub open spec fn barbarians_start(s: BarbarianHordesState) -> bool {
    &&& s.phase == BarbarianHordesPhase::FindLandingArea
    &&& s.landing_area is None
    &&& s.barbarian_entity is None
    &&& s.visited_areas@.len() == 0
    &&& s.all_tokens@.len() == 0
    &&& s.cascade_iterations == 0
}

/// Epidemic before any loss: 16 points, 8 with Medicine, 5 more with Road
/// Building; the trader is immune (rules 30.61-30.613).
pub open spec fn epidemic_start(
    s: EpidemicState,
    cards: PlayerCivilizationCards,
    traded_by: Option<Entity>,
) -> bool {
    &&& s.phase == EpidemicPhase::ComputeEffects
    &&& s.secondary_loss == 25
    &&& s.has_medicine == cards.holds(CivCardName::Medicine)
    &&& s.has_road_building == cards.holds(CivCardName::RoadBuilding)
    &&& s.primary_loss == (if cards.holds(CivCardName::Medicine) { 8int } else { 16int })
        + if_held(cards, CivCardName::RoadBuilding, 5)
    &&& s.immune_player == traded_by
    &&& s.primary_tokens_remaining == 0
    &&& !s.secondary_divided
    &&& s.secondary_allocations@.len() == 0
    &&& s.secondary_cities_spent@.len() == 0
}

/// Civil Disorder before its count: every modifier adds up (rule 30.715).
pub open spec fn civil_disorder_start(s: CivilDisorderState, cards: PlayerCivilizationCards) -> bool {
    &&& s.phase == CivilDisorderPhase::ComputeEffects
    &&& s.cities_to_reduce == 0
    &&& s.selected_cities@.len() == 0
    &&& s.cities_modifier == if_held(cards, CivCardName::Music, 1) + if_held(
        cards,
        CivCardName::DramaAndPoetry,
        1,
    ) + if_held(cards, CivCardName::Law, 1) + if_held(cards, CivCardName::Democracy, 1)
        - if_held(cards, CivCardName::Military, 1) - if_held(cards, CivCardName::RoadBuilding, 1)
}

/// Net modifier of Iconoclasm and Heresy for the cards held (rule 30.817).
pub open spec fn iconoclasm_modifier(cards: PlayerCivilizationCards) -> int {
    -if_held(cards, CivCardName::Law, 1) - if_held(cards, CivCardName::Philosophy, 1) - if_held(
        cards,
        CivCardName::Theology,
        3,
    ) + if_held(cards, CivCardName::Monotheism, 1) + if_held(cards, CivCardName::RoadBuilding, 1)
}

/// Iconoclasm and Heresy before any selection.
pub open spec fn iconoclasm_start(
    s: IconoclasmHeresyState,
    cards: PlayerCivilizationCards,
    traded_by: Option<Entity>,
) -> bool {
    &&& s.phase == IconoclasmHeresyPhase::ComputeEffects
    &&& s.modifier == iconoclasm_modifier(cards)
    &&& s.cities_to_reduce == iconoclasm_cities(iconoclasm_modifier(cards))
    &&& s.secondary_cities == 2
    &&& s.selected_cities@.len() == 0
    &&& s.selected_secondary_cities@.len() == 0
    &&& s.immune_player == traded_by
}

/// Piracy before the Pirate nation is found.
pub open spec fn piracy_start(s: PiracyState, traded_by: Option<Entity>) -> bool {
    &&& s.phase == PiracyPhase::EnsurePirateNation
    &&& s.coastal_cities_to_replace == 2
    &&& s.selected_cities@.len() == 0
    &&& s.cities_to_replace@.len() == 0
    &&& s.pirate_nation is None
    &&& s.immune_player == traded_by
    &&& s.secondary_cities@.len() == 0
}

/// The state in which `calamity` starts resolving for a primary victim
/// holding `cards` and `grain` Grain cards, traded by `traded_by`, is `r`.
/// Volcano/Earthquake, whose state depends on the map, and commodity cards
/// give none.
pub open spec fn starts_as(
    calamity: TradeCard,
    cards: PlayerCivilizationCards,
    traded_by: Option<Entity>,
    grain: nat,
    r: Option<ResolvingCalamity>,
) -> bool {
    &&& r is None <==> (calamity is VolcanoEarthquake || calamity is Ochre || calamity is Grain || calamity is Silver
        || calamity is Gold)
    &&& calamity is Famine ==> (r matches Some(ResolvingCalamity::Famine(s)) && famine_start(
        s,
        grain,
        cards.holds(CivCardName::Pottery),
    ))
    &&& calamity is Superstition ==> (r matches Some(ResolvingCalamity::Superstition(s)) && superstition_start(s, cards))
    &&& calamity is CivilWar ==> (r matches Some(ResolvingCalamity::CivilWar(s)) && civil_war_start(s, cards))
    &&& calamity is SlaveRevolt ==> (r matches Some(ResolvingCalamity::SlaveRevolt(s)) && slave_revolt_start(s, cards))
    &&& calamity is Flood ==> (r matches Some(ResolvingCalamity::Flood(s)) && flood_start(s, cards))
    &&& calamity is BarbarianHordes ==> (r matches Some(ResolvingCalamity::BarbarianHordes(s)) && barbarians_start(s))
    &&& calamity is Epidemic ==> (r matches Some(ResolvingCalamity::Epidemic(s)) && epidemic_start(s, cards, traded_by))
    &&& calamity is CivilDisorder ==> (r matches Some(ResolvingCalamity::CivilDisorder(s)) && civil_disorder_start(
        s,
        cards,
    ))
    &&& calamity is IconoclasmAndHeresy ==> (r matches Some(ResolvingCalamity::IconoclasmAndHeresy(s))
        && iconoclasm_start(s, cards, traded_by))
    &&& calamity is Treachery ==> (r matches Some(ResolvingCalamity::Treachery(s)) && s == (TreacheryState {
        phase: TreacheryPhase::SelectCity,
        city_to_replace: None,
        beneficiary: None,
    }))
    &&& calamity is Piracy ==> (r matches Some(ResolvingCalamity::Piracy(s)) && piracy_start(s, traded_by))
}

/// The state in which a calamity starts resolving for a primary victim
/// holding `cards` and `grain_count` Grain cards; see [`starts_as`].
pub fn initial_resolution(
    calamity: TradeCard,
    cards: &PlayerCivilizationCards,
    traded_by: Option<Entity>,
    grain_count: usize,
) -> (r: Option<ResolvingCalamity>)
    ensures
        starts_as(calamity, *cards, traded_by, grain_count as nat, r),
{
    match calamity {
        TradeCard::Famine => {
            let has_pottery = cards.owns(&CivCardName::Pottery);
            let s = FamineState::new().with_grain_reduction(grain_count, has_pottery);
            Some(ResolvingCalamity::Famine(s))
        },
        TradeCard::Superstition => {
            let s = if cards.owns(&CivCardName::Enlightenment) {
                SuperstitionState::new().with_enlightenment()
            } else if cards.owns(&CivCardName::Deism) {
                SuperstitionState::new().with_deism()
            } else if cards.owns(&CivCardName::Mysticism) {
                SuperstitionState::new().with_mysticism()
            } else {
                SuperstitionState::new()
            };
            Some(ResolvingCalamity::Superstition(s))
        },
        TradeCard::CivilWar => {
            let mut s = CivilWarState::new();
            if cards.owns(&CivCardName::Philosophy) {
                s = s.with_philosophy_override();
            } else {
                if cards.owns(&CivCardName::Music) {
                    s.apply_music_bonus();
                }
                if cards.owns(&CivCardName::DramaAndPoetry) {
                    s.apply_drama_poetry_bonus();
                }
                if cards.owns(&CivCardName::Democracy) {
                    s.apply_democracy_bonus();
                }
            }
            Some(ResolvingCalamity::CivilWar(s))
        },
        TradeCard::SlaveRevolt => {
            let has_mining = cards.owns(&CivCardName::Mining);
            let has_enlightenment = cards.owns(&CivCardName::Enlightenment);
            let s = if has_mining && has_enlightenment {
                SlaveRevoltState::new().with_mining_and_enlightenment()
            } else if has_mining {
                SlaveRevoltState::new().with_mining()
            } else if has_enlightenment {
                SlaveRevoltState::new().with_enlightenment()
            } else {
                SlaveRevoltState::new()
            };
            Some(ResolvingCalamity::SlaveRevolt(s))
        },
        TradeCard::Flood => {
            let mut s = FloodState::new();
            if cards.owns(&CivCardName::Engineering) {
                s = s.with_engineering();
            }
            Some(ResolvingCalamity::Flood(s))
        },
        TradeCard::BarbarianHordes => Some(ResolvingCalamity::BarbarianHordes(BarbarianHordesState::new())),
        TradeCard::Epidemic => {
            let mut s = EpidemicState::new();
            if cards.owns(&CivCardName::Medicine) {
                s = s.with_medicine();
            }
            if cards.owns(&CivCardName::RoadBuilding) {
                s = s.with_road_building();
            }
            if let Some(immune) = traded_by {
                s = s.with_immune_player(immune);
            }
            Some(ResolvingCalamity::Epidemic(s))
        },
        TradeCard::CivilDisorder => {
            let mut s = CivilDisorderState::new();
            if cards.owns(&CivCardName::Music) {
                s = s.with_music();
            }
            if cards.owns(&CivCardName::DramaAndPoetry) {
                s = s.with_drama_and_poetry();
            }
            if cards.owns(&CivCardName::Law) {
                s = s.with_law();
            }
            if cards.owns(&CivCardName::Democracy) {
                s = s.with_democracy();
            }
            if cards.owns(&CivCardName::Military) {
                s = s.with_military();
            }
            if cards.owns(&CivCardName::RoadBuilding) {
                s = s.with_road_building();
            }
            Some(ResolvingCalamity::CivilDisorder(s))
        },
        TradeCard::IconoclasmAndHeresy => {
            let mut s = IconoclasmHeresyState::new();
            if cards.owns(&CivCardName::Law) {
                s = s.with_law();
            }
            if cards.owns(&CivCardName::Philosophy) {
                s = s.with_philosophy();
            }
            if cards.owns(&CivCardName::Theology) {
                s = s.with_theology();
            }
            if cards.owns(&CivCardName::Monotheism) {
                s = s.with_monotheism();
            }
            if cards.owns(&CivCardName::RoadBuilding) {
                s = s.with_road_building();
            }
            if let Some(immune) = traded_by {
                s = s.with_immune_player(immune);
            }
            Some(ResolvingCalamity::IconoclasmAndHeresy(s))
        },
        TradeCard::Treachery => Some(ResolvingCalamity::Treachery(TreacheryState::new())),
        TradeCard::Piracy => {
            let mut s = PiracyState::new();
            if let Some(immune) = traded_by {
                s = s.with_immune_player(immune);
            }
            Some(ResolvingCalamity::Piracy(s))
        },
        _ => None,
    }
}

} // verus!
