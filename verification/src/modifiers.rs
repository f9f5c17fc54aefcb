use vstd::prelude::*;
use crate::cards::{CivCardName, PlayerCivilizationCards, TradeCard};
use crate::context::{CalamityContext, CalamityEffects, CivilWarEffect, SpecialEffect};

verus! {

/// `x / 2` rounded toward zero.
pub open spec fn halve_toward_zero(x: int) -> int {
    if x >= 0 { x / 2 } else { -((-x) / 2) }
}

/// `x - d`, but never below zero.
pub open spec fn lose_at_most(x: int, d: int) -> int {
    if x - d < 0 { 0 } else { x - d }
}

/// Whether civilization cards change the effects of `calamity` for a holder
/// of `cards`, and how.
pub open spec fn modified_effects(
    calamity: TradeCard,
    e: CalamityEffects,
    cards: PlayerCivilizationCards,
) -> CalamityEffects {
    match calamity {
        TradeCard::VolcanoEarthquake | TradeCard::Flood => {
            // Engineering turns one destroyed city into a reduced one.
            if cards.holds(CivCardName::Engineering) && e.cities_to_destroy > 0 {
                CalamityEffects {
                    cities_to_destroy: (e.cities_to_destroy - 1) as usize,
                    cities_to_reduce: (e.cities_to_reduce + 1) as usize,
                    ..e
                }
            } else {
                e
            }
        },
        TradeCard::Superstition => {
            // The highest Religion card held governs.
            if cards.holds(CivCardName::Enlightenment) {
                CalamityEffects { cities_to_reduce: 0, ..e }
            } else if cards.holds(CivCardName::Deism) {
                CalamityEffects { cities_to_reduce: 1, ..e }
            } else if cards.holds(CivCardName::Mysticism) {
                CalamityEffects { cities_to_reduce: 2, ..e }
            } else {
                e
            }
        },
        TradeCard::CivilWar => match e.special_effect {
            Some(SpecialEffect::CivilWar(cw)) => CalamityEffects {
                special_effect: Some(
                    SpecialEffect::CivilWar(
                        CivilWarEffect {
                            victim_selection_points: (cw.victim_selection_points + civil_war_bonus(
                                cards,
                            )) as usize,
                            ..cw
                        },
                    ),
                ),
                ..e
            },
            _ => e,
        },
        TradeCard::SlaveRevolt => {
            if cards.holds(CivCardName::Enlightenment) {
                CalamityEffects { cities_to_reduce: 0, ..e }
            } else {
                e
            }
        },
        TradeCard::BarbarianHordes => {
            if cards.holds(CivCardName::Military) {
                CalamityEffects {
                    unit_points_to_lose: lose_at_most(e.unit_points_to_lose as int, 5) as i32,
                    ..e
                }
            } else {
                e
            }
        },
        TradeCard::Epidemic => {
            if cards.holds(CivCardName::Medicine) {
                CalamityEffects {
                    unit_points_to_lose: halve_toward_zero(e.unit_points_to_lose as int) as i32,
                    ..e
                }
            } else {
                e
            }
        },
        TradeCard::CivilDisorder => {
            if cards.holds(CivCardName::Democracy) {
                CalamityEffects { cities_to_reduce: 0, ..e }
            } else if cards.holds(CivCardName::Law) {
                CalamityEffects {
                    cities_to_reduce: if e.cities_to_reduce >= 1 {
                        (e.cities_to_reduce - 1) as usize
                    } else {
                        0
                    },
                    ..e
                }
            } else {
                e
            }
        },
        TradeCard::IconoclasmAndHeresy => {
            let after_theology = if cards.holds(CivCardName::Theology) {
                lose_at_most(e.unit_points_to_lose as int, 4)
            } else {
                e.unit_points_to_lose as int
            };
            let after_philosophy = if cards.holds(CivCardName::Philosophy) {
                lose_at_most(after_theology, 2)
            } else {
                after_theology
            };
            CalamityEffects { unit_points_to_lose: after_philosophy as i32, ..e }
        },
        _ => e,
    }
}

/// Extra Civil War victim selection points: Music and Drama and Poetry 5
/// each, Democracy 10.
pub open spec fn civil_war_bonus(cards: PlayerCivilizationCards) -> nat {
    (if cards.holds(CivCardName::Music) { 5nat } else { 0nat }) + (if cards.holds(
        CivCardName::DramaAndPoetry,
    ) {
        5nat
    } else {
        0nat
    }) + (if cards.holds(CivCardName::Democracy) { 10nat } else { 0nat })
}

/// The effects change in range for this calamity.
pub open spec fn modifiers_fit(calamity: TradeCard, e: CalamityEffects) -> bool {
    &&& e.cities_to_reduce < usize::MAX
    &&& e.unit_points_to_lose > i32::MIN + 5
    &&& match e.special_effect {
        Some(SpecialEffect::CivilWar(cw)) => cw.victim_selection_points <= usize::MAX - 20,
        _ => true,
    }
}

/// Applies the civilization-card modifiers of the primary victim to the
/// effects of the calamity in `context`.
pub fn apply_calamity_modifiers(
    context: &CalamityContext,
    effects: &mut CalamityEffects,
    civ_cards: &PlayerCivilizationCards,
)
    requires
        modifiers_fit(context.calamity, *old(effects)),
    ensures
        *final(effects) == modified_effects(context.calamity, *old(effects), *civ_cards),
{
    match context.calamity {
        TradeCard::VolcanoEarthquake => apply_volcano_earthquake_modifiers(effects, civ_cards),
        TradeCard::Famine => apply_famine_modifiers(effects, civ_cards),
        TradeCard::Superstition => apply_superstition_modifiers(effects, civ_cards),
        TradeCard::CivilWar => apply_civil_war_modifiers(effects, civ_cards),
        TradeCard::SlaveRevolt => apply_slave_revolt_modifiers(effects, civ_cards),
        TradeCard::Flood => apply_flood_modifiers(effects, civ_cards),
        TradeCard::BarbarianHordes => apply_barbarian_hordes_modifiers(effects, civ_cards),
        TradeCard::Epidemic => apply_epidemic_modifiers(effects, civ_cards),
        TradeCard::CivilDisorder => apply_civil_disorder_modifiers(effects, civ_cards),
        TradeCard::IconoclasmAndHeresy => apply_iconoclasm_modifiers(effects, civ_cards),
        TradeCard::Piracy => apply_piracy_modifiers(effects, civ_cards),
        _ => {},
    }
}

fn apply_volcano_earthquake_modifiers(effects: &mut CalamityEffects, civ_cards: &PlayerCivilizationCards)
    requires
        old(effects).cities_to_reduce < usize::MAX,
    ensures
        *final(effects) == modified_effects(TradeCard::VolcanoEarthquake, *old(effects), *civ_cards),
{
    if civ_cards.owns(&CivCardName::Engineering) {
        if effects.cities_to_destroy > 0 {
            effects.cities_to_destroy = effects.cities_to_destroy - 1;
            effects.cities_to_reduce = effects.cities_to_reduce + 1;
        }
    }
}

/// Pottery's relief depends on the Grain cards held and is applied when the
/// loss is resolved, so the effects are left alone here.
fn apply_famine_modifiers(_effects: &mut CalamityEffects, _civ_cards: &PlayerCivilizationCards)
    ensures
        *final(_effects) == *old(_effects),
{
}

fn apply_superstition_modifiers(effects: &mut CalamityEffects, civ_cards: &PlayerCivilizationCards)
    ensures
        *final(effects) == modified_effects(TradeCard::Superstition, *old(effects), *civ_cards),
{
    if civ_cards.owns(&CivCardName::Enlightenment) {
        effects.cities_to_reduce = 0;
    } else if civ_cards.owns(&CivCardName::Deism) {
        effects.cities_to_reduce = 1;
    } else if civ_cards.owns(&CivCardName::Mysticism) {
        effects.cities_to_reduce = 2;
    }
}

fn apply_civil_war_modifiers(effects: &mut CalamityEffects, civ_cards: &PlayerCivilizationCards)
    requires
        modifiers_fit(TradeCard::CivilWar, *old(effects)),
    ensures
        *final(effects) == modified_effects(TradeCard::CivilWar, *old(effects), *civ_cards),
{
    let special = effects.special_effect.take();
    match special {
        Some(SpecialEffect::CivilWar(cw)) => {
            let mut civil_war = cw;
            if civ_cards.owns(&CivCardName::Music) {
                civil_war.victim_selection_points = civil_war.victim_selection_points + 5;
            }
            if civ_cards.owns(&CivCardName::DramaAndPoetry) {
                civil_war.victim_selection_points = civil_war.victim_selection_points + 5;
            }
            if civ_cards.owns(&CivCardName::Democracy) {
                civil_war.victim_selection_points = civil_war.victim_selection_points + 10;
            }
            effects.special_effect = Some(SpecialEffect::CivilWar(civil_war));
        },
        other => {
            effects.special_effect = other;
        },
    }
}

fn apply_slave_revolt_modifiers(effects: &mut CalamityEffects, civ_cards: &PlayerCivilizationCards)
    ensures
        *final(effects) == modified_effects(TradeCard::SlaveRevolt, *old(effects), *civ_cards),
{
    if civ_cards.owns(&CivCardName::Enlightenment) {
        effects.cities_to_reduce = 0;
    }
}

fn apply_flood_modifiers(effects: &mut CalamityEffects, civ_cards: &PlayerCivilizationCards)
    requires
        old(effects).cities_to_reduce < usize::MAX,
    ensures
        *final(effects) == modified_effects(TradeCard::Flood, *old(effects), *civ_cards),
{
    if civ_cards.owns(&CivCardName::Engineering) {
        if effects.cities_to_destroy > 0 {
            effects.cities_to_destroy = effects.cities_to_destroy - 1;
            effects.cities_to_reduce = effects.cities_to_reduce + 1;
        }
    }
}

fn apply_barbarian_hordes_modifiers(effects: &mut CalamityEffects, civ_cards: &PlayerCivilizationCards)
    requires
        old(effects).unit_points_to_lose > i32::MIN + 5,
    ensures
        *final(effects) == modified_effects(TradeCard::BarbarianHordes, *old(effects), *civ_cards),
{
    if civ_cards.owns(&CivCardName::Military) {
        let left = effects.unit_points_to_lose - 5;
        effects.unit_points_to_lose = if left < 0 { 0 } else { left };
    }
}

fn apply_epidemic_modifiers(effects: &mut CalamityEffects, civ_cards: &PlayerCivilizationCards)
    requires
        old(effects).unit_points_to_lose > i32::MIN,
    ensures
        *final(effects) == modified_effects(TradeCard::Epidemic, *old(effects), *civ_cards),
{
    if civ_cards.owns(&CivCardName::Medicine) {
        let x = effects.unit_points_to_lose;
        effects.unit_points_to_lose = if x >= 0 { x / 2 } else { -((-x) / 2) };
    }
}

fn apply_civil_disorder_modifiers(effects: &mut CalamityEffects, civ_cards: &PlayerCivilizationCards)
    ensures
        *final(effects) == modified_effects(TradeCard::CivilDisorder, *old(effects), *civ_cards),
{
    if civ_cards.owns(&CivCardName::Democracy) {
        effects.cities_to_reduce = 0;
    } else if civ_cards.owns(&CivCardName::Law) {
        effects.cities_to_reduce = if effects.cities_to_reduce >= 1 { effects.cities_to_reduce - 1 } else { 0 };
    }
}

fn apply_iconoclasm_modifiers(effects: &mut CalamityEffects, civ_cards: &PlayerCivilizationCards)
    requires
        old(effects).unit_points_to_lose > i32::MIN + 5,
    ensures
        *final(effects) == modified_effects(TradeCard::IconoclasmAndHeresy, *old(effects), *civ_cards),
{
    if civ_cards.owns(&CivCardName::Theology) {
        let left = effects.unit_points_to_lose - 4;
        effects.unit_points_to_lose = if left < 0 { 0 } else { left };
    }
    if civ_cards.owns(&CivCardName::Philosophy) {
        let left = effects.unit_points_to_lose - 2;
        effects.unit_points_to_lose = if left < 0 { 0 } else { left };
    }
}

/// Piracy has no civilization-card modifier for the primary victim.
fn apply_piracy_modifiers(_effects: &mut CalamityEffects, _civ_cards: &PlayerCivilizationCards)
    ensures
        *final(_effects) == *old(_effects),
{
}

/// Whether a holder of `civ_cards` may be a secondary victim of `calamity`:
/// Engineering protects from Volcano/Earthquake. Medicine does not protect
/// from Epidemic: its holder still shares the secondary loss, with a cap of
/// five points instead of ten (rule 30.613).
pub fn can_be_secondary_victim(calamity: TradeCard, civ_cards: &PlayerCivilizationCards) -> (b: bool)
    ensures
        b == match calamity {
            TradeCard::VolcanoEarthquake => !civ_cards.holds(CivCardName::Engineering),
            _ => true,
        },
{
    match calamity {
        TradeCard::VolcanoEarthquake => !civ_cards.owns(&CivCardName::Engineering),
        _ => true,
    }
}

/// Pottery's Famine relief: four points per Grain card held.
pub fn compute_famine_grain_reduction(grain_count: usize, has_pottery: bool) -> (r: i32)
    requires
        has_pottery ==> grain_count * 4 <= usize::MAX,
    ensures
        r == if has_pottery { (grain_count * 4) as i32 } else { 0 },
{
    if has_pottery {
        (grain_count * 4) as i32
    } else {
        0
    }
}

/// Civil War victim selection points for a holder of `civ_cards`: 15 plus
/// the Music, Drama and Poetry and Democracy bonuses.
pub fn compute_civil_war_victim_selection(civ_cards: &PlayerCivilizationCards) -> (r: usize)
    ensures
        r == 15 + civil_war_bonus(*civ_cards),
{
    let mut base: usize = 15;
    if civ_cards.owns(&CivCardName::Music) {
        base += 5;
    }
    if civ_cards.owns(&CivCardName::DramaAndPoetry) {
        base += 5;
    }
    if civ_cards.owns(&CivCardName::Democracy) {
        base += 10;
    }
    base
}

/// Law (rule 30.313): Superstition's Religion cards do not add up; the
/// highest one held decides. Enlightenment leaves no city to reduce whatever
/// else is held, Deism (without Enlightenment) one, Mysticism (with neither)
/// two; with none of them nothing changes. Nothing but the cities to reduce
/// ever changes.
pub proof fn lemma_highest_religion_card_governs(e: CalamityEffects, cards: PlayerCivilizationCards)
    ensures
        cards.holds(CivCardName::Enlightenment) ==> modified_effects(TradeCard::Superstition, e, cards).cities_to_reduce
            == 0,
        !cards.holds(CivCardName::Enlightenment) && cards.holds(CivCardName::Deism) ==> modified_effects(
            TradeCard::Superstition,
            e,
            cards,
        ).cities_to_reduce == 1,
        !cards.holds(CivCardName::Enlightenment) && !cards.holds(CivCardName::Deism) && cards.holds(
            CivCardName::Mysticism,
        ) ==> modified_effects(TradeCard::Superstition, e, cards).cities_to_reduce == 2,
        !cards.holds(CivCardName::Enlightenment) && !cards.holds(CivCardName::Deism) && !cards.holds(
            CivCardName::Mysticism,
        ) ==> modified_effects(TradeCard::Superstition, e, cards).cities_to_reduce == e.cities_to_reduce,
        modified_effects(TradeCard::Superstition, e, cards) == (CalamityEffects {
            cities_to_reduce: modified_effects(TradeCard::Superstition, e, cards).cities_to_reduce,
            ..e
        }),
{
}

} // verus!
