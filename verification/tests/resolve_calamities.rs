use advciv::calamities::epidemic::{EpidemicPhase, EpidemicState};
use advciv::calamities::famine::{FaminePhase, FamineState};
use advciv::calamities::flood::{FloodPhase, FloodState};
use advciv::calamities::barbarian_hordes::{BarbarianHordesPhase, BarbarianHordesState};
use advciv::calamities::ResolvingCalamity;
use advciv::cards::{CivCardName, PlayerCivilizationCards, TradeCard};
use advciv::components::PendingCalamities;
use advciv::resolution::phase::{process_pending_calamities, start_player_calamities, PendingStep, PlayerPending};
use advciv::entity::Entity;
use advciv::resolution::barbarians::BarbarianAction;
use advciv::resolution::board::BoardArea;
use advciv::resolution::epidemic::EpidemicAction;
use advciv::resolution::famine::FamineAction;
use advciv::resolution::flood::FloodAction;
use advciv::resolution::order::{calamities_to_resolve, next_calamity_index, rank_of};
use advciv::resolution::unit_loss::PlayerUnits;
use advciv::selection::epidemic::EpidemicSelectionState;
use advciv::selection::famine::FamineSelectionState;
use advciv::selection::flood::FloodSelectionState;
use advciv::selection::unit_loss::UnitLossSelectionState;

fn e(n: u32) -> Entity {
    Entity::from_raw_u32(n).unwrap()
}

fn area(id: Entity, city_owner: Option<Entity>, population: Vec<(Entity, usize)>) -> BoardArea {
    BoardArea {
        area: id,
        city_owner,
        population,
        land_neighbours: Vec::new(),
        sea_neighbours: Vec::new(),
        open_sea: false,
        coastal: false,
    }
}

fn units(player: Entity, areas: Vec<(Entity, usize)>, cities: Vec<Entity>, is_human: bool) -> PlayerUnits {
    PlayerUnits { player, areas, cities, is_human, awaiting: false }
}

/// Total that `who` loses according to a list of (player or area, points).
fn lost(rows: &[(Entity, usize)], who: Entity) -> usize {
    rows.iter().filter(|(x, _)| *x == who).map(|(_, n)| *n).sum()
}

// ── Trade card facts ──────────────────────────────────────────────────────

#[test]
fn test_all_calamities_are_marked_as_calamity() {
    let calamities = vec![
        TradeCard::VolcanoEarthquake,
        TradeCard::Treachery,
        TradeCard::Famine,
        TradeCard::Superstition,
        TradeCard::CivilWar,
        TradeCard::SlaveRevolt,
        TradeCard::Flood,
        TradeCard::BarbarianHordes,
        TradeCard::Epidemic,
        TradeCard::CivilDisorder,
        TradeCard::IconoclasmAndHeresy,
        TradeCard::Piracy,
    ];
    for calamity in calamities {
        assert!(calamity.is_calamity(), "{calamity:?} should be marked as calamity");
        assert!(!calamity.is_commodity(), "{calamity:?} should not be a commodity");
    }
}

#[test]
fn test_calamity_values_match_trade_stack_levels() {
    assert_eq!(TradeCard::VolcanoEarthquake.value(), 2);
    assert_eq!(TradeCard::Treachery.value(), 2);
    assert_eq!(TradeCard::Famine.value(), 3);
    assert_eq!(TradeCard::Superstition.value(), 3);
    assert_eq!(TradeCard::CivilWar.value(), 4);
    assert_eq!(TradeCard::SlaveRevolt.value(), 4);
    assert_eq!(TradeCard::Flood.value(), 5);
    assert_eq!(TradeCard::BarbarianHordes.value(), 5);
    assert_eq!(TradeCard::Epidemic.value(), 6);
    assert_eq!(TradeCard::CivilDisorder.value(), 7);
    assert_eq!(TradeCard::IconoclasmAndHeresy.value(), 8);
    assert_eq!(TradeCard::Piracy.value(), 9);
}

#[test]
fn test_non_tradeable_calamities() {
    for calamity in [TradeCard::VolcanoEarthquake, TradeCard::Famine, TradeCard::CivilWar, TradeCard::Flood] {
        assert!(!calamity.is_tradeable(), "{calamity:?} should be non-tradeable");
    }
}

#[test]
fn test_tradeable_calamities() {
    for calamity in [
        TradeCard::Treachery,
        TradeCard::Superstition,
        TradeCard::SlaveRevolt,
        TradeCard::BarbarianHordes,
        TradeCard::Epidemic,
        TradeCard::CivilDisorder,
        TradeCard::IconoclasmAndHeresy,
        TradeCard::Piracy,
    ] {
        assert!(calamity.is_tradeable(), "{calamity:?} should be tradeable");
    }
}

#[test]
fn test_non_tradeable_before_tradeable_same_value() {
    assert!(!TradeCard::VolcanoEarthquake.is_tradeable());
    assert!(TradeCard::Treachery.is_tradeable());
    assert_eq!(TradeCard::VolcanoEarthquake.value(), TradeCard::Treachery.value());
    assert!(!TradeCard::Famine.is_tradeable());
    assert!(TradeCard::Superstition.is_tradeable());
    assert_eq!(TradeCard::Famine.value(), TradeCard::Superstition.value());
    assert!(!TradeCard::CivilWar.is_tradeable());
    assert!(TradeCard::SlaveRevolt.is_tradeable());
    assert_eq!(TradeCard::CivilWar.value(), TradeCard::SlaveRevolt.value());
    // The resolution order puts the non-tradeable one first.
    assert!(rank_of(TradeCard::VolcanoEarthquake) < rank_of(TradeCard::Treachery));
    assert!(rank_of(TradeCard::Famine) < rank_of(TradeCard::Superstition));
    assert!(rank_of(TradeCard::CivilWar) < rank_of(TradeCard::SlaveRevolt));
}

#[test]
fn test_calamity_ordering_by_value() {
    let calamities = [
        (TradeCard::Piracy, 9),
        (TradeCard::VolcanoEarthquake, 2),
        (TradeCard::Famine, 3),
        (TradeCard::CivilWar, 4),
    ];
    let mut sorted: Vec<_> = calamities.iter().collect();
    sorted.sort_by_key(|a| a.1);
    assert_eq!(sorted[0].0, TradeCard::VolcanoEarthquake);
    assert_eq!(sorted[1].0, TradeCard::Famine);
    assert_eq!(sorted[2].0, TradeCard::CivilWar);
    assert_eq!(sorted[3].0, TradeCard::Piracy);
    for (card, value) in calamities {
        assert_eq!(card.value(), value);
    }
}

#[test]
fn next_calamity_follows_value_then_tradeability() {
    let all = vec![
        (e(1), TradeCard::Piracy, None),
        (e(2), TradeCard::Treachery, Some(e(9))),
        (e(3), TradeCard::Famine, None),
        (e(4), TradeCard::VolcanoEarthquake, None),
    ];
    assert_eq!(next_calamity_index(&all), Some(3));
    let rest = vec![all[0], all[1], all[2]];
    assert_eq!(next_calamity_index(&rest), Some(1));
    assert_eq!(next_calamity_index(&Vec::new()), None);
    // At equal rank the first listed goes first.
    let tie = vec![(e(5), TradeCard::Flood, None), (e(6), TradeCard::Flood, None)];
    assert_eq!(next_calamity_index(&tie), Some(0));
}

// ── At most two calamities per player ─────────────────────────────────────

#[test]
fn test_rule_29_5_selection_logic() {
    let calamities = vec![
        (TradeCard::Famine, None),
        (TradeCard::Superstition, None),
        (TradeCard::CivilWar, None),
        (TradeCard::Flood, None),
        (TradeCard::Epidemic, None),
    ];
    let selected = calamities_to_resolve(&calamities);
    assert_eq!(selected.len(), 2);
    for entry in &selected {
        assert!(calamities.contains(entry));
    }
    assert_ne!(selected[0], selected[1]);
}

#[test]
fn test_rule_29_5_with_exactly_two() {
    let calamities = vec![(TradeCard::Famine, None), (TradeCard::Superstition, None)];
    assert_eq!(calamities_to_resolve(&calamities).len(), 2);
}

#[test]
fn test_rule_29_5_with_one() {
    let calamities = vec![(TradeCard::Famine, None)];
    assert_eq!(calamities_to_resolve(&calamities).len(), 1);
}

#[test]
fn calamities_beyond_the_two_per_turn_limit_are_discarded_from_hand() {
    let mut hand = vec![
        (TradeCard::Famine, 1),
        (TradeCard::VolcanoEarthquake, 1),
        (TradeCard::Flood, 1),
        (TradeCard::Gold, 1),
    ];
    let pending = start_player_calamities(&mut hand, &Vec::new()).expect("pending calamities attached");
    assert_eq!(pending.calamities.len(), 2, "at most two are resolved");
    let calamities_in_hand: Vec<TradeCard> =
        hand.iter().filter(|(c, n)| c.is_calamity() && *n > 0).map(|(c, _)| *c).collect();
    assert_eq!(calamities_in_hand.len(), 2, "the third goes back to the stacks");
    for (calamity, _) in &pending.calamities {
        assert!(calamities_in_hand.contains(calamity), "the two selected are still held");
    }
    assert_eq!(hand.iter().filter(|(c, _)| *c == TradeCard::Gold).map(|(_, n)| *n).sum::<usize>(), 1, "commodities untouched");
}

#[test]
fn two_calamities_are_both_kept_for_resolution() {
    let mut hand = vec![(TradeCard::Famine, 1), (TradeCard::Flood, 1)];
    let pending = start_player_calamities(&mut hand, &Vec::new()).unwrap();
    assert_eq!(pending.calamities, vec![(TradeCard::Famine, None), (TradeCard::Flood, None)]);
    assert_eq!(hand, vec![(TradeCard::Famine, 1), (TradeCard::Flood, 1)]);
}

#[test]
fn start_calamity_resolution_carries_the_trader_into_pending_calamities() {
    let trader = e(7);
    let mut hand = vec![(TradeCard::Treachery, 1), (TradeCard::Famine, 1)];
    let pending = start_player_calamities(&mut hand, &vec![(TradeCard::Treachery, trader)]).unwrap();
    let treachery = pending.calamities.iter().find(|(card, _)| *card == TradeCard::Treachery).expect("treachery pending");
    assert_eq!(treachery.1, Some(trader), "the trader is recorded");
    let famine = pending.calamities.iter().find(|(card, _)| *card == TradeCard::Famine).expect("famine pending");
    assert_eq!(famine.1, None, "a drawn calamity implicates nobody");
}

#[test]
fn a_hand_without_calamities_starts_nothing() {
    let mut hand = vec![(TradeCard::Gold, 2), (TradeCard::Famine, 0)];
    assert!(start_player_calamities(&mut hand, &Vec::new()).is_none());
    assert_eq!(hand, vec![(TradeCard::Gold, 2), (TradeCard::Famine, 0)]);
}

fn pending_player(player: Entity, calamities: Vec<(TradeCard, Option<Entity>)>, hand: Vec<(TradeCard, usize)>, civ: Vec<CivCardName>) -> PlayerPending {
    PlayerPending { player, pending: PendingCalamities::new(calamities), hand, civ_cards: PlayerCivilizationCards::new(civ) }
}

#[test]
fn nothing_is_dispatched_while_a_calamity_is_resolving() {
    let mut players = vec![pending_player(e(1), vec![(TradeCard::Famine, None)], vec![(TradeCard::Famine, 1)], Vec::new())];
    assert!(matches!(process_pending_calamities(true, &mut players, &Vec::new()), PendingStep::Busy));
    assert_eq!(players[0].pending.calamities.len(), 1);
    assert_eq!(players[0].hand, vec![(TradeCard::Famine, 1)]);
}

#[test]
fn the_lowest_calamity_is_dispatched_and_leaves_pending_list_and_hand() {
    let mut players = vec![
        pending_player(e(1), vec![(TradeCard::Flood, None)], vec![(TradeCard::Flood, 1)], Vec::new()),
        pending_player(
            e(2),
            vec![(TradeCard::Superstition, Some(e(9))), (TradeCard::Famine, None)],
            vec![(TradeCard::Grain, 2), (TradeCard::Superstition, 1), (TradeCard::Famine, 1)],
            vec![CivCardName::Pottery],
        ),
    ];
    match process_pending_calamities(false, &mut players, &Vec::new()) {
        PendingStep::Dispatch { player, calamity, traded_by, resolution } => {
            assert_eq!(player, e(2));
            assert_eq!(calamity, TradeCard::Famine, "Famine is not tradeable: it goes before Superstition");
            assert_eq!(traded_by, None);
            match resolution {
                Some(ResolvingCalamity::Famine(s)) => {
                    assert_eq!(s.grain_cards_used, 2);
                    assert_eq!(s.primary_loss, 2);
                },
                other => panic!("unexpected {other:?}"),
            }
        },
        other => panic!("unexpected {other:?}"),
    }
    assert_eq!(players[1].pending.calamities, vec![(TradeCard::Superstition, Some(e(9)))]);
    assert_eq!(players[1].hand, vec![(TradeCard::Grain, 2), (TradeCard::Superstition, 1), (TradeCard::Famine, 0)]);
    assert_eq!(players[0].pending.calamities, vec![(TradeCard::Flood, None)]);
    match process_pending_calamities(false, &mut players, &Vec::new()) {
        PendingStep::Dispatch { player, calamity, traded_by, .. } => {
            assert_eq!((player, calamity, traded_by), (e(2), TradeCard::Superstition, Some(e(9))));
        },
        other => panic!("unexpected {other:?}"),
    }
}

#[test]
fn with_nothing_pending_the_monotheism_holders_are_named() {
    let mut players = vec![pending_player(e(1), Vec::new(), Vec::new(), Vec::new())];
    let civ = vec![
        (e(1), PlayerCivilizationCards::new(vec![CivCardName::Monotheism])),
        (e(2), PlayerCivilizationCards::new(Vec::new())),
    ];
    match process_pending_calamities(false, &mut players, &civ) {
        PendingStep::PhaseOver { monotheism_holders } => assert_eq!(monotheism_holders, vec![e(1)]),
        other => panic!("unexpected {other:?}"),
    }
}

// ── Flood ─────────────────────────────────────────────────────────────────

#[test]
fn flood_primary_loss_is_capped_and_does_not_touch_adjacent_areas() {
    let victim = e(1);
    let other_player = e(2);
    let adjacent = e(10);
    let plain = e(11);
    let mut plain_area = area(plain, None, vec![(victim, 15)]);
    plain_area.land_neighbours = vec![adjacent];
    let areas = vec![area(adjacent, None, vec![(other_player, 3)]), plain_area];
    let mut state = FloodState::new();
    state.phase = FloodPhase::ApplyPrimaryLoss;
    state.flood_plain_area = Some(plain);
    state.primary_max_loss = 10;
    let mut selection = FloodSelectionState::default();
    let action = state.advance(victim, &vec![plain], &areas, &Vec::new(), false, false, &mut selection);
    match action {
        FloodAction::PrimaryLoss { area, city, tokens } => {
            assert_eq!(area, plain, "only the flood plain is affected");
            assert_eq!(city, None);
            assert_eq!(15 - tokens, 5, "the victim loses exactly the capped amount");
        },
        other => panic!("unexpected {other:?}"),
    }
    assert_eq!(state.phase, FloodPhase::ApplySecondaryLoss);
}

#[test]
fn flood_does_not_destroy_a_city_it_does_not_own() {
    let victim = e(1);
    let other_player = e(2);
    let plain = e(11);
    let areas = vec![area(plain, Some(other_player), Vec::new())];
    let mut state = FloodState::new();
    state.phase = FloodPhase::ApplyPrimaryLoss;
    state.flood_plain_area = Some(plain);
    state.primary_max_loss = 17;
    let mut selection = FloodSelectionState::default();
    let action = state.advance(victim, &vec![plain], &areas, &Vec::new(), false, false, &mut selection);
    match action {
        FloodAction::PrimaryLoss { city, tokens, .. } => {
            assert_eq!(city, None, "the other player's city stands");
            assert_eq!(tokens, 0);
        },
        other => panic!("unexpected {other:?}"),
    }
}

#[test]
fn flood_secondary_loss_pauses_for_a_human_primary_victim_and_applies_their_choice() {
    let victim = e(1);
    let sec_a = e(2);
    let sec_b = e(3);
    let plain = e(11);
    let areas = vec![area(plain, None, vec![(sec_a, 20), (sec_b, 20)])];
    let mut state = FloodState::new();
    state.phase = FloodPhase::ApplySecondaryLoss;
    state.flood_plain_area = Some(plain);
    let mut selection = FloodSelectionState::default();

    let action = state.advance(victim, &vec![plain], &areas, &Vec::new(), true, false, &mut selection);
    assert!(matches!(action, FloodAction::AwaitChoice), "human victim should be paused for input");
    assert_eq!(selection.acting_player, Some(victim));
    assert_eq!(selection.total_budget, 10);
    assert_eq!(state.phase, FloodPhase::ApplySecondaryLoss, "must not advance while waiting");

    // While the answer is awaited nothing happens.
    let action = state.advance(victim, &vec![plain], &areas, &Vec::new(), true, true, &mut selection);
    assert!(matches!(action, FloodAction::Nothing));

    for _ in 0..10 {
        assert!(selection.increment_current());
    }
    let action = state.advance(victim, &vec![plain], &areas, &Vec::new(), true, false, &mut selection);
    match action {
        FloodAction::SecondaryLoss { area, losses } => {
            assert_eq!(area, plain);
            assert_eq!(20 - lost(&losses, sec_a), 10, "all 10 points came from sec_a");
            assert_eq!(20 - lost(&losses, sec_b), 20, "sec_b untouched");
        },
        other => panic!("unexpected {other:?}"),
    }
    assert_eq!(state.phase, FloodPhase::Complete);
    assert_eq!(selection.acting_player, None, "selection state cleared after use");
}

#[test]
fn flood_secondary_loss_skips_the_ui_when_everyone_loses_everything_automatically() {
    let victim = e(1);
    let sec_a = e(2);
    let sec_b = e(3);
    let plain = e(11);
    let areas = vec![area(plain, None, vec![(sec_a, 4), (sec_b, 3)])];
    let mut state = FloodState::new();
    state.phase = FloodPhase::ApplySecondaryLoss;
    state.flood_plain_area = Some(plain);
    let mut selection = FloodSelectionState::default();
    let action = state.advance(victim, &vec![plain], &areas, &Vec::new(), true, false, &mut selection);
    match action {
        FloodAction::SecondaryLoss { losses, .. } => {
            assert_eq!(4 - lost(&losses, sec_a), 0);
            assert_eq!(3 - lost(&losses, sec_b), 0);
        },
        other => panic!("unexpected {other:?}"),
    }
    assert_eq!(selection.acting_player, None, "no choice was asked for");
    assert_eq!(state.phase, FloodPhase::Complete);
}

#[test]
fn flood_picks_the_plain_where_the_victim_has_most_tokens() {
    let victim = e(1);
    let areas = vec![
        area(e(10), None, vec![(victim, 2)]),
        area(e(11), None, vec![(victim, 5)]),
        area(e(12), None, vec![(victim, 5)]),
    ];
    let mut state = FloodState::new();
    let mut selection = FloodSelectionState::default();
    let plains = vec![e(10), e(11), e(12)];
    let action = state.advance(victim, &plains, &areas, &Vec::new(), false, false, &mut selection);
    assert!(matches!(action, FloodAction::Nothing));
    assert_eq!(state.flood_plain_area, Some(e(11)));
    assert_eq!(state.phase, FloodPhase::ApplyPrimaryLoss);
}

// ── Famine ────────────────────────────────────────────────────────────────

/// One turn of the Famine: steps on while the next victim can be settled at
/// once, as the game loop does.
fn famine_turn(
    state: &mut FamineState,
    victim: &PlayerUnits,
    players: &Vec<PlayerUnits>,
    division: &mut FamineSelectionState,
    losses: &mut UnitLossSelectionState,
) -> Vec<FamineAction> {
    let mut actions = Vec::new();
    loop {
        let action = state.advance(victim.player, victim, players, division, losses);
        let more = action.continues();
        actions.push(action);
        if !more {
            return actions;
        }
    }
}

fn famine_secondary_losses(actions: &[FamineAction]) -> Vec<(Entity, usize)> {
    let mut out = Vec::new();
    for action in actions {
        if let FamineAction::SecondaryLoss { player, tokens, .. } = action {
            out.push((*player, tokens.iter().map(|(_, n)| *n).sum()));
        }
    }
    out
}

fn select_area(selection: &mut UnitLossSelectionState, wanted: Entity) {
    while selection.current_area().map(|(a, _, _)| a) != Some(wanted) {
        selection.next_area();
    }
}

#[test]
fn famine_primary_loss_pauses_for_a_human_victim_and_removes_exactly_what_they_chose() {
    let victim = e(1);
    let areas = [e(10), e(11)];
    let mut vu = units(victim, vec![(areas[0], 6), (areas[1], 6)], Vec::new(), true);
    let players = vec![vu.clone()];
    let mut state = FamineState::new();
    state.phase = FaminePhase::ComputeLosses;
    state.primary_loss = 4;
    let mut division = FamineSelectionState::default();
    let mut losses = UnitLossSelectionState::default();

    let action = state.advance(victim, &vu, &players, &mut division, &mut losses);
    assert!(matches!(action, FamineAction::AwaitChoice { player } if player == victim));
    assert_eq!(state.phase, FaminePhase::ComputeLosses, "must not advance while waiting");
    assert_eq!(losses.acting_player, Some(victim));
    assert_eq!(losses.total_budget, 4);
    assert_eq!(losses.total_available(), 12);
    vu.awaiting = true;

    select_area(&mut losses, areas[1]);
    for _ in 0..4 {
        assert!(losses.increment_current());
    }
    assert!(losses.selection_valid());
    vu.awaiting = false;

    let action = state.advance(victim, &vu, &players, &mut division, &mut losses);
    match action {
        FamineAction::PrimaryLoss { tokens, cities, .. } => {
            assert_eq!(6 - lost(&tokens, areas[0]), 6, "the area the human protected is untouched");
            assert_eq!(6 - lost(&tokens, areas[1]), 2, "all 4 points came off the area picked");
            assert!(cities.is_empty());
        },
        other => panic!("unexpected {other:?}"),
    }
    assert_eq!(losses.acting_player, None, "state cleared after use");
    assert_ne!(state.phase, FaminePhase::ComputeLosses, "phase advanced once applied");
}

#[test]
fn famine_primary_loss_is_automatic_for_an_ai_victim() {
    let victim = e(1);
    let a = e(10);
    let vu = units(victim, vec![(a, 6)], Vec::new(), false);
    let players = vec![vu.clone()];
    let mut state = FamineState::new();
    state.phase = FaminePhase::ComputeLosses;
    state.primary_loss = 4;
    let mut division = FamineSelectionState::default();
    let mut losses = UnitLossSelectionState::default();
    let action = state.advance(victim, &vu, &players, &mut division, &mut losses);
    match action {
        FamineAction::PrimaryLoss { tokens, .. } => assert_eq!(6 - lost(&tokens, a), 2),
        other => panic!("AI is never prompted: {other:?}"),
    }
    assert_eq!(losses.acting_player, None);
}

#[test]
fn famine_primary_loss_skips_the_prompt_when_the_victim_loses_everything_anyway() {
    let victim = e(1);
    let a = e(10);
    let vu = units(victim, vec![(a, 3)], Vec::new(), true);
    let players = vec![vu.clone()];
    let mut state = FamineState::new();
    state.phase = FaminePhase::ComputeLosses;
    state.primary_loss = 10;
    let mut division = FamineSelectionState::default();
    let mut losses = UnitLossSelectionState::default();
    let action = state.advance(victim, &vu, &players, &mut division, &mut losses);
    match action {
        FamineAction::PrimaryLoss { tokens, .. } => assert_eq!(3 - lost(&tokens, a), 0),
        other => panic!("nothing to choose: {other:?}"),
    }
    assert_eq!(losses.acting_player, None);
}

#[test]
fn famine_secondary_loss_lets_a_human_secondary_victim_pick_their_own_units() {
    let victim = e(1);
    let human_secondary = e(2);
    let areas = [e(10), e(11)];
    let vu = units(victim, Vec::new(), Vec::new(), false);
    let mut players = vec![vu.clone(), units(human_secondary, vec![(areas[0], 5), (areas[1], 5)], Vec::new(), true)];
    let mut state = FamineState::new();
    state.phase = FaminePhase::ApplySecondaryLosses;
    state.secondary_allocations = vec![(human_secondary, 3)];
    let mut division = FamineSelectionState::default();
    let mut losses = UnitLossSelectionState::default();

    let actions = famine_turn(&mut state, &vu, &players, &mut division, &mut losses);
    assert!(matches!(actions.last(), Some(FamineAction::AwaitChoice { player }) if *player == human_secondary),
        "the secondary victim, not the primary, chooses their own units");
    assert!(famine_secondary_losses(&actions).is_empty());
    assert_eq!(losses.acting_player, Some(human_secondary));
    players[1].awaiting = true;

    select_area(&mut losses, areas[1]);
    for _ in 0..3 {
        assert!(losses.increment_current());
    }
    players[1].awaiting = false;

    let actions = famine_turn(&mut state, &vu, &players, &mut division, &mut losses);
    let mut taken = Vec::new();
    for action in &actions {
        if let FamineAction::SecondaryLoss { player, tokens, .. } = action {
            assert_eq!(*player, human_secondary);
            taken.extend(tokens.iter().copied());
        }
    }
    assert_eq!(5 - lost(&taken, areas[0]), 5);
    assert_eq!(5 - lost(&taken, areas[1]), 2);
    assert_eq!(state.phase, FaminePhase::Complete);
    assert!(state.secondary_allocations.is_empty(), "work list drained");
}

#[test]
fn famine_secondary_losses_are_applied_once_each_across_a_pause() {
    let victim = e(1);
    let ai_secondary = e(2);
    let human_secondary = e(3);
    let shared = e(10);
    let second = e(11);
    let vu = units(victim, Vec::new(), Vec::new(), false);
    let mut players = vec![
        vu.clone(),
        units(ai_secondary, vec![(shared, 6)], Vec::new(), false),
        units(human_secondary, vec![(shared, 6), (second, 4)], Vec::new(), true),
    ];
    let mut state = FamineState::new();
    state.phase = FaminePhase::ApplySecondaryLosses;
    state.secondary_allocations = vec![(ai_secondary, 2), (human_secondary, 2)];
    let mut division = FamineSelectionState::default();
    let mut losses = UnitLossSelectionState::default();

    let actions = famine_turn(&mut state, &vu, &players, &mut division, &mut losses);
    assert_eq!(famine_secondary_losses(&actions), vec![(ai_secondary, 2)], "the AI victim is settled at once");
    assert!(matches!(actions.last(), Some(FamineAction::AwaitChoice { player }) if *player == human_secondary));
    players[1].areas = vec![(shared, 4)];
    players[2].awaiting = true;

    for _ in 0..2 {
        let actions = famine_turn(&mut state, &vu, &players, &mut division, &mut losses);
        assert!(famine_secondary_losses(&actions).is_empty(), "settled victims are dropped from the work list");
    }

    select_area(&mut losses, second);
    for _ in 0..2 {
        assert!(losses.increment_current());
    }
    players[2].awaiting = false;
    let actions = famine_turn(&mut state, &vu, &players, &mut division, &mut losses);
    let mut taken = Vec::new();
    for action in &actions {
        if let FamineAction::SecondaryLoss { player, tokens, .. } = action {
            assert_eq!(*player, human_secondary, "the AI victim is not charged again");
            taken.extend(tokens.iter().copied());
        }
    }
    assert_eq!(6 - lost(&taken, shared), 6);
    assert_eq!(4 - lost(&taken, second), 2);
}

#[test]
fn famine_secondary_loss_pauses_for_a_human_primary_victim_and_applies_their_choice() {
    let victim = e(1);
    let shared = e(10);
    let secondaries = [e(2), e(3), e(4)];
    let vu = units(victim, vec![(shared, 1)], Vec::new(), true);
    let mut players = vec![vu.clone()];
    for s in secondaries {
        players.push(units(s, vec![(shared, 10)], Vec::new(), false));
    }
    let mut state = FamineState::new();
    state.phase = FaminePhase::SelectSecondaryVictims;
    let mut division = FamineSelectionState::default();
    let mut losses = UnitLossSelectionState::default();

    let actions = famine_turn(&mut state, &vu, &players, &mut division, &mut losses);
    assert!(matches!(actions.last(), Some(FamineAction::AwaitChoice { player }) if *player == victim));
    assert_eq!(division.acting_player, Some(victim));
    assert_eq!(division.total_budget, 20);
    assert_eq!(division.victims.len(), 3);
    assert_eq!(state.phase, FaminePhase::SelectSecondaryVictims, "must not advance while waiting");

    for _ in 0..8 {
        assert!(division.increment_current());
    }
    division.next_victim();
    for _ in 0..8 {
        assert!(division.increment_current());
    }
    division.next_victim();
    for _ in 0..4 {
        assert!(division.increment_current());
    }

    let mut all = famine_turn(&mut state, &vu, &players, &mut division, &mut losses);
    all.extend(famine_turn(&mut state, &vu, &players, &mut division, &mut losses));
    let taken = famine_secondary_losses(&all);
    assert_eq!(10 - lost(&taken, secondaries[0]), 2);
    assert_eq!(10 - lost(&taken, secondaries[1]), 2);
    assert_eq!(10 - lost(&taken, secondaries[2]), 6);
    assert_eq!(state.phase, FaminePhase::Complete);
    assert_eq!(division.acting_player, None, "selection state cleared after use");
}

#[test]
fn famine_secondary_loss_skips_the_ui_when_everyone_loses_everything_automatically() {
    let victim = e(1);
    let shared = e(10);
    let sec_a = e(2);
    let sec_b = e(3);
    let vu = units(victim, vec![(shared, 1)], Vec::new(), true);
    let players = vec![
        vu.clone(),
        units(sec_a, vec![(shared, 8)], Vec::new(), false),
        units(sec_b, vec![(shared, 8)], Vec::new(), false),
    ];
    let mut state = FamineState::new();
    state.phase = FaminePhase::SelectSecondaryVictims;
    let mut division = FamineSelectionState::default();
    let mut losses = UnitLossSelectionState::default();
    let mut all = famine_turn(&mut state, &vu, &players, &mut division, &mut losses);
    all.extend(famine_turn(&mut state, &vu, &players, &mut division, &mut losses));
    assert!(!all.iter().any(|a| matches!(a, FamineAction::AwaitChoice { .. })), "nothing to choose");
    let taken = famine_secondary_losses(&all);
    assert_eq!(8 - lost(&taken, sec_a), 0);
    assert_eq!(8 - lost(&taken, sec_b), 0);
    assert_eq!(state.phase, FaminePhase::Complete);
}

// ── Epidemic ──────────────────────────────────────────────────────────────

fn epidemic_turn(
    state: &mut EpidemicState,
    victim: &PlayerUnits,
    players: &Vec<PlayerUnits>,
    medicine_holders: &Vec<Entity>,
    division: &mut EpidemicSelectionState,
    losses: &mut UnitLossSelectionState,
) -> Vec<EpidemicAction> {
    let mut actions = Vec::new();
    loop {
        let action = state.advance(victim.player, victim, players, medicine_holders, division, losses);
        let more = action.continues() && state.phase == EpidemicPhase::ApplySecondaryLosses;
        actions.push(action);
        if !more {
            return actions;
        }
    }
}

fn epidemic_secondary_losses(actions: &[EpidemicAction]) -> Vec<(Entity, usize)> {
    let mut out = Vec::new();
    for action in actions {
        if let EpidemicAction::SecondaryLoss { player, tokens, .. } = action {
            out.push((*player, tokens.iter().map(|(_, n)| *n).sum()));
        }
    }
    out
}

#[test]
fn epidemic_primary_loss_pauses_for_a_human_without_double_spending_the_city_budget() {
    let victim = e(1);
    let areas = [e(10), e(11)];
    let mut vu = units(victim, vec![(areas[0], 5), (areas[1], 5)], vec![areas[0]], true);
    let players = vec![vu.clone()];
    let mut state = EpidemicState::new();
    state.phase = EpidemicPhase::ComputeEffects;
    state.primary_loss = 6;
    let mut division = EpidemicSelectionState::default();
    let mut losses = UnitLossSelectionState::default();
    let none = Vec::new();

    let first = state.advance(victim, &vu, &players, &none, &mut division, &mut losses);
    match first {
        EpidemicAction::DestroyCities { player, cities } => {
            assert_eq!(player, victim);
            assert_eq!(cities, vec![areas[0]], "city spent against the budget");
        },
        other => panic!("unexpected {other:?}"),
    }
    let second = state.advance(victim, &vu, &players, &none, &mut division, &mut losses);
    assert!(matches!(second, EpidemicAction::AwaitChoice { player } if player == victim));
    assert_eq!(losses.total_budget, 2, "4 of the 6 points went to the city");
    assert_eq!(losses.total_available(), 8, "one token is left in each area, so 4 of 5 are offered in each");
    vu.awaiting = true;

    let idle = state.advance(victim, &vu, &players, &none, &mut division, &mut losses);
    assert!(matches!(idle, EpidemicAction::Nothing));
    assert_eq!(state.phase, EpidemicPhase::ApplyPrimaryLoss, "still waiting");
    assert_eq!(state.primary_tokens_remaining, 2, "city budget not spent twice");

    select_area(&mut losses, areas[1]);
    assert!(losses.increment_current());
    assert!(losses.increment_current());
    assert!(losses.selection_valid());
    vu.awaiting = false;

    let last = state.advance(victim, &vu, &players, &none, &mut division, &mut losses);
    match last {
        EpidemicAction::PrimaryLoss { tokens, .. } => {
            assert_eq!(5 - lost(&tokens, areas[0]), 5);
            assert_eq!(5 - lost(&tokens, areas[1]), 3);
        },
        other => panic!("unexpected {other:?}"),
    }
}

#[test]
fn epidemic_primary_loss_spends_up_to_4_points_on_an_owned_city_then_the_rest_on_tokens() {
    let victim = e(1);
    let city_area = e(10);
    let vu = units(victim, vec![(city_area, 10)], vec![city_area], false);
    let players = vec![vu.clone()];
    let mut state = EpidemicState::new();
    state.phase = EpidemicPhase::ComputeEffects;
    state.primary_loss = 6;
    let mut division = EpidemicSelectionState::default();
    let mut losses = UnitLossSelectionState::default();
    let none = Vec::new();
    match state.advance(victim, &vu, &players, &none, &mut division, &mut losses) {
        EpidemicAction::DestroyCities { cities, .. } => assert_eq!(cities, vec![city_area]),
        other => panic!("unexpected {other:?}"),
    }
    match state.advance(victim, &vu, &players, &none, &mut division, &mut losses) {
        EpidemicAction::PrimaryLoss { tokens, .. } => assert_eq!(10 - lost(&tokens, city_area), 8),
        other => panic!("unexpected {other:?}"),
    }
}

#[test]
fn epidemic_primary_loss_under_4_points_still_spends_only_on_the_city_partially() {
    let victim = e(1);
    let city_area = e(10);
    let vu = units(victim, vec![(city_area, 5)], vec![city_area], false);
    let players = vec![vu.clone()];
    let mut state = EpidemicState::new();
    state.phase = EpidemicPhase::ComputeEffects;
    state.primary_loss = 2;
    let mut division = EpidemicSelectionState::default();
    let mut losses = UnitLossSelectionState::default();
    let none = Vec::new();
    match state.advance(victim, &vu, &players, &none, &mut division, &mut losses) {
        EpidemicAction::DestroyCities { cities, .. } => assert_eq!(cities, vec![city_area]),
        other => panic!("unexpected {other:?}"),
    }
    assert_eq!(state.primary_tokens_remaining, 0, "the whole budget went to the city");
    match state.advance(victim, &vu, &players, &none, &mut division, &mut losses) {
        EpidemicAction::PrimaryLoss { tokens, .. } => assert_eq!(5 - lost(&tokens, city_area), 5),
        other => panic!("unexpected {other:?}"),
    }
}

#[test]
fn epidemic_does_not_touch_a_city_the_player_does_not_own() {
    let victim = e(1);
    let a = e(10);
    let vu = units(victim, vec![(a, 10)], Vec::new(), false);
    let players = vec![vu.clone()];
    let mut state = EpidemicState::new();
    state.phase = EpidemicPhase::ComputeEffects;
    state.primary_loss = 6;
    let mut division = EpidemicSelectionState::default();
    let mut losses = UnitLossSelectionState::default();
    let none = Vec::new();
    match state.advance(victim, &vu, &players, &none, &mut division, &mut losses) {
        EpidemicAction::DestroyCities { cities, .. } => assert!(cities.is_empty(), "no city to destroy"),
        other => panic!("unexpected {other:?}"),
    }
    match state.advance(victim, &vu, &players, &none, &mut division, &mut losses) {
        EpidemicAction::PrimaryLoss { tokens, .. } => assert_eq!(10 - lost(&tokens, a), 4),
        other => panic!("unexpected {other:?}"),
    }
}

#[test]
fn epidemic_secondary_loss_pauses_for_a_human_primary_victim_and_applies_their_choice() {
    let victim = e(1);
    let shared = e(10);
    let secondaries = [e(2), e(3), e(4), e(5)];
    let vu = units(victim, vec![(shared, 1)], Vec::new(), true);
    let mut players = vec![vu.clone()];
    for s in secondaries {
        players.push(units(s, vec![(shared, 12)], Vec::new(), false));
    }
    let medicine = vec![secondaries[1]];
    let mut state = EpidemicState::new();
    state.phase = EpidemicPhase::ApplySecondaryLosses;
    let mut division = EpidemicSelectionState::default();
    let mut losses = UnitLossSelectionState::default();

    let actions = epidemic_turn(&mut state, &vu, &players, &medicine, &mut division, &mut losses);
    assert!(matches!(actions.last(), Some(EpidemicAction::AwaitChoice { player }) if *player == victim));
    assert_eq!(division.acting_player, Some(victim));
    assert_eq!(division.total_budget, 25);
    assert_eq!(division.victims.len(), 4);
    let medicine_cap = division.victims.iter().find(|&&(x, _, _)| x == secondaries[1]).map(|&(_, cap, _)| cap);
    assert_eq!(medicine_cap, Some(5));
    assert_eq!(state.phase, EpidemicPhase::ApplySecondaryLosses);

    for (who, points) in [(secondaries[0], 10), (secondaries[1], 5), (secondaries[2], 10)] {
        division.current_victim_index = division.victims.iter().position(|&(x, _, _)| x == who).unwrap();
        for _ in 0..points {
            assert!(division.increment_current());
        }
    }

    let actions = epidemic_turn(&mut state, &vu, &players, &medicine, &mut division, &mut losses);
    let taken = epidemic_secondary_losses(&actions);
    assert_eq!(12 - lost(&taken, secondaries[0]), 2);
    assert_eq!(12 - lost(&taken, secondaries[1]), 7);
    assert_eq!(12 - lost(&taken, secondaries[2]), 2);
    assert_eq!(12 - lost(&taken, secondaries[3]), 12);
    assert_eq!(state.phase, EpidemicPhase::Complete);
    assert_eq!(division.acting_player, None, "selection state cleared after use");
}

#[test]
fn epidemic_secondary_loss_skips_the_ui_when_everyone_loses_everything_automatically() {
    let victim = e(1);
    let shared = e(10);
    let sec_a = e(2);
    let sec_b = e(3);
    let vu = units(victim, vec![(shared, 1)], Vec::new(), true);
    let players = vec![
        vu.clone(),
        units(sec_a, vec![(shared, 8)], Vec::new(), false),
        units(sec_b, vec![(shared, 8)], Vec::new(), false),
    ];
    let mut state = EpidemicState::new();
    state.phase = EpidemicPhase::ApplySecondaryLosses;
    let mut division = EpidemicSelectionState::default();
    let mut losses = UnitLossSelectionState::default();
    let actions = epidemic_turn(&mut state, &vu, &players, &Vec::new(), &mut division, &mut losses);
    assert!(!actions.iter().any(|a| matches!(a, EpidemicAction::AwaitChoice { .. })), "nothing to choose");
    let taken = epidemic_secondary_losses(&actions);
    assert_eq!(8 - lost(&taken, sec_a), 1, "one token is left in each area");
    assert_eq!(8 - lost(&taken, sec_b), 1);
    assert_eq!(state.phase, EpidemicPhase::Complete);
}

// ── Barbarian Hordes ──────────────────────────────────────────────────────

#[test]
fn crete_is_immune_and_never_places_any_tokens() {
    let victim = e(1);
    let start_areas = vec![(e(10), true)];
    let areas = vec![area(e(10), None, vec![(victim, 3)])];
    let mut state = BarbarianHordesState::new();
    let action = state.advance(victim, true, &start_areas, &areas, false, false, 0);
    assert!(matches!(action, BarbarianAction::Nothing));
    assert_eq!(state.phase, BarbarianHordesPhase::Complete);
    assert_eq!(state.landing_area, None);
    match state.advance(victim, true, &start_areas, &areas, false, false, 0) {
        BarbarianAction::Cleanup { barbarian, areas, tokens } => {
            assert_eq!(barbarian, None);
            assert!(areas.is_empty());
            assert!(tokens.is_empty());
        },
        other => panic!("unexpected {other:?}"),
    }
}
