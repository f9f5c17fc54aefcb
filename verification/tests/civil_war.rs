use advciv::calamities::civil_war::{CivilWarPhase, CivilWarState, FactionChoice};
use advciv::entity::Entity;
use advciv::resolution::civil_war::{auto_pick, choose_beneficiary, CivilWarAction};
use advciv::selection::civil_war::CivilWarSelectionState;

fn e(n: u32) -> Entity {
    Entity::from_raw_u32(n).unwrap()
}

fn entities(start: u32, count: u32) -> Vec<Entity> {
    (start..start + count).map(e).collect()
}

#[test]
fn base_selection_points_are_15_and_20() {
    let state = CivilWarState::new();
    assert_eq!(state.victim_selection_points, 15);
    assert_eq!(state.beneficiary_selection_points, 20);
}

#[test]
fn music_drama_and_democracy_bonuses_are_cumulative() {
    let mut state = CivilWarState::new();
    state.apply_music_bonus();
    state.apply_drama_poetry_bonus();
    state.apply_democracy_bonus();
    assert_eq!(state.victim_selection_points, 15 + 5 + 5 + 10);
}

#[test]
fn victim_points_selected_counts_cities_as_5() {
    let mut state = CivilWarState::new();
    state.victim_selected_units = vec![e(1), e(2)];
    state.victim_selected_cities = vec![e(3)];
    assert_eq!(state.victim_points_selected(), 2 + 5);
}

#[test]
fn selection_complete_once_points_threshold_reached() {
    let mut state = CivilWarState::new();
    state.victim_selected_units = entities(100, 15);
    assert!(state.victim_selection_complete());

    let mut short = CivilWarState::new();
    short.victim_selected_units = entities(200, 14);
    assert!(!short.victim_selection_complete());
}

#[test]
fn philosophy_override_sets_beneficiary_target_to_15_and_zeroes_victim_target() {
    let state = CivilWarState::new().with_philosophy_override();
    assert!(state.philosophy_override);
    assert_eq!(state.victim_selection_points, 0);
    assert_eq!(state.beneficiary_selection_points, 15);
}

#[test]
fn philosophy_override_is_unaffected_by_music_drama_democracy() {
    let overridden = CivilWarState::new().with_philosophy_override();
    assert_eq!(overridden.beneficiary_selection_points, 15);
}

#[test]
fn second_faction_is_the_victims_board_minus_the_first_faction() {
    let mut state = CivilWarState::new();
    let victim_pick = e(1);
    let beneficiary_topup = e(2);
    let leftover = e(3);
    state.victim_selected_units = vec![victim_pick];
    state.beneficiary_selected_units = vec![beneficiary_topup];

    state.compute_second_faction(vec![victim_pick, beneficiary_topup, leftover], vec![]);

    assert_eq!(state.second_faction_units, vec![leftover]);
    assert!(state.has_second_faction());
}

#[test]
fn no_second_faction_when_first_faction_consumes_the_whole_board() {
    let mut state = CivilWarState::new();
    let a = e(1);
    let b = e(2);
    state.victim_selected_units = vec![a];
    state.beneficiary_selected_units = vec![b];

    state.compute_second_faction(vec![a, b], vec![]);

    assert_eq!(state.second_faction_units, [] as [Entity; 0]);
    assert_eq!(state.second_faction_cities, [] as [Entity; 0]);
    assert!(!state.has_second_faction());
}

#[test]
fn beneficiary_topup_and_victim_pick_are_disjoint_pools() {
    let mut state = CivilWarState::new();
    let victim_pick = e(1);
    let beneficiary_topup = e(2);
    state.victim_selected_units = vec![victim_pick];
    state.beneficiary_selected_units = vec![beneficiary_topup];

    assert_ne!(victim_pick, beneficiary_topup);
    assert_eq!(state.first_faction_points(), 2);
}

#[test]
fn ai_default_keeps_the_bigger_faction() {
    let mut state = CivilWarState::new();
    state.victim_selected_units = entities(100, 3);
    state.second_faction_units = entities(200, 10);
    assert_eq!(state.default_ai_faction_choice(), FactionChoice::Second);
}

#[test]
fn ai_default_keeps_first_faction_on_a_tie() {
    let mut state = CivilWarState::new();
    state.victim_selected_units = entities(100, 5);
    state.second_faction_units = entities(200, 5);
    assert_eq!(state.default_ai_faction_choice(), FactionChoice::First);
}

#[test]
fn keeping_first_faction_transfers_the_second_faction() {
    let mut state = CivilWarState::new();
    let victim_pick = e(1);
    let beneficiary_topup = e(2);
    let leftover = e(3);
    state.victim_selected_units = vec![victim_pick];
    state.beneficiary_selected_units = vec![beneficiary_topup];
    state.second_faction_units = vec![leftover];
    state.kept_faction = Some(FactionChoice::First);

    assert_eq!(state.transferring_units(), vec![leftover]);
}

#[test]
fn keeping_second_faction_transfers_the_first_faction() {
    let mut state = CivilWarState::new();
    let victim_pick = e(1);
    let beneficiary_topup = e(2);
    let leftover = e(3);
    state.victim_selected_units = vec![victim_pick];
    state.beneficiary_selected_units = vec![beneficiary_topup];
    state.second_faction_units = vec![leftover];
    state.kept_faction = Some(FactionChoice::Second);

    let mut transferring = state.transferring_units();
    transferring.sort();
    let mut expected = vec![victim_pick, beneficiary_topup];
    expected.sort();
    assert_eq!(transferring, expected);
}

#[test]
fn military_penalty_removes_5_points_from_beneficiary_tokens_first() {
    let mut state = CivilWarState::new().with_military_penalty();
    state.beneficiary_selected_units = entities(100, 8);
    state.apply_military_penalty_to_first_faction();
    assert_eq!(state.beneficiary_selected_units.len(), 3);
    assert_eq!(state.beneficiary_selected_cities, [] as [Entity; 0]);
}

#[test]
fn military_penalty_falls_through_to_a_city_when_tokens_run_out() {
    let mut state = CivilWarState::new().with_military_penalty();
    state.beneficiary_selected_units = entities(100, 2);
    state.beneficiary_selected_cities = vec![e(300)];
    state.apply_military_penalty_to_first_faction();
    assert_eq!(state.beneficiary_selected_units, [] as [Entity; 0]);
    assert_eq!(state.beneficiary_selected_cities, [] as [Entity; 0]);
}

#[test]
fn military_penalty_falls_through_to_victim_pool_when_beneficiary_topup_is_small() {
    let mut state = CivilWarState::new().with_military_penalty();
    state.beneficiary_selected_units = entities(100, 2);
    state.victim_selected_units = entities(200, 8);
    state.apply_military_penalty_to_first_faction();
    assert_eq!(state.beneficiary_selected_units, [] as [Entity; 0]);
    assert_eq!(state.victim_selected_units.len(), 5);
}

#[test]
fn military_penalty_applies_to_second_faction_independently() {
    let mut state = CivilWarState::new().with_military_penalty();
    state.second_faction_units = entities(100, 8);
    state.apply_military_penalty_to_second_faction();
    assert_eq!(state.second_faction_units.len(), 3);
}

#[test]
fn military_penalty_is_a_no_op_when_not_flagged() {
    let mut state = CivilWarState::new();
    state.beneficiary_selected_units = entities(100, 8);
    state.apply_military_penalty_to_first_faction();
    assert_eq!(state.beneficiary_selected_units.len(), 8);
}

#[test]
fn military_penalty_does_not_go_negative_on_an_empty_faction() {
    let mut state = CivilWarState::new().with_military_penalty();
    state.apply_military_penalty_to_first_faction();
    assert_eq!(state.beneficiary_selected_units, [] as [Entity; 0]);
    assert_eq!(state.beneficiary_selected_cities, [] as [Entity; 0]);
}

#[test]
fn the_beneficiary_is_the_other_player_with_most_tokens_in_stock() {
    let victim = e(1);
    // Ties go to the last listed player.
    let stocks = vec![(e(2), 10), (victim, 30), (e(3), 12), (e(4), 12)];
    assert_eq!(choose_beneficiary(&stocks, victim), Some(e(4)));
    assert_eq!(choose_beneficiary(&vec![(victim, 3)], victim), None);
}

#[test]
fn an_automatic_pick_takes_tokens_then_cities() {
    let tokens = entities(100, 3);
    let cities = entities(200, 3);
    let (t, c) = auto_pick(&tokens, &cities, 15);
    assert_eq!(t, tokens);
    // 12 points are still owed after the tokens: three cities of five cover them.
    assert_eq!(c, vec![e(200), e(201), e(202)]);
    let (t2, c2) = auto_pick(&tokens, &cities, 2);
    assert_eq!(t2, vec![e(100), e(101)]);
    assert!(c2.is_empty());
}

#[test]
fn human_victim_choosing_second_faction_sends_the_first_faction_to_the_beneficiary() {
    let victim = e(1);
    let beneficiary = e(2);
    let tokens = entities(100, 20);
    let cities: Vec<Entity> = vec![];
    let stocks = vec![(victim, 5), (beneficiary, 40)];
    let mut selection = CivilWarSelectionState::default();
    let mut state = CivilWarState::new();
    state.advance(victim, &tokens, &cities, &stocks, &vec![], true, false, false, false, &mut selection);
    assert_eq!(state.beneficiary, Some(beneficiary));
    assert_eq!(state.phase, CivilWarPhase::VictimSelectsUnits);
    // The human victim is asked for fifteen points.
    let a = state.advance(victim, &tokens, &cities, &stocks, &vec![], true, false, false, false, &mut selection);
    assert!(matches!(a, CivilWarAction::AwaitChoice { player } if player == victim));
    assert_eq!(selection.target_points, 15);
    for _ in 0..15 {
        selection.increment_tokens();
    }
    state.advance(victim, &tokens, &cities, &stocks, &vec![], true, false, false, false, &mut selection);
    assert_eq!(state.phase, CivilWarPhase::BeneficiarySelectsUnits);
    assert_eq!(state.victim_selected_units, entities(100, 15));
    // The AI beneficiary tops up from what is left: five tokens.
    state.advance(victim, &tokens, &cities, &stocks, &vec![], true, false, false, false, &mut selection);
    assert_eq!(state.phase, CivilWarPhase::VictimChoosesFaction);
    assert_eq!(state.beneficiary_selected_units, entities(115, 5));
    assert!(!state.has_second_faction());
    // No second faction: no Civil War.
    state.advance(victim, &tokens, &cities, &stocks, &vec![], true, false, false, false, &mut selection);
    assert_eq!(state.phase, CivilWarPhase::Complete);
}

#[test]
fn ai_victim_keeps_the_bigger_faction_by_default() {
    let victim = e(1);
    let beneficiary = e(2);
    let tokens = entities(100, 50);
    let stocks = vec![(beneficiary, 10)];
    let mut selection = CivilWarSelectionState::default();
    let mut state = CivilWarState::new();
    for _ in 0..4 {
        state.advance(victim, &tokens, &vec![], &stocks, &vec![], false, false, false, false, &mut selection);
    }
    // First faction 15 + 20 = 35 tokens, second 15: the victim keeps the first.
    assert_eq!(state.kept_faction, Some(FactionChoice::First));
    assert_eq!(state.phase, CivilWarPhase::TransferFaction);
    match state.advance(victim, &tokens, &vec![], &stocks, &vec![], false, false, false, false, &mut selection) {
        CivilWarAction::Transfer { units, cities, to } => {
            assert_eq!(to, beneficiary);
            assert_eq!(units, entities(135, 15));
            assert!(cities.is_empty());
        }
        _ => panic!("expected the transfer"),
    }
}

#[test]
fn military_penalty_shrinks_the_transferring_second_faction() {
    let victim = e(1);
    let beneficiary = e(2);
    let tokens = entities(100, 50);
    let stocks = vec![(beneficiary, 10)];
    let mut selection = CivilWarSelectionState::default();
    let mut state = CivilWarState::new();
    // The beneficiary holds Military.
    for _ in 0..4 {
        state.advance(victim, &tokens, &vec![], &stocks, &vec![beneficiary], false, false, false, false, &mut selection);
    }
    assert!(state.military_penalty);
    assert_eq!(state.second_faction_units.len(), 10);
    match state.advance(victim, &tokens, &vec![], &stocks, &vec![], false, false, false, false, &mut selection) {
        CivilWarAction::Transfer { units, .. } => assert_eq!(units.len(), 10),
        _ => panic!("expected the transfer"),
    }
}

#[test]
fn no_second_faction_means_no_civil_war() {
    let victim = e(1);
    let tokens = entities(100, 10);
    let stocks = vec![(e(2), 10)];
    let mut selection = CivilWarSelectionState::default();
    let mut state = CivilWarState::new();
    for _ in 0..4 {
        state.advance(victim, &tokens, &vec![], &stocks, &vec![], false, false, false, false, &mut selection);
    }
    assert_eq!(state.phase, CivilWarPhase::Complete);
    assert!(state.kept_faction.is_none());
}
