use advciv::calamities::barbarian_hordes::{
    barbarian_damage_score, BarbarianHordesPhase, BarbarianHordesState, MAX_CASCADE_ITERATIONS,
};
use advciv::entity::Entity;
use advciv::resolution::barbarians::{
    choose_landing_area, choose_onward_area, BarbarianAction, BARBARIAN_TOKENS,
};
use advciv::resolution::board::BoardArea;

fn e(n: u32) -> Entity {
    Entity::from_raw_u32(n).unwrap()
}

fn area(id: u32, city_owner: Option<Entity>, population: Vec<(Entity, usize)>, land: Vec<Entity>, sea: Vec<Entity>, open_sea: bool) -> BoardArea {
    BoardArea {
        area: e(id),
        city_owner,
        population,
        land_neighbours: land,
        sea_neighbours: sea,
        open_sea,
        coastal: false,
    }
}

#[test]
fn new_state_starts_at_find_landing_area_with_no_area_or_owner_yet() {
    let state = BarbarianHordesState::new();
    assert_eq!(state.phase, BarbarianHordesPhase::FindLandingArea);
    assert!(state.landing_area.is_none());
    assert!(state.barbarian_entity.is_none());
    assert!(state.visited_areas.is_empty());
    assert!(state.all_tokens.is_empty());
    assert_eq!(state.cascade_iterations, 0);
}

#[test]
fn damage_score_counts_tokens_at_1_point_each() {
    assert_eq!(barbarian_damage_score(7, false), 7);
}

#[test]
fn damage_score_adds_5_for_an_owned_city() {
    assert_eq!(barbarian_damage_score(3, true), 8);
}

#[test]
fn an_empty_area_with_no_city_scores_zero_damage() {
    assert_eq!(barbarian_damage_score(0, false), 0);
}

#[test]
fn a_bare_city_with_no_defenders_still_scores_as_damage() {
    assert_eq!(barbarian_damage_score(0, true), 5);
}

#[test]
fn landing_picks_the_victims_start_area_of_greatest_damage() {
    let victim = e(1);
    let board = vec![
        area(10, None, vec![(victim, 2)], vec![], vec![], false),
        area(11, Some(victim), vec![(victim, 1)], vec![], vec![], false),
        area(12, None, vec![(victim, 9)], vec![], vec![], false),
    ];
    // Area 12 is not the victim's start area, so it is never considered.
    let starts = vec![(e(10), true), (e(11), true), (e(12), false)];
    assert_eq!(choose_landing_area(&starts, &board, victim), Some(e(11)));
}

#[test]
fn landing_ties_keep_the_first_start_area_and_empty_ones_still_count() {
    let victim = e(1);
    let starts = vec![(e(20), true), (e(21), true)];
    assert_eq!(choose_landing_area(&starts, &vec![], victim), Some(e(20)));
    assert_eq!(choose_landing_area(&vec![(e(20), false)], &vec![], victim), None);
}

#[test]
fn surplus_never_moves_onto_open_sea() {
    let victim = e(1);
    let board = vec![
        area(30, None, vec![], vec![e(31)], vec![e(32)], false),
        area(31, None, vec![(victim, 1)], vec![], vec![], false),
        area(32, Some(victim), vec![(victim, 4)], vec![], vec![], true),
    ];
    assert_eq!(choose_onward_area(e(30), &board, victim), Some(e(31)));
    let only_sea = vec![
        area(40, None, vec![], vec![], vec![e(41)], false),
        area(41, None, vec![(victim, 3)], vec![], vec![], true),
    ];
    assert_eq!(choose_onward_area(e(40), &only_sea, victim), None);
}

#[test]
fn crete_is_immune_and_the_hordes_never_land() {
    let mut state = BarbarianHordesState::new();
    let action = state.advance(e(1), true, &vec![(e(2), true)], &vec![], false, false, 0);
    assert!(matches!(action, BarbarianAction::Nothing));
    assert_eq!(state.phase, BarbarianHordesPhase::Complete);
    assert!(state.landing_area.is_none());
}

#[test]
fn the_hordes_land_fight_and_move_their_surplus_on() {
    let victim = e(1);
    let board = vec![
        area(50, Some(victim), vec![(victim, 2)], vec![e(51)], vec![], false),
        area(51, None, vec![(victim, 3)], vec![e(50)], vec![], false),
    ];
    let starts = vec![(e(50), true)];
    let mut state = BarbarianHordesState::new();
    state.advance(victim, false, &starts, &board, false, false, 0);
    assert_eq!(state.phase, BarbarianHordesPhase::PlaceBarbarians);
    assert_eq!(state.landing_area, Some(e(50)));

    let place = state.advance(victim, false, &starts, &board, false, false, 0);
    match place {
        BarbarianAction::Place { area, count } => {
            assert_eq!(area, e(50));
            assert_eq!(count, BARBARIAN_TOKENS);
        }
        _ => panic!("expected the tokens to be placed"),
    }
    state.record_placement(e(99), (200..215).map(e).collect());
    assert_eq!(state.phase, BarbarianHordesPhase::EnterArea);
    assert_eq!(state.all_tokens.len(), 15);

    let fight = state.advance(victim, false, &starts, &board, true, false, 0);
    match fight {
        BarbarianAction::StartConflict { area, city } => {
            assert_eq!(area, e(50));
            assert!(city);
        }
        _ => panic!("expected a conflict"),
    }
    assert_eq!(state.phase, BarbarianHordesPhase::AwaitingConflict);
    state.advance(victim, false, &starts, &board, false, true, 0);
    assert_eq!(state.phase, BarbarianHordesPhase::AwaitingConflict);
    state.advance(victim, false, &starts, &board, false, false, 0);
    assert_eq!(state.phase, BarbarianHordesPhase::CheckSurplus);

    let mv = state.advance(victim, false, &starts, &board, false, false, 4);
    match mv {
        BarbarianAction::MoveSurplus { from, to, count } => {
            assert_eq!(from, e(50));
            assert_eq!(to, e(51));
            assert_eq!(count, 4);
        }
        _ => panic!("expected the surplus to move on"),
    }
    assert_eq!(state.cascade_iterations, 1);
    assert_eq!(state.landing_area, Some(e(51)));

    state.advance(victim, false, &starts, &board, false, false, 0);
    state.advance(victim, false, &starts, &board, false, false, 0);
    assert_eq!(state.phase, BarbarianHordesPhase::Complete);
    match state.advance(victim, false, &starts, &board, false, false, 0) {
        BarbarianAction::Cleanup { barbarian, areas, tokens } => {
            assert_eq!(barbarian, Some(e(99)));
            assert_eq!(areas, vec![e(50), e(51)]);
            assert_eq!(tokens.len(), 15);
        }
        _ => panic!("expected the clean-up"),
    }
    assert!(state.all_tokens.is_empty());
}

#[test]
fn the_cascade_stops_after_the_hop_limit() {
    let victim = e(1);
    let board = vec![area(60, None, vec![], vec![e(61)], vec![], false)];
    let mut state = BarbarianHordesState::new();
    state.phase = BarbarianHordesPhase::CheckSurplus;
    state.landing_area = Some(e(60));
    state.barbarian_entity = Some(e(99));
    state.cascade_iterations = MAX_CASCADE_ITERATIONS;
    let action = state.advance(victim, false, &vec![], &board, false, false, 3);
    assert!(matches!(action, BarbarianAction::Nothing));
    assert_eq!(state.phase, BarbarianHordesPhase::Complete);
}
