use advciv::calamities::iconoclasm_heresy::{IconoclasmHeresyPhase, IconoclasmHeresyState};
use advciv::entity::Entity;
use advciv::resolution::cities::{iconoclasm_secondary_cities, CityAction};
use advciv::selection::calamity::CalamitySelectionState;

fn e(n: u32) -> Entity {
    Entity::from_raw_u32(n).unwrap()
}

#[test]
fn base_reduces_4_primary_and_2_secondary_cities() {
    let state = IconoclasmHeresyState::new();
    assert_eq!(state.cities_to_reduce, 4);
    assert_eq!(state.secondary_cities, 2);
}

#[test]
fn law_and_philosophy_each_reduce_by_1() {
    assert_eq!(IconoclasmHeresyState::new().with_law().cities_to_reduce, 3);
    assert_eq!(IconoclasmHeresyState::new().with_philosophy().cities_to_reduce, 3);
}

#[test]
fn theology_reduces_by_3() {
    assert_eq!(IconoclasmHeresyState::new().with_theology().cities_to_reduce, 1);
}

#[test]
fn monotheism_and_road_building_each_increase_by_1() {
    assert_eq!(IconoclasmHeresyState::new().with_monotheism().cities_to_reduce, 5);
    assert_eq!(IconoclasmHeresyState::new().with_road_building().cities_to_reduce, 5);
}

#[test]
fn iconoclasm_heresy_all_modifiers_cumulative() {
    let state = IconoclasmHeresyState::new()
        .with_law()
        .with_philosophy()
        .with_theology()
        .with_monotheism()
        .with_road_building();
    assert_eq!(state.cities_to_reduce, 1);
}

#[test]
fn cannot_go_negative() {
    let state = IconoclasmHeresyState::new().with_theology().with_theology();
    assert_eq!(state.cities_to_reduce, 0);
}

#[test]
fn modifier_order_does_not_affect_result() {
    let negatives_first = IconoclasmHeresyState::new()
        .with_law()
        .with_philosophy()
        .with_theology()
        .with_monotheism()
        .with_road_building();
    let positives_first = IconoclasmHeresyState::new()
        .with_monotheism()
        .with_road_building()
        .with_theology()
        .with_law()
        .with_philosophy();
    assert_eq!(negatives_first.cities_to_reduce, 1);
    assert_eq!(positives_first.cities_to_reduce, 1);
    assert_eq!(negatives_first.cities_to_reduce, positives_first.cities_to_reduce);
}

#[test]
fn secondary_cities_skip_theology_holders_and_take_one_from_philosophy_holders() {
    let victim = e(1);
    let players = vec![
        (victim, vec![e(10)]),
        (e(2), vec![e(20), e(21)]),
        (e(3), vec![e(30), e(31)]),
        (e(4), vec![e(40), e(41)]),
    ];
    // Player 2 holds Theology, player 3 Philosophy.
    let r = iconoclasm_secondary_cities(&players, victim, None, &vec![e(2)], &vec![e(3)], 2);
    assert_eq!(r, vec![e(30), e(40)]);
    // Without modifiers the first eligible player loses both.
    let r2 = iconoclasm_secondary_cities(&players, victim, None, &vec![], &vec![], 2);
    assert_eq!(r2, vec![e(20), e(21)]);
    // The trader is immune.
    let r3 = iconoclasm_secondary_cities(&players, victim, Some(e(2)), &vec![], &vec![], 2);
    assert_eq!(r3, vec![e(30), e(31)]);
}

#[test]
fn an_ai_victim_reduces_its_first_cities_and_two_secondary_cities() {
    let victim = e(1);
    let cities: Vec<Entity> = (10..16).map(e).collect();
    let players = vec![(victim, cities.clone()), (e(2), vec![e(20), e(21), e(22)])];
    let mut selection = CalamitySelectionState::default();
    let mut state = IconoclasmHeresyState::new();
    state.advance(victim, &cities, &players, &vec![], &vec![], false, false, &mut selection);
    assert_eq!(state.phase, IconoclasmHeresyPhase::ApplySecondaryLosses);
    assert_eq!(state.selected_cities, vec![e(10), e(11), e(12), e(13)]);
    match state.advance(victim, &cities, &players, &vec![], &vec![], false, false, &mut selection) {
        CityAction::Reduce { cities } => {
            assert_eq!(cities, vec![e(10), e(11), e(12), e(13), e(20), e(21)]);
        }
        _ => panic!("expected the reductions"),
    }
    assert_eq!(state.phase, IconoclasmHeresyPhase::Complete);
}
