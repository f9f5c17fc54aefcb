use advciv::calamities::civil_disorder::{CivilDisorderPhase, CivilDisorderState};
use advciv::entity::Entity;
use advciv::resolution::cities::CityAction;
use advciv::selection::calamity::CalamitySelectionState;

fn e(n: u32) -> Entity {
    Entity::from_raw_u32(n).unwrap()
}

#[test]
fn base_keeps_3_cities() {
    let mut state = CivilDisorderState::new();
    state.compute_cities_to_reduce(8);
    assert_eq!(state.cities_to_reduce, 5);
}

#[test]
fn keep_modifiers_are_cumulative() {
    let mut state = CivilDisorderState::new()
        .with_music()
        .with_drama_and_poetry()
        .with_law()
        .with_democracy();
    state.compute_cities_to_reduce(8);
    assert_eq!(state.cities_to_reduce, 1);
}

#[test]
fn military_and_road_building_reduce_keep_threshold() {
    let mut state = CivilDisorderState::new().with_military().with_road_building();
    state.compute_cities_to_reduce(8);
    assert_eq!(state.cities_to_reduce, 7);
}

#[test]
fn civil_disorder_all_modifiers_cumulative() {
    let mut state = CivilDisorderState::new()
        .with_music()
        .with_drama_and_poetry()
        .with_law()
        .with_democracy()
        .with_military()
        .with_road_building();
    state.compute_cities_to_reduce(8);
    assert_eq!(state.cities_to_reduce, 3);
}

#[test]
fn keep_threshold_does_not_go_negative() {
    let mut state = CivilDisorderState::new()
        .with_military()
        .with_road_building()
        .with_military()
        .with_road_building();
    state.compute_cities_to_reduce(3);
    assert_eq!(state.cities_to_reduce, 3);
}

#[test]
fn cannot_reduce_more_cities_than_owned() {
    let mut state = CivilDisorderState::new();
    state.compute_cities_to_reduce(2);
    assert_eq!(state.cities_to_reduce, 0);
}

#[test]
fn an_ai_victim_reduces_its_first_cities() {
    let cities: Vec<Entity> = (10..16).map(e).collect();
    let mut selection = CalamitySelectionState::default();
    let mut state = CivilDisorderState::new();
    let a = state.advance(e(1), &cities, false, false, &mut selection);
    assert!(matches!(a, CityAction::Nothing));
    assert_eq!(state.cities_to_reduce, 3);
    assert_eq!(state.phase, CivilDisorderPhase::ApplyEffects);
    assert_eq!(state.selected_cities, vec![e(10), e(11), e(12)]);
    match state.advance(e(1), &cities, false, false, &mut selection) {
        CityAction::Reduce { cities } => assert_eq!(cities, vec![e(10), e(11), e(12)]),
        _ => panic!("expected the reductions"),
    }
    assert_eq!(state.phase, CivilDisorderPhase::Complete);
    assert!(matches!(state.advance(e(1), &cities, false, false, &mut selection), CityAction::Finish));
}

#[test]
fn a_human_victim_chooses_the_cities_to_reduce() {
    let cities: Vec<Entity> = (10..14).map(e).collect();
    let mut selection = CalamitySelectionState::default();
    let mut state = CivilDisorderState::new();
    assert!(matches!(state.advance(e(1), &cities, true, false, &mut selection), CityAction::AwaitChoice));
    assert_eq!(state.phase, CivilDisorderPhase::SelectCities);
    assert_eq!(selection.player, Some(e(1)));
    assert_eq!(selection.required_count, 1);
    assert_eq!(selection.calamity_name, "Civil Disorder");
    // Still waiting: nothing changes.
    state.advance(e(1), &cities, true, true, &mut selection);
    assert_eq!(state.phase, CivilDisorderPhase::SelectCities);
    selection.next();
    selection.toggle_current();
    state.advance(e(1), &cities, true, false, &mut selection);
    assert_eq!(state.phase, CivilDisorderPhase::ApplyEffects);
    assert_eq!(state.selected_cities, vec![e(11)]);
    assert_eq!(selection.player, None);
}
