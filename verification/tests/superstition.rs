use advciv::calamities::superstition::{SuperstitionPhase, SuperstitionState};
use advciv::entity::Entity;
use advciv::resolution::cities::CityAction;
use advciv::selection::calamity::CalamitySelectionState;

fn e(n: u32) -> Entity {
    Entity::from_raw_u32(n).unwrap()
}

#[test]
fn base_reduces_3_cities() {
    assert_eq!(SuperstitionState::new().cities_to_reduce, 3);
}

#[test]
fn mysticism_reduces_to_2_cities() {
    assert_eq!(SuperstitionState::new().with_mysticism().cities_to_reduce, 2);
}

#[test]
fn deism_reduces_to_1_city() {
    assert_eq!(SuperstitionState::new().with_deism().cities_to_reduce, 1);
}

#[test]
fn enlightenment_has_no_effect_zero_cities() {
    assert_eq!(SuperstitionState::new().with_enlightenment().cities_to_reduce, 0);
}

#[test]
fn superstition_without_cities_to_reduce_ends_at_once() {
    let mut selection = CalamitySelectionState::default();
    let mut state = SuperstitionState::new().with_enlightenment();
    let a = state.advance(e(1), &vec![e(10)], true, false, &mut selection);
    assert!(matches!(a, CityAction::Nothing));
    assert_eq!(state.phase, SuperstitionPhase::Complete);
    assert_eq!(selection.player, None);
}
