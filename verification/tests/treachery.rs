use advciv::calamities::treachery::{TreacheryPhase, TreacheryState};
use advciv::entity::Entity;
use advciv::resolution::cities::CityAction;
use advciv::selection::calamity::CalamitySelectionState;

fn e(n: u32) -> Entity {
    Entity::from_raw_u32(n).unwrap()
}

#[test]
fn with_trade_sets_beneficiary_and_city() {
    let city = e(1);
    let beneficiary = e(2);
    let state = TreacheryState::with_trade(city, beneficiary);
    assert_eq!(state.city_to_replace, Some(city));
    assert_eq!(state.beneficiary, Some(beneficiary));
    assert_eq!(state.phase, TreacheryPhase::ApplyEffects);
}

#[test]
fn without_trade_has_no_beneficiary() {
    let city = e(1);
    let state = TreacheryState::without_trade(city);
    assert_eq!(state.city_to_replace, Some(city));
    assert_eq!(state.beneficiary, None);
}

#[test]
fn traded_treachery_hands_the_first_city_to_the_trader() {
    let mut selection = CalamitySelectionState::default();
    let mut state = TreacheryState::new();
    state.advance(e(1), &vec![e(10), e(11)], Some(e(5)), false, false, &mut selection);
    assert_eq!(state.city_to_replace, Some(e(10)));
    match state.advance(e(1), &vec![e(10), e(11)], Some(e(5)), false, false, &mut selection) {
        CityAction::Transfer { cities, to } => {
            assert_eq!(cities, vec![e(10)]);
            assert_eq!(to, e(5));
        }
        _ => panic!("expected the transfer"),
    }
}

#[test]
fn untraded_treachery_reduces_the_city_a_human_chose() {
    let mut selection = CalamitySelectionState::default();
    let mut state = TreacheryState::new();
    let cities = vec![e(10), e(11)];
    assert!(matches!(state.advance(e(1), &cities, None, true, false, &mut selection), CityAction::AwaitChoice));
    assert_eq!(selection.required_count, 1);
    selection.next();
    selection.toggle_current();
    state.advance(e(1), &cities, None, true, false, &mut selection);
    assert_eq!(state.city_to_replace, Some(e(11)));
    match state.advance(e(1), &cities, None, true, false, &mut selection) {
        CityAction::Reduce { cities } => assert_eq!(cities, vec![e(11)]),
        _ => panic!("expected the reduction"),
    }
}
