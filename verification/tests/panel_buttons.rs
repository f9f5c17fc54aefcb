use advciv::calamities::civil_war::FactionChoice;
use advciv::entity::Entity;
use advciv::selection::calamity::{CalamitySelectionButtonAction, CalamitySelectionState};
use advciv::selection::civil_war::{CivilWarButtonAction, CivilWarSelectionState};
use advciv::selection::famine::{FamineButtonAction, FamineSelectionState};
use advciv::selection::flood::{FloodButtonAction, FloodSelectionState};
use advciv::selection::epidemic::{EpidemicButtonAction, EpidemicSelectionState};
use advciv::selection::unit_loss::{UnitLossButtonAction, UnitLossSelectionState};

fn e(n: u32) -> Entity {
    Entity::from_raw_u32(n).unwrap()
}

#[test]
fn famine_confirm_releases_the_waiting_human_only_once_the_budget_is_spent() {
    let mut state = FamineSelectionState::default();
    state.populate(e(1), vec![(e(2), 8), (e(3), 8)], 10);
    let waiting = vec![e(1)];
    assert_eq!(state.handle_button(FamineButtonAction::Confirm, &waiting), None);
    for _ in 0..8 {
        state.handle_button(FamineButtonAction::Increment, &waiting);
    }
    assert_eq!(state.handle_button(FamineButtonAction::NextVictim, &waiting), None);
    state.handle_button(FamineButtonAction::Increment, &waiting);
    state.handle_button(FamineButtonAction::Increment, &waiting);
    state.handle_button(FamineButtonAction::Decrement, &waiting);
    assert_eq!(state.handle_button(FamineButtonAction::Confirm, &waiting), None, "9 of 10");
    state.handle_button(FamineButtonAction::Increment, &waiting);
    assert_eq!(state.victims, vec![(e(2), 8, 8), (e(3), 8, 2)]);
    assert_eq!(state.handle_button(FamineButtonAction::Confirm, &waiting), Some(e(1)));
    assert_eq!(state.handle_button(FamineButtonAction::Confirm, &Vec::new()), None, "nobody waits");
    assert_eq!(state.handle_button(FamineButtonAction::Confirm, &vec![e(1), e(5)]), None, "not a single waiter");
    state.handle_button(FamineButtonAction::PrevVictim, &waiting);
    assert_eq!(state.current_victim_index, 0);
}

#[test]
fn flood_and_epidemic_panels_follow_their_buttons() {
    let mut flood = FloodSelectionState::default();
    flood.populate(e(1), vec![(e(2), 3)], 2);
    flood.handle_button(FloodButtonAction::Increment, &vec![e(1)]);
    flood.handle_button(FloodButtonAction::Increment, &vec![e(1)]);
    flood.handle_button(FloodButtonAction::Increment, &vec![e(1)]);
    assert_eq!(flood.victims, vec![(e(2), 3, 2)]);
    assert_eq!(flood.handle_button(FloodButtonAction::Confirm, &vec![e(1)]), Some(e(1)));

    let mut epidemic = EpidemicSelectionState::default();
    epidemic.populate(e(1), vec![(e(2), 5), (e(3), 10)], 12);
    epidemic.handle_button(EpidemicButtonAction::PrevVictim, &vec![e(1)]);
    assert_eq!(epidemic.current_victim_index, 1);
    epidemic.handle_button(EpidemicButtonAction::Decrement, &vec![e(1)]);
    assert_eq!(epidemic.victims[1].2, 0);
    assert_eq!(epidemic.handle_button(EpidemicButtonAction::Confirm, &vec![e(1)]), None);
}

#[test]
fn city_selection_confirms_once_enough_cities_are_chosen() {
    let mut state = CalamitySelectionState::default();
    state.populate(e(1), vec![e(10), e(11), e(12)], 2, "Superstition");
    let waiting = vec![e(1)];
    state.handle_button(CalamitySelectionButtonAction::ToggleCity, &waiting);
    assert_eq!(state.handle_button(CalamitySelectionButtonAction::Confirm, &waiting), None);
    state.handle_button(CalamitySelectionButtonAction::PrevCity, &waiting);
    state.handle_button(CalamitySelectionButtonAction::ToggleCity, &waiting);
    assert_eq!(state.selected_cities, vec![e(10), e(12)]);
    assert_eq!(state.handle_button(CalamitySelectionButtonAction::Confirm, &waiting), Some(e(1)));
    state.handle_button(CalamitySelectionButtonAction::NextCity, &waiting);
    assert_eq!(state.current_index, 0);
}

#[test]
fn unit_loss_confirm_releases_the_acting_player_among_several_waiting() {
    let mut state = UnitLossSelectionState::default();
    state.populate(e(1), "Famine", vec![(e(2), 5)], vec![e(3)], 2);
    let waiting = vec![e(9), e(1)];
    state.handle_button(UnitLossButtonAction::ToggleCity, &waiting);
    assert_eq!(state.handle_button(UnitLossButtonAction::Confirm, &waiting), None, "a city overshoots avoidably");
    state.handle_button(UnitLossButtonAction::ToggleCity, &waiting);
    state.handle_button(UnitLossButtonAction::Increment, &waiting);
    state.handle_button(UnitLossButtonAction::Increment, &waiting);
    assert_eq!(state.handle_button(UnitLossButtonAction::Confirm, &waiting), Some(e(1)));
    assert_eq!(state.handle_button(UnitLossButtonAction::Confirm, &vec![e(9)]), None, "the acting player is not waiting");
    state.handle_button(UnitLossButtonAction::Decrement, &waiting);
    assert_eq!(state.areas, vec![(e(2), 5, 1)]);
    state.handle_button(UnitLossButtonAction::NextArea, &waiting);
    state.handle_button(UnitLossButtonAction::PrevArea, &waiting);
    state.handle_button(UnitLossButtonAction::NextCity, &waiting);
    state.handle_button(UnitLossButtonAction::PrevCity, &waiting);
    assert_eq!(state.current_area_index, 0);
    assert_eq!(state.current_city_index, 0);
}

#[test]
fn civil_war_buttons_pick_units_and_keep_a_faction() {
    let mut state = CivilWarSelectionState::default();
    state.populate_victim(e(1), 4, vec![e(10)], 7);
    let waiting = vec![e(1)];
    state.handle_button(CivilWarButtonAction::CitiesTab, &waiting);
    assert!(state.showing_cities);
    state.handle_button(CivilWarButtonAction::ToggleCity, &waiting);
    state.handle_button(CivilWarButtonAction::TokensTab, &waiting);
    assert!(!state.showing_cities);
    state.handle_button(CivilWarButtonAction::IncrementTokens, &waiting);
    assert_eq!(state.handle_button(CivilWarButtonAction::Confirm, &waiting), None, "6 of 7 points");
    state.handle_button(CivilWarButtonAction::IncrementTokens, &waiting);
    assert_eq!(state.handle_button(CivilWarButtonAction::Confirm, &waiting), Some(e(1)));
    state.handle_button(CivilWarButtonAction::DecrementTokens, &waiting);
    assert_eq!(state.selected_token_count, 1);

    let mut choice = CivilWarSelectionState::default();
    choice.populate_faction_choice(e(1), 10, 12);
    assert_eq!(choice.handle_button(CivilWarButtonAction::KeepSecondFaction, &Vec::new()), None);
    assert_eq!(choice.chosen_faction, None, "nothing is recorded without a waiting human");
    assert_eq!(choice.handle_button(CivilWarButtonAction::KeepSecondFaction, &waiting), Some(e(1)));
    assert_eq!(choice.chosen_faction, Some(FactionChoice::Second));
}
