use advciv::entity::Entity;
use advciv::selection::epidemic::EpidemicSelectionState;
use advciv::selection::famine::FamineSelectionState;
use advciv::selection::flood::FloodSelectionState;
use advciv::selection::unit_loss::UnitLossSelectionState;

fn e(n: u32) -> Entity {
    Entity::from_raw_u32(n).unwrap()
}

#[test]
fn resolve_calamities_ui_components_populate_sets_up_zeroed_allocations() {
    let mut state = FamineSelectionState::default();
    state.populate(e(1), vec![(e(2), 8), (e(3), 5)], 20);
    assert_eq!(state.acting_player, Some(e(1)));
    assert_eq!(state.total_budget, 20);
    assert_eq!(state.victims, vec![(e(2), 8, 0), (e(3), 5, 0)]);
    assert_eq!(state.remaining_budget(), 20);
}

#[test]
fn resolve_calamities_ui_components_increment_is_capped_by_remaining_budget() {
    let mut state = FamineSelectionState::default();
    state.populate(e(1), vec![(e(2), 8)], 3);
    assert!(state.increment_current());
    assert!(state.increment_current());
    assert!(state.increment_current());
    assert_eq!(state.victims[0].2, 3);
    assert!(!state.increment_current());
    assert_eq!(state.victims[0].2, 3);
}

#[test]
fn resolve_calamities_ui_components_decrement_cannot_go_below_zero() {
    let mut state = FamineSelectionState::default();
    state.populate(e(1), vec![(e(2), 5)], 5);
    assert!(!state.decrement_current());
    assert_eq!(state.victims[0].2, 0);
}

#[test]
fn resolve_calamities_ui_components_navigation_wraps_around() {
    let mut state = FamineSelectionState::default();
    state.populate(e(1), vec![(e(2), 5), (e(3), 5), (e(4), 5)], 10);
    assert_eq!(state.current_victim().unwrap().0, e(2));
    state.next_victim();
    assert_eq!(state.current_victim().unwrap().0, e(3));
    state.prev_victim();
    state.prev_victim();
    assert_eq!(state.current_victim().unwrap().0, e(4));
}

#[test]
fn epidemic_populate_sets_up_zeroed_allocations() {
    let mut state = EpidemicSelectionState::default();
    state.populate(e(1), vec![(e(2), 10), (e(3), 5)], 25);
    assert_eq!(state.acting_player, Some(e(1)));
    assert_eq!(state.total_budget, 25);
    assert_eq!(state.victims, vec![(e(2), 10, 0), (e(3), 5, 0)]);
    assert_eq!(state.remaining_budget(), 25);
}

#[test]
fn epidemic_increment_is_capped_by_remaining_budget() {
    let mut state = EpidemicSelectionState::default();
    state.populate(e(1), vec![(e(2), 20)], 3);
    assert!(state.increment_current());
    assert!(state.increment_current());
    assert!(state.increment_current());
    assert_eq!(state.victims[0].2, 3);
    assert!(!state.increment_current());
    assert_eq!(state.victims[0].2, 3);
}

#[test]
fn epidemic_decrement_cannot_go_below_zero() {
    let mut state = EpidemicSelectionState::default();
    state.populate(e(1), vec![(e(2), 10)], 25);
    assert!(!state.decrement_current());
    assert_eq!(state.victims[0].2, 0);
}

#[test]
fn epidemic_navigation_wraps_around() {
    let mut state = EpidemicSelectionState::default();
    state.populate(e(1), vec![(e(2), 10), (e(3), 10), (e(4), 10)], 25);
    assert_eq!(state.current_victim().unwrap().0, e(2));
    state.next_victim();
    assert_eq!(state.current_victim().unwrap().0, e(3));
    state.prev_victim();
    state.prev_victim();
    assert_eq!(state.current_victim().unwrap().0, e(4));
}

#[test]
fn flood_populate_sets_up_zeroed_allocations() {
    let mut state = FloodSelectionState::default();
    state.populate(e(1), vec![(e(2), 20), (e(3), 5)], 10);
    assert_eq!(state.acting_player, Some(e(1)));
    assert_eq!(state.total_budget, 10);
    assert_eq!(state.victims, vec![(e(2), 20, 0), (e(3), 5, 0)]);
    assert_eq!(state.remaining_budget(), 10);
}

#[test]
fn flood_increment_is_capped_by_remaining_budget() {
    let mut state = FloodSelectionState::default();
    state.populate(e(1), vec![(e(2), 20)], 3);
    assert!(state.increment_current());
    assert!(state.increment_current());
    assert!(state.increment_current());
    assert_eq!(state.victims[0].2, 3);
    assert!(!state.increment_current());
    assert_eq!(state.victims[0].2, 3);
}

#[test]
fn flood_decrement_cannot_go_below_zero() {
    let mut state = FloodSelectionState::default();
    state.populate(e(1), vec![(e(2), 5)], 5);
    assert!(!state.decrement_current());
    assert_eq!(state.victims[0].2, 0);
}

#[test]
fn flood_navigation_wraps_around() {
    let mut state = FloodSelectionState::default();
    state.populate(e(1), vec![(e(2), 5), (e(3), 5), (e(4), 5)], 10);
    assert_eq!(state.current_victim().unwrap().0, e(2));
    state.next_victim();
    assert_eq!(state.current_victim().unwrap().0, e(3));
    state.prev_victim();
    state.prev_victim();
    assert_eq!(state.current_victim().unwrap().0, e(4));
}

#[test]
fn resolve_calamities_ui_components_increment_is_capped_by_victim_availability() {
    let mut state = FamineSelectionState::default();
    state.populate(e(1), vec![(e(2), 2)], 20);
    assert!(state.increment_current());
    assert!(state.increment_current());
    assert!(!state.increment_current());
    assert_eq!(state.victims[0].2, 2);
    assert_eq!(state.remaining_budget(), 18);
}

#[test]
fn resolve_calamities_ui_components_selection_invalid_until_full_budget_allocated() {
    let mut state = FamineSelectionState::default();
    state.populate(e(1), vec![(e(2), 8), (e(3), 8), (e(4), 8)], 20);
    assert!(!state.selection_valid());
    for _ in 0..8 {
        state.increment_current();
    }
    state.next_victim();
    for _ in 0..8 {
        state.increment_current();
    }
    state.next_victim();
    for _ in 0..4 {
        state.increment_current();
    }
    assert!(state.selection_valid());
}

#[test]
fn resolve_calamities_ui_components_take_result_reports_allocation_and_clears_state() {
    let mut state = FamineSelectionState::default();
    state.populate(e(1), vec![(e(2), 8), (e(3), 8), (e(4), 8)], 20);
    for _ in 0..8 {
        state.increment_current();
    }
    state.next_victim();
    for _ in 0..8 {
        state.increment_current();
    }
    state.next_victim();
    for _ in 0..4 {
        state.increment_current();
    }
    let result = state.take_result();
    assert_eq!(result, vec![(e(2), 8), (e(3), 8), (e(4), 4)]);
    assert_eq!(state.acting_player, None);
    assert!(state.victims.is_empty());
}

#[test]
fn increment_is_capped_by_victim_medicine_reduced_cap() {
    let mut state = EpidemicSelectionState::default();
    state.populate(e(1), vec![(e(2), 5)], 25);
    for _ in 0..5 {
        assert!(state.increment_current());
    }
    assert!(!state.increment_current());
    assert_eq!(state.victims[0].2, 5);
    assert_eq!(state.remaining_budget(), 20);
}

#[test]
fn epidemic_selection_invalid_until_full_budget_allocated() {
    let mut state = EpidemicSelectionState::default();
    state.populate(e(1), vec![(e(2), 10), (e(3), 10), (e(4), 10)], 25);
    assert!(!state.selection_valid());
    for _ in 0..10 {
        state.increment_current();
    }
    state.next_victim();
    for _ in 0..10 {
        state.increment_current();
    }
    state.next_victim();
    for _ in 0..5 {
        state.increment_current();
    }
    assert!(state.selection_valid());
}

#[test]
fn epidemic_take_result_reports_allocation_and_clears_state() {
    let mut state = EpidemicSelectionState::default();
    state.populate(e(1), vec![(e(2), 10), (e(3), 10), (e(4), 10)], 25);
    for _ in 0..10 {
        state.increment_current();
    }
    state.next_victim();
    for _ in 0..10 {
        state.increment_current();
    }
    state.next_victim();
    for _ in 0..5 {
        state.increment_current();
    }
    let result = state.take_result();
    assert_eq!(result, vec![(e(2), 10), (e(3), 10), (e(4), 5)]);
    assert_eq!(state.acting_player, None);
}

#[test]
fn flood_increment_is_capped_by_victim_availability() {
    let mut state = FloodSelectionState::default();
    state.populate(e(1), vec![(e(2), 2)], 10);
    assert!(state.increment_current());
    assert!(state.increment_current());
    assert!(!state.increment_current());
    assert_eq!(state.victims[0].2, 2);
    assert_eq!(state.remaining_budget(), 8);
}

#[test]
fn flood_selection_invalid_until_full_budget_allocated() {
    let mut state = FloodSelectionState::default();
    state.populate(e(1), vec![(e(2), 20), (e(3), 20)], 10);
    assert!(!state.selection_valid());
    for _ in 0..10 {
        state.increment_current();
    }
    assert!(state.selection_valid());
}

#[test]
fn flood_take_result_reports_allocation_and_clears_state() {
    let mut state = FloodSelectionState::default();
    state.populate(e(1), vec![(e(2), 20), (e(3), 20)], 10);
    for _ in 0..4 {
        state.increment_current();
    }
    state.next_victim();
    for _ in 0..6 {
        state.increment_current();
    }
    let result = state.take_result();
    assert_eq!(result, vec![(e(2), 4), (e(3), 6)]);
    assert_eq!(state.acting_player, None);
    assert!(state.victims.is_empty());
}

#[test]
fn allocation_is_capped_by_area_availability() {
    let mut state = UnitLossSelectionState::default();
    state.populate(e(1), "Famine", vec![(e(2), 2), (e(3), 9)], Vec::new(), 10);
    assert!(state.increment_current());
    assert!(state.increment_current());
    assert!(!state.increment_current());
    assert_eq!(state.areas[0].2, 2);
}

#[test]
fn allocation_is_capped_by_the_budget() {
    let mut state = UnitLossSelectionState::default();
    state.populate(e(1), "Famine", vec![(e(2), 50)], Vec::new(), 3);
    assert!(state.increment_current());
    assert!(state.increment_current());
    assert!(state.increment_current());
    assert!(!state.increment_current(), "budget of 3 is spent");
    assert_eq!(state.allocated_total(), 3);
    assert!(state.selection_valid());
}

#[test]
fn required_total_is_capped_by_what_the_player_owns() {
    let mut state = UnitLossSelectionState::default();
    state.populate(e(1), "Epidemic", vec![(e(2), 1), (e(3), 2)], Vec::new(), 16);
    assert_eq!(state.required_total(), 3);
    assert!(state.increment_current(), "1 token in the first area");
    assert!(!state.increment_current(), "first area is exhausted");
    state.next_area();
    assert!(state.increment_current());
    assert!(state.increment_current());
    assert_eq!(state.allocated_total(), 3);
    assert!(state.selection_valid(), "losing everything is enough");
}

#[test]
fn confirming_requires_the_full_amount() {
    let mut state = UnitLossSelectionState::default();
    state.populate(e(1), "Famine", vec![(e(2), 5), (e(3), 5)], Vec::new(), 4);
    assert!(!state.selection_valid());
    state.increment_current();
    assert!(!state.selection_valid(), "1 of 4 assigned");
    state.increment_current();
    state.increment_current();
    state.increment_current();
    assert!(state.selection_valid());
}

#[test]
fn a_city_covers_five_unit_points() {
    let mut state = UnitLossSelectionState::default();
    state.populate(e(1), "Famine", vec![(e(2), 2)], vec![e(3)], 7);
    assert_eq!(state.total_available(), 7, "2 tokens + a 5-point city");
    assert_eq!(state.required_total(), 7);
    state.increment_current();
    state.increment_current();
    assert!(!state.selection_valid(), "2 of 7 points assigned");
    state.toggle_current_city();
    assert_eq!(state.allocated_total(), 7);
    assert!(state.selection_valid());
    assert_eq!(state.take_allocation(), (vec![(e(2), 2)], vec![e(3)]));
}

#[test]
fn an_overshoot_is_valid_only_when_it_cannot_be_trimmed() {
    let mut state = UnitLossSelectionState::default();
    state.populate(e(1), "Famine", vec![], vec![e(2), e(3)], 3);
    assert!(!state.selection_valid(), "nothing assigned yet");
    state.toggle_current_city();
    assert_eq!(state.allocated_total(), 5);
    assert!(state.selection_valid(), "5 for a 3-point loss: no smaller option exists");
    state.next_city();
    state.toggle_current_city();
    assert_eq!(state.allocated_total(), 10);
    assert!(!state.selection_valid(), "the second city is redundant");
}

#[test]
fn a_city_may_not_be_given_when_tokens_cover_the_loss_exactly() {
    let mut state = UnitLossSelectionState::default();
    state.populate(e(1), "Famine", vec![(e(2), 9)], vec![e(3)], 3);
    state.toggle_current_city();
    assert!(!state.selection_valid(), "5 points for a 3-point loss with tokens available");
    state.toggle_current_city();
    for _ in 0..3 {
        state.increment_current();
    }
    assert!(state.selection_valid());
    assert_eq!(state.take_allocation(), (vec![(e(2), 3)], Vec::new()));
}

#[test]
fn take_allocation_returns_only_areas_with_losses_and_clears() {
    let mut state = UnitLossSelectionState::default();
    state.populate(e(1), "Famine", vec![(e(2), 5), (e(3), 5)], Vec::new(), 2);
    state.next_area();
    state.increment_current();
    state.increment_current();
    assert_eq!(state.take_allocation(), (vec![(e(3), 2)], Vec::new()));
    assert_eq!(state.acting_player, None);
    assert!(state.areas.is_empty());
}

#[test]
fn decrement_frees_budget_for_another_area() {
    let mut state = UnitLossSelectionState::default();
    state.populate(e(1), "Famine", vec![(e(2), 5), (e(3), 5)], Vec::new(), 1);
    assert!(state.increment_current());
    state.next_area();
    assert!(!state.increment_current(), "budget exhausted");
    state.prev_area();
    assert!(state.decrement_current());
    state.next_area();
    assert!(state.increment_current());
    assert_eq!(state.take_allocation(), (vec![(e(3), 1)], Vec::new()));
}
