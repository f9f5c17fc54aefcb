use advciv::calamities::famine::{allocate_secondary_loss, FamineState};
use advciv::entity::Entity;

fn e(n: u32) -> Entity {
    Entity::from_raw_u32(n).unwrap()
}

#[test]
fn base_losses_match_rule_30_311() {
    let state = FamineState::new();
    assert_eq!(state.primary_loss, 10);
    assert_eq!(state.secondary_total, 20);
    assert_eq!(state.max_per_secondary, 8);
}

#[test]
fn pottery_reduces_primary_loss_by_4_per_grain_card() {
    let state = FamineState::new().with_grain_reduction(2, true);
    assert_eq!(state.grain_reduction, 8);
    assert_eq!(state.primary_loss, 2);
}

#[test]
fn pottery_reduction_does_not_go_negative() {
    let state = FamineState::new().with_grain_reduction(5, true);
    assert_eq!(state.primary_loss, 0);
}

#[test]
fn no_pottery_means_no_reduction_regardless_of_grain_held() {
    let state = FamineState::new().with_grain_reduction(3, false);
    assert_eq!(state.grain_reduction, 0);
    assert_eq!(state.primary_loss, 10);
}

#[test]
fn only_as_many_cards_as_needed_are_marked_used() {
    let state = FamineState::new().with_grain_reduction(10, true);
    assert_eq!(state.grain_cards_used, 3, "10 held, only 3 needed to zero a loss of 10");
    assert_eq!(state.primary_loss, 0);
}

#[test]
fn grain_cards_used_is_capped_by_cards_held() {
    let state = FamineState::new().with_grain_reduction(2, true);
    assert_eq!(state.grain_cards_used, 2);
}

#[test]
fn no_pottery_uses_no_grain_cards() {
    let state = FamineState::new().with_grain_reduction(5, false);
    assert_eq!(state.grain_cards_used, 0);
}

#[test]
fn famine_no_choice_falls_back_to_even_split_capped_by_availability() {
    let a = e(1);
    let b = e(2);
    let result = allocate_secondary_loss(&[(a, 20), (b, 20)], 20, None);
    assert_eq!(result, vec![(a, 10), (b, 10)]);
}

#[test]
fn famine_even_split_respects_per_player_availability() {
    let a = e(1);
    let b = e(2);
    let result = allocate_secondary_loss(&[(a, 2), (b, 20)], 20, None);
    assert_eq!(result, vec![(a, 2), (b, 10)]);
}

#[test]
fn famine_primary_choice_is_honored_and_clamped_by_availability() {
    let a = e(1);
    let b = e(2);
    let choice = [(a, 20), (b, 0)];
    let result = allocate_secondary_loss(&[(a, 8), (b, 20)], 20, Some(&choice));
    assert_eq!(result, vec![(a, 8), (b, 0)]);
}

#[test]
fn famine_primary_choice_cannot_exceed_the_total_budget() {
    let a = e(1);
    let b = e(2);
    let choice = [(a, 12), (b, 12)];
    let result = allocate_secondary_loss(&[(a, 20), (b, 20)], 20, Some(&choice));
    assert_eq!(result, vec![(a, 12), (b, 8)]);
}

#[test]
fn famine_combined_available_at_or_below_total_eliminates_everyone_regardless_of_choice() {
    let a = e(1);
    let b = e(2);
    let choice: [(Entity, usize); 0] = [];
    let result = allocate_secondary_loss(&[(a, 8), (b, 6)], 20, Some(&choice));
    assert_eq!(result, vec![(a, 8), (b, 6)]);
}

#[test]
fn famine_no_secondary_players_allocates_nothing() {
    let result = allocate_secondary_loss(&[], 20, None);
    assert_eq!(result, Vec::new());
}
