use advciv::calamities::flood::{allocate_secondary_loss, FloodState};
use advciv::entity::Entity;

fn e(n: u32) -> Entity {
    Entity::from_raw_u32(n).unwrap()
}

#[test]
fn base_primary_loss_is_capped_at_17() {
    let state = FloodState::new();
    assert_eq!(state.primary_max_loss, 17);
    assert!(!state.has_engineering);
}

#[test]
fn engineering_caps_primary_loss_at_7() {
    let state = FloodState::new().with_engineering();
    assert_eq!(state.primary_max_loss, 7);
    assert!(state.has_engineering);
}

#[test]
fn flood_no_choice_falls_back_to_even_split_capped_by_availability() {
    let a = e(1);
    let b = e(2);
    let result = allocate_secondary_loss(&[(a, 20), (b, 20)], 10, None);
    assert_eq!(result, vec![(a, 5), (b, 5)]);
}

#[test]
fn flood_even_split_respects_per_player_availability() {
    let a = e(1);
    let b = e(2);
    let result = allocate_secondary_loss(&[(a, 2), (b, 20)], 10, None);
    assert_eq!(result, vec![(a, 2), (b, 5)]);
}

#[test]
fn flood_primary_choice_is_honored_and_clamped_by_availability() {
    let a = e(1);
    let b = e(2);
    let choice = [(a, 10), (b, 0)];
    let result = allocate_secondary_loss(&[(a, 6), (b, 20)], 10, Some(&choice));
    assert_eq!(result, vec![(a, 6), (b, 0)]);
}

#[test]
fn flood_primary_choice_cannot_exceed_the_total_budget() {
    let a = e(1);
    let b = e(2);
    let choice = [(a, 8), (b, 8)];
    let result = allocate_secondary_loss(&[(a, 20), (b, 20)], 10, Some(&choice));
    assert_eq!(result, vec![(a, 8), (b, 2)]);
}

#[test]
fn flood_combined_available_at_or_below_total_eliminates_everyone_regardless_of_choice() {
    let a = e(1);
    let b = e(2);
    let choice: [(Entity, usize); 0] = [];
    let result = allocate_secondary_loss(&[(a, 4), (b, 3)], 10, Some(&choice));
    assert_eq!(result, vec![(a, 4), (b, 3)]);
}

#[test]
fn flood_no_secondary_players_allocates_nothing() {
    let result = allocate_secondary_loss(&[], 10, None);
    assert_eq!(result, Vec::new());
}
