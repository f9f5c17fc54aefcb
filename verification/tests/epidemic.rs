use advciv::calamities::epidemic::{allocate_removal_leaving_one_per_area, allocate_secondary_loss, EpidemicState};
use advciv::entity::Entity;

fn e(n: u32) -> Entity {
    Entity::from_raw_u32(n).unwrap()
}

#[test]
fn base_losses_match_rule_30_611() {
    let state = EpidemicState::new();
    assert_eq!(state.primary_loss, 16);
    assert_eq!(state.secondary_loss, 25);
}

#[test]
fn medicine_reduces_primary_loss_by_8() {
    let state = EpidemicState::new().with_medicine();
    assert_eq!(state.primary_loss, 8);
}

#[test]
fn road_building_adds_5_to_primary_loss() {
    let state = EpidemicState::new().with_road_building();
    assert_eq!(state.primary_loss, 21);
}

#[test]
fn medicine_and_road_building_are_cumulative() {
    let state = EpidemicState::new().with_medicine().with_road_building();
    assert_eq!(state.primary_loss, 13);
}

#[test]
fn medicine_does_not_go_negative() {
    let mut state = EpidemicState::new();
    state.primary_loss = 5;
    state = state.with_medicine();
    assert_eq!(state.primary_loss, 0);
}

#[test]
fn leaves_one_token_in_each_area_even_with_surplus_points_to_remove() {
    let taken = allocate_removal_leaving_one_per_area(&[3, 1, 5], 100);
    assert_eq!(taken, vec![2, 0, 4]);
}

#[test]
fn does_not_take_more_than_the_points_budget() {
    let taken = allocate_removal_leaving_one_per_area(&[10, 10], 3);
    assert_eq!(taken, vec![3, 0]);
    assert_eq!(taken.iter().sum::<usize>(), 3);
}

#[test]
fn empty_and_single_token_areas_contribute_nothing() {
    let taken = allocate_removal_leaving_one_per_area(&[0, 1], 50);
    assert_eq!(taken, vec![0, 0]);
}

#[test]
fn zero_points_takes_nothing() {
    let taken = allocate_removal_leaving_one_per_area(&[5, 5], 0);
    assert_eq!(taken, vec![0, 0]);
}

#[test]
fn epidemic_no_choice_falls_back_to_even_split_capped_by_availability() {
    let a = e(1);
    let b = e(2);
    let result = allocate_secondary_loss(&[(a, 10), (b, 10)], 25, None);
    assert_eq!(result, vec![(a, 10), (b, 10)]);
}

#[test]
fn even_split_respects_per_player_cap() {
    let a = e(1);
    let b = e(2);
    let result = allocate_secondary_loss(&[(a, 5), (b, 10)], 25, None);
    assert_eq!(result, vec![(a, 5), (b, 10)]);
}

#[test]
fn primary_choice_is_honored_and_clamped_by_cap() {
    let a = e(1);
    let b = e(2);
    let c = e(3);
    let choice = [(a, 15), (b, 0), (c, 0)];
    let result = allocate_secondary_loss(&[(a, 10), (b, 10), (c, 10)], 25, Some(&choice));
    assert_eq!(result, vec![(a, 10), (b, 0), (c, 0)]);
}

#[test]
fn epidemic_primary_choice_cannot_exceed_the_total_budget() {
    let a = e(1);
    let b = e(2);
    let c = e(3);
    let choice = [(a, 10), (b, 10), (c, 10)];
    let result = allocate_secondary_loss(&[(a, 10), (b, 10), (c, 10)], 25, Some(&choice));
    assert_eq!(result, vec![(a, 10), (b, 10), (c, 5)]);
}

#[test]
fn medicine_reduced_cap_is_honored_in_choice() {
    let a = e(1);
    let b = e(2);
    let c = e(3);
    let choice = [(a, 8), (b, 0), (c, 0)];
    let result = allocate_secondary_loss(&[(a, 5), (b, 10), (c, 15)], 25, Some(&choice));
    assert_eq!(result, vec![(a, 5), (b, 0), (c, 0)]);
}

#[test]
fn epidemic_combined_available_at_or_below_total_eliminates_everyone_regardless_of_choice() {
    let a = e(1);
    let b = e(2);
    let choice: [(Entity, usize); 0] = [];
    let result = allocate_secondary_loss(&[(a, 5), (b, 10)], 25, Some(&choice));
    assert_eq!(result, vec![(a, 5), (b, 10)]);
}

#[test]
fn epidemic_no_secondary_players_allocates_nothing() {
    let result = allocate_secondary_loss(&[], 25, None);
    assert_eq!(result, Vec::new());
}
