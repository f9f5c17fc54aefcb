use advciv::calamities::volcano_earthquake::VolcanoEarthquakeState;
use advciv::entity::Entity;
use advciv::resolution::board::BoardArea;
use advciv::resolution::volcano::{find_adjacent_city_to_reduce, find_best_volcano_eruption, volcano_earthquake_start};

fn e(n: u32) -> Entity {
    Entity::from_raw_u32(n).unwrap()
}

fn area(id: u32, city_owner: Option<Entity>, population: Vec<(Entity, usize)>, land: Vec<Entity>) -> BoardArea {
    BoardArea {
        area: e(id),
        city_owner,
        population,
        land_neighbours: land,
        sea_neighbours: vec![],
        open_sea: false,
        coastal: false,
    }
}

#[test]
fn volcano_carries_all_touched_areas() {
    let volcano_area = e(1);
    let adjacent = e(2);
    let state = VolcanoEarthquakeState::as_volcano(volcano_area, vec![volcano_area, adjacent]);
    assert!(state.is_volcano);
    assert_eq!(state.volcano_area, Some(volcano_area));
    assert_eq!(state.areas_to_clear, vec![volcano_area, adjacent]);
}

#[test]
fn earthquake_without_engineering_destroys_city() {
    let city = e(1);
    let state = VolcanoEarthquakeState::as_earthquake(city, None, false);
    assert!(!state.is_volcano);
    assert_eq!(state.city_to_destroy, Some(city));
    assert_eq!(state.city_to_reduce, None);
}

#[test]
fn engineering_downgrades_destroy_to_reduce() {
    let city = e(1);
    let secondary = e(2);
    let state = VolcanoEarthquakeState::as_earthquake(city, Some(secondary), true);
    assert_eq!(state.city_to_destroy, None);
    assert_eq!(state.city_to_reduce, Some(city));
    assert!(state.has_engineering);
}

#[test]
fn the_eruption_that_hurts_the_victim_most_is_chosen() {
    let victim = e(1);
    let board = vec![
        area(10, None, vec![(victim, 2)], vec![e(11)]),
        area(11, Some(victim), vec![(victim, 1)], vec![]),
        area(20, Some(victim), vec![(victim, 4)], vec![e(21)]),
        area(21, None, vec![(victim, 3)], vec![]),
        area(30, None, vec![(victim, 30)], vec![]),
    ];
    // Volcano 30 reaches no city of the victim, so it never erupts.
    let r = find_best_volcano_eruption(victim, &vec![e(10), e(20), e(30)], &board);
    assert_eq!(r, Some((e(20), vec![e(20), e(21)])));
    let none = find_best_volcano_eruption(victim, &vec![e(30)], &board);
    assert_eq!(none, None);
}

#[test]
fn an_engineering_holder_is_never_the_earthquakes_secondary_victim() {
    let victim = e(1);
    let board = vec![
        area(10, Some(victim), vec![], vec![e(11), e(12), e(13)]),
        area(11, Some(victim), vec![], vec![]),
        area(12, Some(e(2)), vec![], vec![]),
        area(13, Some(e(3)), vec![], vec![]),
    ];
    assert_eq!(find_adjacent_city_to_reduce(e(10), victim, &board, &vec![]), Some(e(12)));
    assert_eq!(find_adjacent_city_to_reduce(e(10), victim, &board, &vec![e(2)]), Some(e(13)));
    assert_eq!(find_adjacent_city_to_reduce(e(10), victim, &board, &vec![e(2), e(3)]), None);
}

#[test]
fn without_an_eruption_the_earthquake_takes_the_victims_first_city() {
    let victim = e(1);
    let board = vec![
        area(10, Some(victim), vec![], vec![e(12)]),
        area(12, Some(e(2)), vec![], vec![]),
    ];
    let s = volcano_earthquake_start(victim, &vec![], &board, &vec![e(10)], false, &vec![]);
    assert!(!s.is_volcano);
    assert_eq!(s.city_to_destroy, Some(e(10)));
    assert_eq!(s.city_to_reduce, Some(e(12)));
    let none = volcano_earthquake_start(victim, &vec![], &board, &vec![], false, &vec![]);
    assert_eq!(none.city_to_destroy, None);
    assert_eq!(none.city_to_reduce, None);
}
