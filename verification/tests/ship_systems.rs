use advciv::entity::Entity;
use advciv::resolution::board::BoardArea;
use advciv::ship_phase::{maintenance_plan, ship_build_decision, ShipBuild};
use advciv::ships::{construction_payment, maintenance_source, MaintenanceSource, PlayerShips, ShipStock, ship_build_order};

fn e(n: u32) -> Entity {
    Entity::from_raw_u32(n).unwrap()
}

#[test]
fn build_order_preserves_census_order_when_nobody_has_military() {
    let (p1, p2, p3) = (e(1), e(2), e(3));
    let order = ship_build_order(&vec![p1, p2, p3], &vec![]);
    assert_eq!(order, vec![p1, p2, p3]);
}

#[test]
fn build_order_moves_military_holders_to_the_back() {
    let (p1, p2, p3) = (e(1), e(2), e(3));
    let order = ship_build_order(&vec![p1, p2, p3], &vec![p1, p3]);
    assert_eq!(order, vec![p2, p1, p3]);
}

#[test]
fn build_order_all_military_holders_keeps_census_order_among_them() {
    let (p1, p2) = (e(1), e(2));
    let order = ship_build_order(&vec![p1, p2], &vec![p1, p2]);
    assert_eq!(order, vec![p1, p2]);
}

#[test]
fn maintenance_paid_from_treasury_keeps_the_ship_and_spends_one_token() {
    assert_eq!(maintenance_source(1, 0), MaintenanceSource::Treasury);
    assert_eq!(maintenance_plan(1, &vec![3]), vec![MaintenanceSource::Treasury]);
}

#[test]
fn unpaid_ship_returns_to_stock() {
    let ship = e(7);
    let area = e(8);
    let mut ship_stock = ShipStock::default();
    let mut player_ships = PlayerShips::default();
    player_ships.place_ship(area, ship);
    assert_eq!(ship_stock.count_in_stock(), 0);
    assert_eq!(player_ships.total_ships_on_board(), 1);

    let paid = maintenance_source(0, 0) != MaintenanceSource::Unpaid;
    assert!(!paid);
    if let Some(unpaid_ship) = player_ships.remove_ship_from_area(area) {
        ship_stock.return_ship(unpaid_ship);
    }
    assert_eq!(ship_stock.count_in_stock(), 1);
    assert_eq!(player_ships.total_ships_on_board(), 0);
}

#[test]
fn construction_prefers_treasury_over_levy() {
    let (from_treasury, from_levy) = construction_payment(5);
    assert_eq!(from_treasury, 2);
    assert_eq!(from_levy, 0);
}

#[test]
fn construction_falls_back_fully_to_levy_when_treasury_is_empty() {
    let (from_treasury, from_levy) = construction_payment(0);
    assert_eq!(from_treasury, 0);
    assert_eq!(from_levy, 2);
}

#[test]
fn construction_splits_cost_between_treasury_and_levy() {
    let (from_treasury, from_levy) = construction_payment(1);
    assert_eq!(from_treasury, 1);
    assert_eq!(from_levy, 1);
}

#[test]
fn a_player_may_not_have_more_than_four_ships_on_board() {
    assert_eq!(ShipStock::MAX_SHIPS, 4);
}

#[test]
fn upkeep_uses_the_treasury_until_it_runs_dry() {
    let plan = maintenance_plan(1, &vec![0, 2, 0]);
    assert_eq!(plan, vec![MaintenanceSource::Treasury, MaintenanceSource::Levy, MaintenanceSource::Unpaid]);
}

fn land(id: u32, tokens: Vec<(Entity, usize)>, coastal: bool) -> BoardArea {
    BoardArea {
        area: e(id),
        city_owner: None,
        population: tokens,
        land_neighbours: vec![],
        sea_neighbours: vec![],
        open_sea: false,
        coastal,
    }
}

#[test]
fn an_ai_builds_in_its_first_coastal_area_without_emptying_it() {
    let p = e(1);
    let board = vec![land(10, vec![(p, 5)], false), land(11, vec![(p, 2)], true)];
    // Only one spare token on the coast and nothing in treasury: no ship.
    assert!(matches!(ship_build_decision(p, false, 0, 4, 0, &vec![e(10), e(11)], &board), ShipBuild::Skip));
    // One treasury token and one spare token pay for it.
    match ship_build_decision(p, false, 0, 4, 1, &vec![e(10), e(11)], &board) {
        ShipBuild::Build { area, from_treasury, from_levy } => {
            assert_eq!(area, e(11));
            assert_eq!(from_treasury, 1);
            assert_eq!(from_levy, 1);
        }
        _ => panic!("expected a ship"),
    }
}

#[test]
fn a_human_is_offered_coastal_areas_and_as_many_ships_as_paid_for() {
    let p = e(1);
    let board = vec![land(10, vec![(p, 5)], true), land(11, vec![(p, 3)], true), land(12, vec![(p, 9)], false)];
    match ship_build_decision(p, true, 1, 4, 1, &vec![e(10), e(11), e(12)], &board) {
        ShipBuild::AskHuman { areas, max_buildable } => {
            assert_eq!(areas, vec![e(10), e(11)]);
            // (1 + 8) / 2 = 4 affordable, but only 3 more fit the fleet cap.
            assert_eq!(max_buildable, 3);
        }
        _ => panic!("expected the human to be asked"),
    }
    assert!(matches!(ship_build_decision(p, true, 4, 4, 9, &vec![e(10)], &board), ShipBuild::Skip));
}
