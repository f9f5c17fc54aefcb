use advciv::calamities::piracy::{PiracyPhase, PiracyState};
use advciv::entity::Entity;
use advciv::resolution::board::BoardArea;
use advciv::resolution::cities::CityAction;
use advciv::selection::calamity::CalamitySelectionState;

fn e(n: u32) -> Entity {
    Entity::from_raw_u32(n).unwrap()
}

fn city(id: u32, owner: Entity, coastal: bool) -> BoardArea {
    BoardArea {
        area: e(id),
        city_owner: Some(owner),
        population: vec![],
        land_neighbours: vec![],
        sea_neighbours: vec![],
        open_sea: false,
        coastal,
    }
}

#[test]
fn base_replaces_2_primary_coastal_cities() {
    assert_eq!(PiracyState::new().coastal_cities_to_replace, 2);
}

#[test]
fn immune_player_is_recorded() {
    let trader = e(7);
    let state = PiracyState::new().with_immune_player(trader);
    assert_eq!(state.immune_player, Some(trader));
}

#[test]
fn new_state_starts_at_ensure_pirate_nation_with_no_nation_resolved_yet() {
    let state = PiracyState::new();
    assert_eq!(state.phase, PiracyPhase::EnsurePirateNation);
    assert!(state.pirate_nation.is_none());
}

fn run_to_transfer(
    state: &mut PiracyState,
    victim: Entity,
    victim_cities: &Vec<Entity>,
    players: &Vec<(Entity, Vec<Entity>)>,
    board: &Vec<BoardArea>,
    traded_by: Option<Entity>,
) -> (Vec<Entity>, Entity) {
    let mut selection = CalamitySelectionState::default();
    assert!(matches!(
        state.advance(victim, victim_cities, players, board, traded_by, false, false, &mut selection),
        CityAction::NeedPirateNation
    ));
    state.record_pirate_nation(e(999));
    for _ in 0..5 {
        match state.advance(victim, victim_cities, players, board, traded_by, false, false, &mut selection) {
            CityAction::Transfer { cities, to } => return (cities, to),
            CityAction::Finish => break,
            _ => {}
        }
    }
    panic!("no transfer happened")
}

#[test]
fn primary_victim_loses_2_coastal_cities_to_real_pirate_cities() {
    let victim = e(1);
    let board = vec![city(10, victim, true), city(11, victim, true), city(12, victim, false)];
    let victim_cities = vec![e(12), e(10), e(11)];
    let players = vec![(victim, victim_cities.clone())];
    let mut state = PiracyState::new();
    let (cities, to) = run_to_transfer(&mut state, victim, &victim_cities, &players, &board, None);
    assert_eq!(to, e(999));
    // The inland city is untouched.
    assert_eq!(cities, vec![e(10), e(11)]);
}

#[test]
fn two_other_players_each_lose_one_coastal_city_but_the_trading_player_is_immune() {
    let victim = e(1);
    let trader = e(2);
    let first = e(3);
    let other = e(4);
    let board = vec![city(20, trader, true), city(30, first, true), city(40, other, true)];
    let players = vec![
        (victim, vec![]),
        (trader, vec![e(20)]),
        (first, vec![e(30)]),
        (other, vec![e(40)]),
    ];
    let mut state = PiracyState::new().with_immune_player(trader);
    let (cities, _) = run_to_transfer(&mut state, victim, &vec![], &players, &board, Some(trader));
    assert_eq!(cities, vec![e(30), e(40)]);
}
