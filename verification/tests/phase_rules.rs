use advciv::calamities::famine::FamineState;
use advciv::modifiers::{can_be_secondary_victim, compute_famine_grain_reduction};
use advciv::selection::civil_war::CivilWarSelectionState;
use advciv::calamities::ResolvingCalamity;
use advciv::cards::{CivCardName, PlayerCivilizationCards, TradeCard};
use advciv::commodity_shed::{commodity_holdings, shed_step, CommodityShedSelectionState, ShedAction};
use advciv::components::PendingCalamities;
use advciv::entity::Entity;
use advciv::resolution::dispatch::initial_resolution;
use advciv::resolution::losses::{remove_unit_points, spend_epidemic_budget_on_cities};
use advciv::resolution::monotheism::{monotheism_candidates, monotheism_step, MonotheismAction};
use advciv::resolution::players::holders_of;
use advciv::resolution::secondary::{epidemic_secondary_victims, famine_secondary_victims};
use advciv::resolution::unit_loss::PlayerUnits;
use advciv::selection::monotheism::MonotheismSelectionState;
use advciv::ship_phase::apply_ship_builds;
use advciv::ships::{PlayerShips, ShipStock};

fn e(n: u32) -> Entity {
    Entity::from_raw_u32(n).unwrap()
}

fn units(player: Entity, areas: Vec<(Entity, usize)>) -> PlayerUnits {
    PlayerUnits { player, areas, cities: Vec::new(), is_human: false, awaiting: false }
}

#[test]
fn epidemic_cities_absorb_four_points_each() {
    assert_eq!(spend_epidemic_budget_on_cities(2, 6), (2, 0));
    assert_eq!(spend_epidemic_budget_on_cities(1, 6), (1, 2));
    assert_eq!(spend_epidemic_budget_on_cities(3, 16), (3, 4));
    assert_eq!(spend_epidemic_budget_on_cities(5, 8), (2, 0));
    assert_eq!(spend_epidemic_budget_on_cities(0, 6), (0, 6));
    assert_eq!(spend_epidemic_budget_on_cities(2, 0), (0, 0));
}

#[test]
fn unit_points_come_off_areas_in_order() {
    assert_eq!(remove_unit_points(&vec![3, 5, 2], 6), vec![3, 3, 0]);
    assert_eq!(remove_unit_points(&vec![3, 5, 2], 20), vec![3, 5, 2]);
    assert_eq!(remove_unit_points(&vec![3, 5], -1), vec![0, 0]);
    assert_eq!(remove_unit_points(&Vec::new(), 4), Vec::<usize>::new());
}

#[test]
fn monotheism_converts_at_most_two_units_of_players_without_theology() {
    let holder = e(1);
    let theology = e(2);
    let other = e(3);
    let units = vec![
        (e(20), e(10), holder),
        (e(21), e(10), theology),
        (e(22), e(11), other),
        (e(23), e(11), other),
        (e(24), e(12), other),
    ];
    assert_eq!(monotheism_candidates(&units, holder, &vec![theology]), vec![(e(22), e(11)), (e(23), e(11))]);
    assert!(monotheism_candidates(&units[..2].to_vec(), holder, &vec![theology]).is_empty());
}

#[test]
fn monotheism_step_asks_a_human_and_converts_their_choice() {
    let holder = e(1);
    let candidates = vec![(e(22), e(11)), (e(23), e(11))];
    let mut selection = MonotheismSelectionState::default();
    match monotheism_step(holder, candidates.clone(), false, false, &mut selection) {
        MonotheismAction::Convert { tokens } => assert_eq!(tokens, vec![e(22), e(23)]),
        other => panic!("unexpected {other:?}"),
    }
    assert!(matches!(monotheism_step(holder, candidates.clone(), true, false, &mut selection), MonotheismAction::AwaitChoice));
    assert_eq!(selection.player, Some(holder));
    assert!(matches!(monotheism_step(holder, candidates.clone(), true, true, &mut selection), MonotheismAction::Nothing));
    selection.next();
    selection.toggle_current();
    match monotheism_step(holder, candidates, true, false, &mut selection) {
        MonotheismAction::Convert { tokens } => assert_eq!(tokens, vec![e(23)]),
        other => panic!("unexpected {other:?}"),
    }
    assert_eq!(selection.player, None);
}

#[test]
fn shedding_lists_only_commodities_and_waits_for_a_human() {
    let player = e(1);
    let hand = vec![(TradeCard::Grain, 3), (TradeCard::Famine, 1), (TradeCard::Gold, 2)];
    assert_eq!(commodity_holdings(&hand), vec![(TradeCard::Grain, 3), (TradeCard::Gold, 2)]);
    let mut selection = CommodityShedSelectionState::default();
    assert!(matches!(shed_step(player, 2, &hand, false, false, &mut selection), ShedAction::DiscardCheapest { count: 2 }));
    assert!(matches!(shed_step(player, 2, &hand, true, false, &mut selection), ShedAction::AwaitChoice));
    assert_eq!(selection.player, Some(player));
    assert_eq!(selection.must_discard, 2);
    assert!(matches!(shed_step(player, 2, &hand, true, true, &mut selection), ShedAction::Nothing));
    selection.increment(TradeCard::Gold);
    selection.increment(TradeCard::Gold);
    match shed_step(player, 2, &hand, true, false, &mut selection) {
        ShedAction::Discard { cards } => assert_eq!(cards, vec![(TradeCard::Gold, 2)]),
        other => panic!("unexpected {other:?}"),
    }
    assert_eq!(selection.player, None);
}

#[test]
fn each_calamity_starts_from_its_holders_cards() {
    let none = PlayerCivilizationCards::new(Vec::new());
    assert!(initial_resolution(TradeCard::VolcanoEarthquake, &none, None, 0).is_none());
    assert!(initial_resolution(TradeCard::Gold, &none, None, 0).is_none());
    let pottery = PlayerCivilizationCards::new(vec![CivCardName::Pottery]);
    match initial_resolution(TradeCard::Famine, &pottery, None, 2) {
        Some(ResolvingCalamity::Famine(s)) => {
            assert_eq!(s.grain_cards_used, 2);
            assert_eq!(s.grain_reduction, 8);
            assert_eq!(s.primary_loss, 2);
        },
        other => panic!("unexpected {other:?}"),
    }
    let medicine = PlayerCivilizationCards::new(vec![CivCardName::Medicine]);
    match initial_resolution(TradeCard::Epidemic, &medicine, Some(e(7)), 0) {
        Some(ResolvingCalamity::Epidemic(s)) => {
            assert_eq!(s.primary_loss, 8);
            assert_eq!(s.immune_player, Some(e(7)));
        },
        other => panic!("unexpected {other:?}"),
    }
}

#[test]
fn resolving_a_calamity_drops_it_from_the_pending_list() {
    let mut pending = PendingCalamities::new(vec![
        (TradeCard::Famine, None),
        (TradeCard::Treachery, Some(e(3))),
    ]);
    pending.remove_calamity(TradeCard::Famine);
    assert_eq!(pending.calamities, vec![(TradeCard::Treachery, Some(e(3)))]);
    pending.remove_calamity(TradeCard::Flood);
    assert_eq!(pending.calamities.len(), 1);
}

#[test]
fn holders_are_listed_in_player_order() {
    let players = vec![
        (e(1), PlayerCivilizationCards::new(vec![CivCardName::Medicine])),
        (e(2), PlayerCivilizationCards::new(Vec::new())),
        (e(3), PlayerCivilizationCards::new(vec![CivCardName::Engineering, CivCardName::Medicine])),
    ];
    assert_eq!(holders_of(&players, CivCardName::Medicine), vec![e(1), e(3)]);
    assert!(holders_of(&players, CivCardName::Monotheism).is_empty());
}

#[test]
fn secondary_victims_share_an_area_with_the_primary_victim() {
    let victim = e(1);
    let players = vec![
        units(victim, vec![(e(10), 2)]),
        units(e(2), vec![(e(10), 12)]),
        units(e(3), vec![(e(11), 5)]),
        units(e(4), vec![(e(10), 3), (e(11), 4)]),
    ];
    assert_eq!(famine_secondary_victims(&players, victim, &vec![e(10)], 8), vec![(e(2), 8), (e(4), 7)]);
    // Epidemic: the trader is immune, Medicine halves the cap.
    let r = epidemic_secondary_victims(&players, victim, Some(e(4)), &vec![e(10)], &vec![e(2)]);
    assert_eq!(r.len(), 1);
    assert_eq!(r[0].0, e(2));
    assert_eq!(r[0].1, 5);
}

#[test]
fn a_confirmed_ship_plan_pays_from_the_treasury_first() {
    let plan = vec![e(10), e(10), e(11)];
    let mut stock = ShipStock::new(vec![e(30), e(31), e(32), e(33)]);
    let mut fleet = PlayerShips::default();
    // Three in the treasury, two tokens in the first area, none in the second.
    let built = apply_ship_builds(&plan, &mut stock, &mut fleet, 3, &vec![(e(10), 2)]);
    assert_eq!(built, vec![(e(10), e(33), 2, 0), (e(10), e(32), 1, 1)]);
    assert_eq!(stock.ships, vec![e(30), e(31)]);
    assert_eq!(fleet.ships_in_area(e(10)), vec![e(33), e(32)]);
    assert!(fleet.ships_in_area(e(11)).is_empty());
}

#[test]
fn a_ship_plan_stops_when_the_stock_runs_out() {
    let plan = vec![e(10), e(11)];
    let mut stock = ShipStock::new(vec![e(30)]);
    let mut fleet = PlayerShips::default();
    let built = apply_ship_builds(&plan, &mut stock, &mut fleet, 10, &Vec::new());
    assert_eq!(built, vec![(e(10), e(30), 2, 0)]);
    assert!(stock.ships.is_empty());
}

#[test]
fn a_medicine_holder_still_shares_the_epidemic_loss() {
    let medicine = PlayerCivilizationCards::new(vec![CivCardName::Medicine]);
    let engineering = PlayerCivilizationCards::new(vec![CivCardName::Engineering]);
    assert!(can_be_secondary_victim(TradeCard::Epidemic, &medicine));
    assert!(!can_be_secondary_victim(TradeCard::VolcanoEarthquake, &engineering));
    assert!(can_be_secondary_victim(TradeCard::VolcanoEarthquake, &medicine));
    assert!(can_be_secondary_victim(TradeCard::Famine, &engineering));
}

#[test]
fn grain_relief_needs_pottery() {
    assert_eq!(compute_famine_grain_reduction(usize::MAX, false), 0);
    assert_eq!(compute_famine_grain_reduction(3, true), 12);
    let mut state = FamineState::new();
    state.primary_loss = i32::MAX;
    let unchanged = state.clone().with_grain_reduction(usize::MAX, false);
    assert_eq!(unchanged.primary_loss, i32::MAX);
    assert_eq!(unchanged.grain_cards_used, 0);
    let relieved = FamineState::new().with_grain_reduction(10, true);
    assert_eq!(relieved.grain_cards_used, 3, "only the cards needed are used");
    assert_eq!(relieved.primary_loss, 0);
}

#[test]
fn choosing_a_card_not_held_changes_nothing() {
    let mut selection = CommodityShedSelectionState::default();
    selection.populate(e(1), 2, vec![(TradeCard::Gold, 1)]);
    selection.increment(TradeCard::Grain);
    assert!(selection.selected.is_empty());
    selection.increment(TradeCard::Gold);
    selection.increment(TradeCard::Gold);
    assert_eq!(selection.selected, vec![(TradeCard::Gold, 1)]);
    selection.decrement(TradeCard::Silver);
    assert_eq!(selection.selected, vec![(TradeCard::Gold, 1)]);
}

#[test]
fn a_beneficiary_never_picks_past_the_target() {
    let mut selection = CivilWarSelectionState::default();
    selection.populate_beneficiary(e(1), 10, vec![e(20)], 7);
    selection.toggle_current_city();
    for _ in 0..5 {
        selection.increment_tokens();
    }
    assert_eq!(selection.selected_token_count, 2, "5 for the city and 2 tokens reach the target");
}
