use advciv::calamities::iconoclasm_heresy::IconoclasmHeresyState;
use advciv::entity::Entity;
use advciv::resolution::transfers::{civil_war_replacements, count_units_per_area, transfer_cities, CityTransfer};

fn e(n: u32) -> Entity {
    Entity::from_raw_u32(n).unwrap()
}

#[test]
fn transferred_units_are_counted_per_area_in_order() {
    let token_areas = vec![(e(20), e(10)), (e(21), e(11)), (e(22), e(10)), (e(23), e(12))];
    let units = vec![e(21), e(20), e(22), e(99)];
    assert_eq!(count_units_per_area(&units, &token_areas), vec![(e(11), 1), (e(10), 2)]);
}

#[test]
fn replacements_stop_when_the_beneficiary_stock_runs_out() {
    let token_areas = vec![(e(20), e(10)), (e(21), e(10)), (e(22), e(11)), (e(23), e(11))];
    let units = vec![e(20), e(21), e(22), e(23)];
    assert_eq!(civil_war_replacements(&units, &token_areas, 10), vec![(e(10), 2), (e(11), 2)]);
    assert_eq!(civil_war_replacements(&units, &token_areas, 3), vec![(e(10), 2), (e(11), 1)]);
    assert_eq!(civil_war_replacements(&units, &token_areas, 0), vec![(e(10), 0), (e(11), 0)]);
}

#[test]
fn a_city_is_lost_when_the_new_owner_has_no_city_tokens() {
    let victim = e(1);
    let beneficiary = e(2);
    let mut stocks = vec![(victim, 3), (beneficiary, 1)];
    let transfers = vec![(e(10), victim, beneficiary), (e(11), victim, beneficiary), (e(12), victim, victim), (e(13), victim, e(9))];
    let outcomes = transfer_cities(&transfers, &mut stocks);
    assert_eq!(
        outcomes,
        vec![
            (e(10), CityTransfer::Transferred),
            (e(11), CityTransfer::Lost),
            (e(12), CityTransfer::Removed),
            (e(13), CityTransfer::Removed),
        ]
    );
    assert_eq!(stocks, vec![(victim, 5), (beneficiary, 0)], "the victim's two city tokens return to stock");
}

#[test]
fn iconoclasm_modifiers_in_any_order_give_the_same_cities() {
    let a = IconoclasmHeresyState::new().apply_modifier(-3).apply_modifier(1).apply_modifier(-1);
    let b = IconoclasmHeresyState::new().apply_modifier(-1).apply_modifier(1).apply_modifier(-3);
    assert_eq!(a.cities_to_reduce, 1);
    assert_eq!(b.cities_to_reduce, 1);
    assert_eq!(IconoclasmHeresyState::new().apply_modifier(-3).apply_modifier(-3).cities_to_reduce, 0);
}
