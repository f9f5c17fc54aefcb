use advciv::components::{city_tokens_to_restore, replacement_tokens, usable_grain_count, CalamityVictim, PendingCalamities};
use advciv::cards::TradeCard;
use advciv::entity::Entity;

#[test]
fn usable_is_held_minus_locked() {
    assert_eq!(usable_grain_count(5, 2), 3);
}

#[test]
fn fully_locked_leaves_nothing_usable() {
    assert_eq!(usable_grain_count(3, 3), 0);
}

#[test]
fn no_lock_leaves_everything_usable() {
    assert_eq!(usable_grain_count(4, 0), 4);
}

#[test]
fn locked_exceeding_held_saturates_to_zero_rather_than_underflowing() {
    assert_eq!(usable_grain_count(2, 5), 0);
}

#[test]
fn test_pending_calamities_count() {
    let pending = PendingCalamities::new(vec![(TradeCard::Famine, None), (TradeCard::Superstition, None)]);
    assert_eq!(pending.count(), 2);
    assert!(!pending.is_empty());
}

#[test]
fn test_pending_calamities_empty() {
    let pending = PendingCalamities::new(vec![]);
    assert_eq!(pending.count(), 0);
    assert!(pending.is_empty());
}

#[test]
fn test_calamity_victim_with_trader() {
    let trader = Entity::from_raw_u32(3).unwrap();
    let victim = CalamityVictim::new(TradeCard::Treachery, Some(trader));
    assert_eq!(victim.calamity, TradeCard::Treachery);
    assert_eq!(victim.traded_by, Some(trader));
}

#[test]
fn test_calamity_victim_without_trader() {
    let victim = CalamityVictim::new(TradeCard::VolcanoEarthquake, None);
    assert_eq!(victim.calamity, TradeCard::VolcanoEarthquake);
    assert_eq!(victim.traded_by, None);
}

#[test]
fn a_reduced_city_leaves_its_area_limit_in_tokens_at_most_six() {
    assert_eq!(replacement_tokens(3, false), 3);
    assert_eq!(replacement_tokens(3, true), 4);
    assert_eq!(replacement_tokens(5, true), 6);
    assert_eq!(replacement_tokens(9, false), 6);
}

#[test]
fn the_city_stock_is_refilled_to_what_is_not_on_the_board() {
    assert_eq!(city_tokens_to_restore(9, 2, 3), 4);
    assert_eq!(city_tokens_to_restore(9, 2, 7), 0);
    assert_eq!(city_tokens_to_restore(1, 3, 0), 0);
}
