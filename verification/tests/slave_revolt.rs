use advciv::calamities::slave_revolt::SlaveRevoltState;

#[test]
fn base_is_15_tokens() {
    assert_eq!(SlaveRevoltState::new().tokens_cannot_support, 15);
}

#[test]
fn mining_adds_5_tokens() {
    assert_eq!(SlaveRevoltState::new().with_mining().tokens_cannot_support, 20);
}

#[test]
fn enlightenment_removes_5_tokens() {
    assert_eq!(SlaveRevoltState::new().with_enlightenment().tokens_cannot_support, 10);
}

#[test]
fn mining_and_enlightenment_cancel_out() {
    assert_eq!(SlaveRevoltState::new().with_mining_and_enlightenment().tokens_cannot_support, 15);
}

#[test]
fn cities_to_reduce_derived_from_affected_tokens_and_board_state() {
    let mut state = SlaveRevoltState::new();
    state.compute_cities_to_reduce(15, 10);
    assert_eq!(state.cities_to_reduce, 3);

    let mut capped = SlaveRevoltState::new();
    capped.compute_cities_to_reduce(15, 2);
    assert_eq!(capped.cities_to_reduce, 2);

    let mut fewer_tokens = SlaveRevoltState::new();
    fewer_tokens.compute_cities_to_reduce(7, 10);
    assert_eq!(fewer_tokens.cities_to_reduce, 1);
}
