use advciv::round_summary::RoundSummary;

#[test]
fn starts_empty() {
    assert!(RoundSummary::default().entries().is_empty());
}

#[test]
fn push_appends_in_order() {
    let mut summary = RoundSummary::default();
    summary.push("first");
    summary.push(&format!("second {}", 2));
    assert_eq!(summary.entries(), ["first", "second 2"]);
}

#[test]
fn clear_empties_it() {
    let mut summary = RoundSummary::default();
    summary.push("something happened");
    summary.clear();
    assert!(summary.entries().is_empty());
}
