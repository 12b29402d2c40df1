use sedentary_tracker::activity::ActivityState;

#[test]
fn labels_of_the_three_states() {
    assert_eq!(ActivityState::Active.label(), "ACTIVE");
    assert_eq!(ActivityState::Fidget.label(), "FIDGET");
    assert_eq!(ActivityState::Sedentary.label(), "SEDENTARY");
}

#[test]
fn labels_read_back() {
    for state in [ActivityState::Active, ActivityState::Fidget, ActivityState::Sedentary] {
        assert_eq!(ActivityState::from_label(state.label()), Some(state));
    }
}

#[test]
fn other_text_names_no_state() {
    assert_eq!(ActivityState::from_label(""), None);
    assert_eq!(ActivityState::from_label("active"), None);
    assert_eq!(ActivityState::from_label("ACTIVE "), None);
    assert_eq!(ActivityState::from_label("IDLE"), None);
}
