use podcast_core::state::State;

#[test]
fn a_new_state_selects_the_first_row() {
    let state = State::new();
    assert_eq!(state.selected(), Some(0));
    assert_eq!(state.get_value(), 0);
}

#[test]
fn increment_stops_at_the_last_row() {
    let mut state = State::new();
    state.set_max(3);
    state.increment();
    assert_eq!(state.get_value(), 1);
    state.increment();
    assert_eq!(state.get_value(), 2);
    state.increment();
    assert_eq!(state.get_value(), 2);
}

#[test]
fn increment_does_nothing_in_an_empty_list() {
    let mut state = State::new();
    state.increment();
    assert_eq!(state.selected(), Some(0));
    state.set_max(1);
    state.increment();
    assert_eq!(state.selected(), Some(0));
}

#[test]
fn decrement_stops_at_the_first_row() {
    let mut state = State::new();
    state.set_max(5);
    state.increment();
    state.increment();
    state.decrement();
    assert_eq!(state.get_value(), 1);
    state.decrement();
    assert_eq!(state.get_value(), 0);
    state.decrement();
    assert_eq!(state.selected(), Some(0));
}

#[test]
fn reset_goes_back_to_the_first_row_and_keeps_the_length() {
    let mut state = State::new();
    state.set_max(4);
    state.increment();
    state.increment();
    state.reset();
    assert_eq!(state.selected(), Some(0));
    state.increment();
    state.increment();
    state.increment();
    state.increment();
    assert_eq!(state.get_value(), 3);
}

#[test]
fn a_shorter_list_leaves_the_selection_where_it_was() {
    let mut state = State::new();
    state.set_max(10);
    for _ in 0..7 {
        state.increment();
    }
    state.set_max(3);
    assert_eq!(state.get_value(), 7);
    state.increment();
    assert_eq!(state.get_value(), 7);
    state.decrement();
    assert_eq!(state.get_value(), 6);
}
