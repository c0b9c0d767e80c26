use smpd_tui::scroll::{ScrollDirection, ScrollState, SCROLL_DEBOUNCE_MS};

#[test]
fn first_event_is_accepted() {
    let mut s = ScrollState::new();
    s.on_scroll(ScrollDirection::Down, 5, 1000);
    assert_eq!(s.selected, Some(1));
    assert_eq!(s.offset, 1);
    assert_eq!(s.last_update, Some(1000));
}

#[test]
fn debounce_rejects_fast_second_event() {
    // Two events less than the debounce interval apart: the second one
    // changes nothing at all.
    let mut s = ScrollState::new();
    s.on_scroll(ScrollDirection::Down, 5, 1000);
    let before = (s.offset, s.selected, s.last_update);
    s.on_scroll(ScrollDirection::Down, 5, 1010);
    assert_eq!((s.offset, s.selected, s.last_update), before);
}

#[test]
fn debounce_boundary_is_exclusive() {
    // Exactly the debounce interval later is still too soon; one
    // millisecond more passes.
    let mut s = ScrollState::new();
    s.on_scroll(ScrollDirection::Down, 5, 1000);
    s.on_scroll(ScrollDirection::Down, 5, 1000 + SCROLL_DEBOUNCE_MS);
    assert_eq!(s.selected, Some(1));
    s.on_scroll(ScrollDirection::Down, 5, 1000 + SCROLL_DEBOUNCE_MS + 1);
    assert_eq!(s.selected, Some(2));
}

#[test]
fn spaced_events_step_one_each() {
    let mut s = ScrollState::new();
    s.on_scroll(ScrollDirection::Down, 10, 1000);
    s.on_scroll(ScrollDirection::Down, 10, 1030);
    s.on_scroll(ScrollDirection::Down, 10, 1060);
    assert_eq!(s.selected, Some(3));
    assert_eq!(s.offset, 3);
}

#[test]
fn selection_clamps_at_end() {
    let mut s = ScrollState::new();
    let mut t = 1000u64;
    for _ in 0..10 {
        s.on_scroll(ScrollDirection::Down, 3, t);
        t += 30;
    }
    assert_eq!(s.selected, Some(2));
}

#[test]
fn selection_reclamps_when_list_shrinks() {
    // Walk the selection out to index 4, then hand the controller a list of
    // two items: the next accepted event re-clamps instead of dangling.
    let mut s = ScrollState::new();
    let mut t = 1000u64;
    for _ in 0..4 {
        s.on_scroll(ScrollDirection::Down, 9, t);
        t += 30;
    }
    assert_eq!(s.selected, Some(4));
    s.on_scroll(ScrollDirection::Down, 2, t);
    assert_eq!(s.selected, Some(1));
}

#[test]
fn selection_reclamps_upward_too() {
    let mut s = ScrollState::new();
    let mut t = 1000u64;
    for _ in 0..6 {
        s.on_scroll(ScrollDirection::Down, 9, t);
        t += 30;
    }
    assert_eq!(s.selected, Some(6));
    s.on_scroll(ScrollDirection::Up, 3, t);
    assert_eq!(s.selected, Some(2));
}

#[test]
fn empty_list_clears_selection() {
    let mut s = ScrollState::new();
    s.on_scroll(ScrollDirection::Down, 0, 1000);
    assert_eq!(s.selected, None);
    s.on_scroll(ScrollDirection::Up, 0, 1030);
    assert_eq!(s.selected, None);
}

#[test]
fn offset_floors_at_zero() {
    let mut s = ScrollState::new();
    s.on_scroll(ScrollDirection::Up, 5, 1000);
    assert_eq!(s.offset, 0);
    assert_eq!(s.selected, Some(0));
}

#[test]
fn offset_and_selection_are_independent() {
    // The display cursor keeps climbing even after the selection parked at
    // the end of the list.
    let mut s = ScrollState::new();
    let mut t = 1000u64;
    for _ in 0..5 {
        s.on_scroll(ScrollDirection::Down, 2, t);
        t += 30;
    }
    assert_eq!(s.selected, Some(1));
    assert_eq!(s.offset, 5);
}

#[test]
fn observe_length_resets_bounds() {
    let mut s = ScrollState::new();
    s.observe_length(0);
    assert_eq!(s.selected, None);
    s.observe_length(4);
    assert_eq!(s.selected, Some(0));
    let mut t = 1000u64;
    for _ in 0..3 {
        s.on_scroll(ScrollDirection::Down, 4, t);
        t += 30;
    }
    assert_eq!(s.selected, Some(3));
    s.observe_length(2);
    assert_eq!(s.selected, Some(1));
    // cursor and debounce clock are untouched by a length change
    assert_eq!(s.offset, 3);
    assert_eq!(s.last_update, Some(1060));
}

#[test]
fn clock_stepping_back_is_rejected() {
    let mut s = ScrollState::new();
    s.on_scroll(ScrollDirection::Down, 5, 1000);
    s.on_scroll(ScrollDirection::Down, 5, 900);
    assert_eq!(s.selected, Some(1));
    assert_eq!(s.last_update, Some(1000));
}
