use keymatrix::debounce::{DebounceState, LEVEL_MAX, LOWER_THRESHOLD, UPPER_THRESHOLD};

fn feed(state: &mut DebounceState, raw: bool, times: usize) -> bool {
    let mut stable = state.is_pressed();
    for _ in 0..times {
        stable = state.update(raw);
    }
    stable
}

#[test]
fn fresh_filter_is_released() {
    let s = DebounceState::new();
    assert!(!s.is_pressed());
    assert_eq!(s.level(), 0);
}

#[test]
fn default_filter_equals_new_filter() {
    let s = DebounceState::default();
    assert!(!s.is_pressed());
    assert_eq!(s.level(), 0);
}

#[test]
fn thresholds_split_the_range_in_thirds() {
    assert_eq!(LOWER_THRESHOLD, 5);
    assert_eq!(UPPER_THRESHOLD, 10);
    assert_eq!(LEVEL_MAX, 15);
}

#[test]
fn press_registers_on_the_tenth_true_sample() {
    let mut s = DebounceState::new();
    for n in 1..=9u8 {
        assert!(!s.update(true), "pressed after only {} samples", n);
        assert_eq!(s.level(), n);
    }
    assert!(s.update(true));
    assert_eq!(s.level(), 10);
    assert!(s.is_pressed());
}

#[test]
fn release_registers_when_the_level_falls_to_the_lower_threshold() {
    let mut s = DebounceState::new();
    assert!(feed(&mut s, true, 15));
    assert_eq!(s.level(), 15);
    for n in 1..=9u8 {
        assert!(s.update(false), "released after only {} samples", n);
        assert_eq!(s.level(), 15 - n);
    }
    assert!(!s.update(false));
    assert_eq!(s.level(), 5);
    assert!(!s.is_pressed());
}

#[test]
fn hysteresis_band_keeps_the_state_on_both_ways() {
    let mut s = DebounceState::new();
    feed(&mut s, true, 10);
    assert!(s.is_pressed());
    // down to 6: still pressed, although below the upper threshold
    assert!(feed(&mut s, false, 4));
    assert_eq!(s.level(), 6);
    // back up to 9 and down again: nothing changes
    assert!(feed(&mut s, true, 3));
    assert!(feed(&mut s, false, 3));
    assert!(!s.update(false));
    assert_eq!(s.level(), 5);
    // up to 9: still released, although above the lower threshold
    assert!(!feed(&mut s, true, 4));
    assert_eq!(s.level(), 9);
    assert!(s.update(true));
}

#[test]
fn single_glitch_never_flips_a_released_switch() {
    let mut s = DebounceState::new();
    for _ in 0..100 {
        assert!(!s.update(false));
        assert!(!s.update(true));
        assert!(!s.update(false));
    }
    assert!(!s.is_pressed());
}

#[test]
fn single_glitch_never_flips_a_pressed_switch() {
    let mut s = DebounceState::new();
    feed(&mut s, true, 10);
    for _ in 0..100 {
        assert!(s.update(true));
        assert!(s.update(false));
        assert!(s.update(true));
    }
    assert!(s.is_pressed());
}

#[test]
fn bounce_that_never_reaches_a_threshold_changes_nothing() {
    let mut s = DebounceState::new();
    for _ in 0..50 {
        assert!(!feed(&mut s, true, 9));
        assert!(!feed(&mut s, false, 9));
    }
    assert_eq!(s.level(), 0);
}

#[test]
fn level_stays_clamped_at_the_top() {
    let mut s = DebounceState::new();
    feed(&mut s, true, 15);
    assert_eq!(s.level(), LEVEL_MAX);
    for _ in 0..1000 {
        assert!(s.update(true));
        assert_eq!(s.level(), LEVEL_MAX);
    }
}

#[test]
fn level_stays_clamped_at_the_bottom() {
    let mut s = DebounceState::new();
    for _ in 0..1000 {
        assert!(!s.update(false));
        assert_eq!(s.level(), 0);
    }
    feed(&mut s, true, 15);
    feed(&mut s, false, 15);
    assert_eq!(s.level(), 0);
    assert!(!s.update(false));
    assert_eq!(s.level(), 0);
}

#[test]
fn update_returns_the_state_it_leaves_behind() {
    let mut s = DebounceState::new();
    let pattern = [true, true, false, true, true, true, true, true, true, true, true, true, true];
    for raw in pattern {
        let stable = s.update(raw);
        assert_eq!(stable, s.is_pressed());
    }
    assert!(s.is_pressed());
}

#[test]
fn press_edge_is_signalled_exactly_once_per_press() {
    let mut s = DebounceState::new();
    let mut edges = 0;
    for _ in 0..9 {
        assert_eq!(s.update_with_edge(true), (false, false));
    }
    assert_eq!(s.update_with_edge(true), (true, true));
    for _ in 0..20 {
        assert_eq!(s.update_with_edge(true), (true, false));
    }
    // bounce inside the band: no release, no second press
    for _ in 0..5 {
        for raw in [false, false, false, true, true, true] {
            let (stable, edge) = s.update_with_edge(raw);
            assert!(stable);
            if edge {
                edges += 1;
            }
        }
    }
    assert_eq!(edges, 0);
    // a release is no press edge
    for _ in 0..9 {
        assert_eq!(s.update_with_edge(false), (true, false));
    }
    assert_eq!(s.update_with_edge(false), (false, false));
    for _ in 0..4 {
        assert_eq!(s.update_with_edge(true), (false, false));
    }
    assert_eq!(s.update_with_edge(true), (true, true));
}
