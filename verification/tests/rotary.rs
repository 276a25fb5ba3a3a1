use p4x_eye::rotary::{pin_state, Rotary, RotaryEvent};

/// Phase levels (A, B) for each two-bit state.
fn levels(state: u8) -> (bool, bool) {
    (state & 2 != 0, state & 1 != 0)
}

fn step(rotary: &mut Rotary, switch_low: bool, state: u8) -> Option<RotaryEvent> {
    let (a, b) = levels(state);
    rotary.poll(switch_low, a, b)
}

#[test]
fn pin_state_combines_phases() {
    assert_eq!(pin_state(false, false), 0);
    assert_eq!(pin_state(false, true), 1);
    assert_eq!(pin_state(true, false), 2);
    assert_eq!(pin_state(true, true), 3);
}

#[test]
fn clockwise_detent_after_four_steps() {
    let mut rotary = Rotary::new(false, false);
    assert_eq!(step(&mut rotary, false, 0b01), None);
    assert_eq!(step(&mut rotary, false, 0b11), None);
    assert_eq!(step(&mut rotary, false, 0b10), None);
    assert_eq!(step(&mut rotary, false, 0b00), Some(RotaryEvent::Clockwise));
    // The count restarts after a detent.
    assert_eq!(step(&mut rotary, false, 0b01), None);
}

#[test]
fn counter_clockwise_detent_after_four_steps() {
    let mut rotary = Rotary::new(true, true);
    assert_eq!(step(&mut rotary, false, 0b01), None);
    assert_eq!(step(&mut rotary, false, 0b00), None);
    assert_eq!(step(&mut rotary, false, 0b10), None);
    assert_eq!(step(&mut rotary, false, 0b11), Some(RotaryEvent::CounterClockwise));
}

#[test]
fn turning_back_cancels_a_partial_turn() {
    let mut rotary = Rotary::new(false, false);
    assert_eq!(step(&mut rotary, false, 0b01), None);
    assert_eq!(step(&mut rotary, false, 0b11), None);
    assert_eq!(step(&mut rotary, false, 0b01), None);
    assert_eq!(step(&mut rotary, false, 0b00), None);
    // Two net steps were undone; three more clockwise are not a detent.
    assert_eq!(step(&mut rotary, false, 0b01), None);
    assert_eq!(step(&mut rotary, false, 0b11), None);
    assert_eq!(step(&mut rotary, false, 0b10), None);
    assert_eq!(step(&mut rotary, false, 0b00), Some(RotaryEvent::Clockwise));
}

#[test]
fn skipped_states_and_no_motion_count_nothing() {
    let mut rotary = Rotary::new(false, false);
    for _ in 0..10 {
        assert_eq!(step(&mut rotary, false, 0b00), None);
    }
    // 00 -> 11 and 11 -> 00 change both phases at once.
    for _ in 0..10 {
        assert_eq!(step(&mut rotary, false, 0b11), None);
        assert_eq!(step(&mut rotary, false, 0b00), None);
    }
}

#[test]
fn press_is_reported_once_per_press() {
    let mut rotary = Rotary::new(false, false);
    assert_eq!(step(&mut rotary, true, 0), Some(RotaryEvent::Pressed));
    assert_eq!(step(&mut rotary, true, 0), None);
    assert_eq!(step(&mut rotary, true, 0), None);
}

#[test]
fn press_needs_three_released_samples_before_next() {
    let mut rotary = Rotary::new(false, false);
    assert_eq!(step(&mut rotary, true, 0), Some(RotaryEvent::Pressed));
    assert_eq!(step(&mut rotary, false, 0), None);
    assert_eq!(step(&mut rotary, false, 0), None);
    // Bounce: only two released samples, so no second press.
    assert_eq!(step(&mut rotary, true, 0), None);
    assert_eq!(step(&mut rotary, false, 0), None);
    assert_eq!(step(&mut rotary, false, 0), None);
    assert_eq!(step(&mut rotary, false, 0), None);
    assert_eq!(step(&mut rotary, true, 0), Some(RotaryEvent::Pressed));
}

#[test]
fn press_skips_the_rotation_sample() {
    let mut rotary = Rotary::new(false, false);
    assert_eq!(step(&mut rotary, false, 0b01), None);
    assert_eq!(step(&mut rotary, false, 0b11), None);
    assert_eq!(step(&mut rotary, false, 0b10), None);
    // The press sample does not take the phase reading.
    assert_eq!(step(&mut rotary, true, 0b00), Some(RotaryEvent::Pressed));
    assert_eq!(step(&mut rotary, true, 0b00), Some(RotaryEvent::Clockwise));
}

#[test]
fn rotation_still_counts_while_switch_is_held() {
    let mut rotary = Rotary::new(false, false);
    assert_eq!(step(&mut rotary, true, 0b00), Some(RotaryEvent::Pressed));
    assert_eq!(step(&mut rotary, true, 0b01), None);
    assert_eq!(step(&mut rotary, true, 0b11), None);
    assert_eq!(step(&mut rotary, true, 0b10), None);
    assert_eq!(step(&mut rotary, true, 0b00), Some(RotaryEvent::Clockwise));
}
