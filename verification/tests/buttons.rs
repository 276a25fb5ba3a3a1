use p4x_eye::buttons::{Button, Buttons};

#[test]
fn labels() {
    assert_eq!(Button::Previous.label(), "previous");
    assert_eq!(Button::Next.label(), "next");
    assert_eq!(Button::Enter.label(), "enter");
}

#[test]
fn from_index_follows_scan_order() {
    assert_eq!(Button::from_index(0), Button::Previous);
    assert_eq!(Button::from_index(1), Button::Next);
    assert_eq!(Button::from_index(2), Button::Enter);
}

#[test]
fn nothing_pressed_reports_nothing() {
    let mut buttons = Buttons::new();
    assert_eq!(buttons.pressed([false, false, false]), None);
}

#[test]
fn held_button_reported_once() {
    let mut buttons = Buttons::new();
    assert_eq!(buttons.pressed([false, true, false]), Some(Button::Next));
    assert_eq!(buttons.pressed([false, true, false]), None);
    assert_eq!(buttons.pressed([false, true, false]), None);
}

#[test]
fn release_needs_three_samples() {
    let mut buttons = Buttons::new();
    assert_eq!(buttons.pressed([false, false, true]), Some(Button::Enter));
    assert_eq!(buttons.pressed([false, false, false]), None);
    assert_eq!(buttons.pressed([false, false, false]), None);
    assert_eq!(buttons.pressed([false, false, true]), None);
    assert_eq!(buttons.pressed([false, false, false]), None);
    assert_eq!(buttons.pressed([false, false, false]), None);
    assert_eq!(buttons.pressed([false, false, false]), None);
    assert_eq!(buttons.pressed([false, false, true]), Some(Button::Enter));
}

#[test]
fn simultaneous_presses_reported_in_scan_order() {
    let mut buttons = Buttons::new();
    assert_eq!(buttons.pressed([true, true, true]), Some(Button::Previous));
    assert_eq!(buttons.pressed([true, true, true]), Some(Button::Next));
    assert_eq!(buttons.pressed([true, true, true]), Some(Button::Enter));
    assert_eq!(buttons.pressed([true, true, true]), None);
}

#[test]
fn buttons_debounce_independently() {
    let mut buttons = Buttons::new();
    assert_eq!(buttons.pressed([true, false, false]), Some(Button::Previous));
    assert_eq!(buttons.pressed([false, true, false]), Some(Button::Next));
    assert_eq!(buttons.pressed([false, false, false]), None);
    assert_eq!(buttons.pressed([false, false, false]), None);
    assert_eq!(buttons.pressed([true, false, false]), Some(Button::Previous));
    assert_eq!(buttons.pressed([false, true, false]), None);
}
