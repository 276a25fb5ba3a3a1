use p4x_eye::live_view::{
    zoom_label, ControlEvent, LiveView, LiveViewAction, CONFIRMATION_NS, FOCUS_ASSIST_NS, MAX_ZOOM,
    MIN_ZOOM,
};

const MS: u64 = 1_000_000;

#[test]
fn new_view_is_at_1x_without_message() {
    let mut view = LiveView::new();
    assert_eq!(view.zoom(0), 1);
    assert_eq!(view.confirmation(0), None);
}

#[test]
fn previous_and_next_show_their_names() {
    let mut view = LiveView::new();
    assert_eq!(view.handle(ControlEvent::Previous, 10 * MS), LiveViewAction::NoAction);
    assert_eq!(view.confirmation(10 * MS), Some("previous"));
    assert_eq!(view.handle(ControlEvent::Next, 20 * MS), LiveViewAction::NoAction);
    assert_eq!(view.confirmation(20 * MS), Some("next"));
}

#[test]
fn capture_requests_capture_and_changes_nothing() {
    let mut view = LiveView::new();
    view.show_confirmation("hello", 5 * MS);
    assert_eq!(view.handle(ControlEvent::Capture, 6 * MS), LiveViewAction::Capture);
    assert_eq!(view.confirmation(6 * MS), Some("hello"));
    assert_eq!(view.zoom(6 * MS), 1);
}

#[test]
fn zoom_in_steps_and_clamps_at_3x() {
    let mut view = LiveView::new();
    view.handle(ControlEvent::ZoomIn, 0);
    assert_eq!(view.zoom(0), 2);
    assert_eq!(view.confirmation(0), Some("focus 2x"));
    view.handle(ControlEvent::ZoomIn, MS);
    assert_eq!(view.zoom(MS), 3);
    view.handle(ControlEvent::ZoomIn, 2 * MS);
    assert_eq!(view.zoom(2 * MS), MAX_ZOOM);
    assert_eq!(view.confirmation(2 * MS), Some("focus 3x"));
}

#[test]
fn zoom_out_clamps_at_1x() {
    let mut view = LiveView::new();
    view.handle(ControlEvent::ZoomOut, 0);
    assert_eq!(view.zoom(0), MIN_ZOOM);
    assert_eq!(view.confirmation(0), Some("focus 1x"));
}

#[test]
fn zoom_in_then_out_restores_level() {
    let mut view = LiveView::new();
    view.handle(ControlEvent::ZoomIn, 0);
    view.handle(ControlEvent::ZoomIn, MS);
    view.handle(ControlEvent::ZoomOut, 2 * MS);
    assert_eq!(view.zoom(2 * MS), 2);
    view.handle(ControlEvent::ZoomIn, 3 * MS);
    assert_eq!(view.zoom(3 * MS), 3);
}

#[test]
fn confirmation_visible_for_500_ms() {
    let mut view = LiveView::new();
    view.show_confirmation("saved", 1000 * MS);
    assert_eq!(view.confirmation(1000 * MS), Some("saved"));
    assert_eq!(view.confirmation(1000 * MS + CONFIRMATION_NS - 1), Some("saved"));
    assert_eq!(view.confirmation(1000 * MS + CONFIRMATION_NS), None);
    // Once cleared it stays cleared, even for an earlier time.
    assert_eq!(view.confirmation(1000 * MS), None);
}

#[test]
fn confirmation_before_its_start_is_visible() {
    let mut view = LiveView::new();
    view.show_confirmation("saved", 1000 * MS);
    assert_eq!(view.confirmation(900 * MS), Some("saved"));
}

#[test]
fn focus_assist_returns_to_1x_after_three_seconds() {
    let mut view = LiveView::new();
    view.handle(ControlEvent::ZoomIn, 100 * MS);
    assert_eq!(view.zoom(100 * MS + FOCUS_ASSIST_NS - 1), 2);
    assert_eq!(view.zoom(100 * MS + FOCUS_ASSIST_NS), 1);
    // The timed-out level is forgotten: the next zoom in starts from 1x.
    view.handle(ControlEvent::ZoomIn, 5000 * MS);
    assert_eq!(view.zoom(5000 * MS), 2);
}

#[test]
fn zoom_change_refreshes_focus_assist() {
    let mut view = LiveView::new();
    view.handle(ControlEvent::ZoomIn, 0);
    view.handle(ControlEvent::ZoomIn, 2000 * MS);
    assert_eq!(view.zoom(4000 * MS), 3);
    assert_eq!(view.zoom(5000 * MS), 1);
}

#[test]
fn zoom_out_to_1x_ends_focus_assist() {
    let mut view = LiveView::new();
    view.handle(ControlEvent::ZoomIn, 0);
    view.handle(ControlEvent::ZoomOut, 10 * MS);
    assert_eq!(view.zoom(11 * MS), 1);
}

#[test]
fn stale_zoom_is_used_when_not_read_before_zoom_in() {
    // The fall back to 1x happens when the zoom is read; a zoom event that
    // arrives first still steps from the previous level.
    let mut view = LiveView::new();
    view.handle(ControlEvent::ZoomIn, 0);
    view.handle(ControlEvent::ZoomIn, 10 * MS);
    view.handle(ControlEvent::ZoomIn, 10_000 * MS);
    assert_eq!(view.zoom(10_000 * MS), 3);
}

#[test]
fn zoom_labels() {
    assert_eq!(zoom_label(1), "focus 1x");
    assert_eq!(zoom_label(2), "focus 2x");
    assert_eq!(zoom_label(3), "focus 3x");
}

#[test]
fn reading_zoom_and_message_are_independent() {
    let mut view = LiveView::new();
    view.handle(ControlEvent::ZoomIn, 0);
    // The message expires first; the zoom is still held.
    assert_eq!(view.confirmation(1000 * MS), None);
    assert_eq!(view.zoom(1000 * MS), 2);
    view.show_confirmation("saved", 3500 * MS);
    // The zoom falls back to 1x; the new message is unaffected.
    assert_eq!(view.zoom(3600 * MS), 1);
    assert_eq!(view.confirmation(3600 * MS), Some("saved"));
}

#[test]
fn zoom_round_trip_restores_level_as_read() {
    let mut view = LiveView::new();
    view.handle(ControlEvent::ZoomIn, 0);
    let level = view.zoom(100 * MS);
    assert_eq!(level, 2);
    view.handle(ControlEvent::ZoomIn, 100 * MS);
    view.handle(ControlEvent::ZoomOut, 100 * MS);
    assert_eq!(view.zoom(100 * MS), level);
    view.handle(ControlEvent::ZoomOut, 100 * MS);
    view.handle(ControlEvent::ZoomIn, 100 * MS);
    assert_eq!(view.zoom(100 * MS), level);
}

#[test]
fn zoom_step_starts_from_level_read_after_time_out() {
    let mut view = LiveView::new();
    view.handle(ControlEvent::ZoomIn, 0);
    view.handle(ControlEvent::ZoomIn, 0);
    assert_eq!(view.zoom(FOCUS_ASSIST_NS), 1);
    view.handle(ControlEvent::ZoomIn, FOCUS_ASSIST_NS);
    assert_eq!(view.zoom(FOCUS_ASSIST_NS), 2);
}

#[test]
fn focus_assist_starts_only_above_1x() {
    let mut view = LiveView::new();
    assert!(view.starts_focus_assist(ControlEvent::ZoomIn));
    assert!(!view.starts_focus_assist(ControlEvent::ZoomOut));
    assert!(!view.starts_focus_assist(ControlEvent::Capture));
    view.handle(ControlEvent::ZoomIn, 0);
    assert!(!view.starts_focus_assist(ControlEvent::ZoomOut));
    view.handle(ControlEvent::ZoomIn, 0);
    assert!(view.starts_focus_assist(ControlEvent::ZoomOut));
    assert!(!view.starts_focus_assist(ControlEvent::Previous));
}
