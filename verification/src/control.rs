//! Decisions of the main loop: which control event a poll of the inputs
//! produces, and which status a capture attempt reports.
use vstd::prelude::*;
use crate::buttons::Button;
use crate::live_view::ControlEvent;
use crate::rotary::RotaryEvent;

verus! {

/// The control event for one poll of the buttons and the encoder. A capture
/// (the enter button or an encoder press) wins over everything; then the
/// previous and next buttons; then an encoder turn zooms in or out.
pub open spec fn control_event(button: Option<Button>, rotary: Option<RotaryEvent>) -> Option<
    ControlEvent,
> {
    if button == Some(Button::Enter) || rotary == Some(RotaryEvent::Pressed) {
        Some(ControlEvent::Capture)
    } else if button == Some(Button::Previous) {
        Some(ControlEvent::Previous)
    } else if button == Some(Button::Next) {
        Some(ControlEvent::Next)
    } else if rotary == Some(RotaryEvent::Clockwise) {
        Some(ControlEvent::ZoomIn)
    } else if rotary == Some(RotaryEvent::CounterClockwise) {
        Some(ControlEvent::ZoomOut)
    } else {
        None
    }
}

/// Merge one button press and one encoder event into a control event.
pub fn poll_control(button: Option<Button>, rotary: Option<RotaryEvent>) -> (event: Option<
    ControlEvent,
>)
    ensures
        event == control_event(button, rotary),
{
    let enter = match button {
        Some(Button::Enter) => true,
        _ => false,
    };
    let pressed = match rotary {
        Some(RotaryEvent::Pressed) => true,
        _ => false,
    };
    if enter || pressed {
        return Some(ControlEvent::Capture);
    }
    match (button, rotary) {
        (Some(Button::Previous), _) => Some(ControlEvent::Previous),
        (Some(Button::Next), _) => Some(ControlEvent::Next),
        (_, Some(RotaryEvent::Clockwise)) => Some(ControlEvent::ZoomIn),
        (_, Some(RotaryEvent::CounterClockwise)) => Some(ControlEvent::ZoomOut),
        _ => None,
    }
}

/// How an attempt to save the current frame ended.
#[derive(Clone, Copy, Debug, PartialEq, Eq, Structural)]
pub enum CaptureOutcome {
    /// The MicroSD card could not be mounted.
    CardUnavailable,
    /// The frame was encoded and written to the card.
    Saved,
    /// Encoding or writing the frame failed.
    SaveFailed,
}

/// How a capture attempt ended, from whether the card mounted and whether the
/// frame was then encoded and saved.
pub fn capture_outcome(mounted: bool, saved: bool) -> (outcome: CaptureOutcome)
    ensures
        outcome == if !mounted {
            CaptureOutcome::CardUnavailable
        } else if saved {
            CaptureOutcome::Saved
        } else {
            CaptureOutcome::SaveFailed
        },
{
    if !mounted {
        CaptureOutcome::CardUnavailable
    } else if saved {
        CaptureOutcome::Saved
    } else {
        CaptureOutcome::SaveFailed
    }
}

pub open spec fn capture_message_of(outcome: CaptureOutcome) -> Seq<char> {
    match outcome {
        CaptureOutcome::CardUnavailable => "no sd card"@,
        CaptureOutcome::Saved => "saved"@,
        CaptureOutcome::SaveFailed => "save error"@,
    }
}

/// The status message shown after a capture attempt.
pub fn capture_message(outcome: CaptureOutcome) -> (message: &'static str)
    ensures
        message@ == capture_message_of(outcome),
{
    match outcome {
        CaptureOutcome::CardUnavailable => "no sd card",
        CaptureOutcome::Saved => "saved",
        CaptureOutcome::SaveFailed => "save error",
    }
}

/// A capture request wins over every other input of the same poll.
pub proof fn lemma_capture_has_priority(button: Option<Button>, rotary: Option<RotaryEvent>)
    ensures
        control_event(Some(Button::Enter), rotary) == Some(ControlEvent::Capture),
        control_event(button, Some(RotaryEvent::Pressed)) == Some(ControlEvent::Capture),
{
}

/// Without a capture request, a navigation button wins over an encoder turn,
/// and an encoder turn alone zooms.
pub proof fn lemma_navigation_before_zoom(rotary: Option<RotaryEvent>)
    requires
        rotary != Some(RotaryEvent::Pressed),
    ensures
        control_event(Some(Button::Previous), rotary) == Some(ControlEvent::Previous),
        control_event(Some(Button::Next), rotary) == Some(ControlEvent::Next),
        control_event(None, Some(RotaryEvent::Clockwise)) == Some(ControlEvent::ZoomIn),
        control_event(None, Some(RotaryEvent::CounterClockwise)) == Some(ControlEvent::ZoomOut),
        control_event(None, None) is None,
{
}

} // verus!

