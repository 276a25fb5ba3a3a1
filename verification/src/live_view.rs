//! State for the camera live-view user interface.
//!
//! This module is independent of GPIO and camera drivers. It translates
//! application-level control events into a capture request or changes to the
//! view state. Times are nanoseconds on a monotonic clock, so the display
//! windows are compared exactly as `Instant` differences are.
use vstd::prelude::*;

verus! {

/// How long a status message stays over the camera stream.
pub const CONFIRMATION_NS: u64 = 500_000_000;
/// How long a zoom above 1x is kept after the last zoom change.
pub const FOCUS_ASSIST_NS: u64 = 3_000_000_000;
pub const MIN_ZOOM: u8 = 1;
pub const MAX_ZOOM: u8 = 3;

/// A normalized control action, independent of the physical button or encoder that produced it.
#[derive(Clone, Copy, Debug, PartialEq, Eq, Structural)]
pub enum ControlEvent {
    Previous,
    Next,
    Capture,
    ZoomIn,
    ZoomOut,
}

/// Work the application must do after the live view processes a control event.
#[derive(Clone, Copy, Debug, PartialEq, Eq, Structural)]
pub enum LiveViewAction {
    NoAction,
    Capture,
}

/// The message shown for a zoom level.
pub open spec fn zoom_label_of(zoom: int) -> Seq<char> {
    if zoom == 1 {
        "focus 1x"@
    } else if zoom == 2 {
        "focus 2x"@
    } else {
        "focus 3x"@
    }
}

/// Time from `started` to `now`, or zero if `now` is earlier.
pub open spec fn elapsed(now: int, started: int) -> int {
    if now >= started {
        now - started
    } else {
        0
    }
}

/// Abstract state of the live view.
pub struct LiveViewState {
    /// The status message and the time it was shown.
    pub confirmation: Option<(Seq<char>, int)>,
    /// The focus-assist zoom level.
    pub zoom: int,
    /// The time at which the focus-assist zoom falls back to 1x.
    pub focus_assist_until: Option<int>,
}

impl LiveViewState {
    pub open spec fn initial() -> LiveViewState {
        LiveViewState { confirmation: None, zoom: MIN_ZOOM as int, focus_assist_until: None }
    }

    /// The zoom is within 1x to 3x, and a zoom above 1x always has a
    /// focus-assist deadline.
    pub open spec fn valid(self) -> bool {
        &&& MIN_ZOOM <= self.zoom <= MAX_ZOOM
        &&& self.zoom > MIN_ZOOM ==> self.focus_assist_until is Some
    }

    pub open spec fn show_confirmation(self, message: Seq<char>, now: int) -> LiveViewState {
        LiveViewState { confirmation: Some((message, now)), ..self }
    }

    /// The zoom level after a zoom event; other events keep the level.
    pub open spec fn zoom_after(self, event: ControlEvent) -> int {
        match event {
            ControlEvent::ZoomIn => if self.zoom < MAX_ZOOM {
                self.zoom + 1
            } else {
                MAX_ZOOM as int
            },
            ControlEvent::ZoomOut => if self.zoom > MIN_ZOOM {
                self.zoom - 1
            } else {
                MIN_ZOOM as int
            },
            _ => self.zoom,
        }
    }

    /// Whether handling `event` starts a focus-assist period, whose end time
    /// must be representable.
    pub open spec fn starts_focus_assist(self, event: ControlEvent) -> bool {
        (event is ZoomIn || event is ZoomOut) && self.zoom_after(event) > MIN_ZOOM
    }

    /// Change to `zoom` at `now`: a zoom above 1x is kept for `FOCUS_ASSIST_NS`,
    /// and the new level is announced.
    pub open spec fn set_zoom(self, zoom: int, now: int) -> LiveViewState {
        LiveViewState {
            confirmation: Some((zoom_label_of(zoom), now)),
            zoom,
            focus_assist_until: if zoom > MIN_ZOOM {
                Some(now + FOCUS_ASSIST_NS)
            } else {
                None
            },
        }
    }

    /// The state and action after a control event at `now`.
    pub open spec fn handle(self, event: ControlEvent, now: int) -> (LiveViewState, LiveViewAction) {
        match event {
            ControlEvent::Previous => (self.show_confirmation("previous"@, now), LiveViewAction::NoAction),
            ControlEvent::Next => (self.show_confirmation("next"@, now), LiveViewAction::NoAction),
            ControlEvent::Capture => (self, LiveViewAction::Capture),
            _ => (self.set_zoom(self.zoom_after(event), now), LiveViewAction::NoAction),
        }
    }

    /// The visible status message at `now`; an expired message is cleared.
    pub open spec fn confirmation_at(self, now: int) -> (LiveViewState, Option<Seq<char>>) {
        match self.confirmation {
            Some((message, started)) => if elapsed(now, started) < CONFIRMATION_NS {
                (self, Some(message))
            } else {
                (LiveViewState { confirmation: None, ..self }, None)
            },
            None => (self, None),
        }
    }

    /// The zoom to draw at `now`; once the focus-assist period is over the view
    /// returns to 1x.
    pub open spec fn zoom_at(self, now: int) -> (LiveViewState, int) {
        match self.focus_assist_until {
            Some(until) => if now < until {
                (self, self.zoom)
            } else {
                (
                    LiveViewState { zoom: MIN_ZOOM as int, focus_assist_until: None, ..self },
                    MIN_ZOOM as int,
                )
            },
            None => (self, MIN_ZOOM as int),
        }
    }
}

/// The view of an optional status message.
pub open spec fn message_view(message: Option<&'static str>) -> Option<Seq<char>> {
    match message {
        Some(m) => Some(m@),
        None => None,
    }
}

/// The transient state shown over the camera stream.
pub struct LiveView {
    confirmation: Option<(&'static str, u64)>,
    zoom: u8,
    focus_assist_until: Option<u64>,
}

impl View for LiveView {
    type V = LiveViewState;

    closed spec fn view(&self) -> LiveViewState {
        LiveViewState {
            confirmation: match self.confirmation {
                Some((message, started)) => Some((message@, started as int)),
                None => None,
            },
            zoom: self.zoom as int,
            focus_assist_until: match self.focus_assist_until {
                Some(until) => Some(until as int),
                None => None,
            },
        }
    }
}

impl LiveView {
    #[verifier::type_invariant]
    closed spec fn inv(self) -> bool {
        &&& MIN_ZOOM <= self.zoom <= MAX_ZOOM
        &&& self.zoom > MIN_ZOOM ==> self.focus_assist_until is Some
    }

    /// A live view at 1x with no status message.
    pub fn new() -> (view: LiveView)
        ensures
            view@ == LiveViewState::initial(),
            view@.valid(),
    {
        LiveView { confirmation: None, zoom: MIN_ZOOM, focus_assist_until: None }
    }

    /// Make the view's validity known to the caller: the zoom is within 1x to
    /// 3x, and a zoom above 1x has a focus-assist deadline. Does nothing at run time.
    pub fn view_is_valid(&self)
        ensures
            self@.valid(),
    {
        proof {
            use_type_invariant(self);
        }
    }

    /// Whether handling `event` now would start a focus-assist period, whose
    /// end `now + FOCUS_ASSIST_NS` must then fit in the clock.
    pub fn starts_focus_assist(&self, event: ControlEvent) -> (starts: bool)
        ensures
            starts == self@.starts_focus_assist(event),
    {
        proof {
            use_type_invariant(self);
        }
        match event {
            ControlEvent::ZoomIn => true,
            ControlEvent::ZoomOut => self.zoom > MIN_ZOOM + 1,
            _ => false,
        }
    }

    /// Update the visible state and report whether the application should save a frame.
    pub fn handle(&mut self, event: ControlEvent, now: u64) -> (action: LiveViewAction)
        requires
            old(self)@.starts_focus_assist(event) ==> now + FOCUS_ASSIST_NS <= u64::MAX,
        ensures
            final(self)@.valid(),
            (final(self)@, action) == old(self)@.handle(event, now as int),
    {
        proof {
            use_type_invariant(&*self);
        }
        match event {
            ControlEvent::Previous => self.show_confirmation("previous", now),
            ControlEvent::Next => self.show_confirmation("next", now),
            ControlEvent::Capture => return LiveViewAction::Capture,
            ControlEvent::ZoomIn => {
                let zoom = if self.zoom < MAX_ZOOM {
                    self.zoom + 1
                } else {
                    MAX_ZOOM
                };
                self.refresh_focus_assist(zoom, now);
                self.show_confirmation(zoom_label(zoom), now);
            },
            ControlEvent::ZoomOut => {
                let zoom = if self.zoom > MIN_ZOOM {
                    self.zoom - 1
                } else {
                    MIN_ZOOM
                };
                self.refresh_focus_assist(zoom, now);
                self.show_confirmation(zoom_label(zoom), now);
            },
        }
        LiveViewAction::NoAction
    }

    /// Show a short status message over the next frames.
    pub fn show_confirmation(&mut self, message: &'static str, now: u64)
        ensures
            final(self)@ == old(self)@.show_confirmation(message@, now as int),
    {
        proof {
            use_type_invariant(&*self);
        }
        self.confirmation = Some((message, now));
    }

    /// Return the currently visible status message, clearing it after its display duration.
    pub fn confirmation(&mut self, now: u64) -> (message: Option<&'static str>)
        ensures
            (final(self)@, message_view(message)) == old(self)@.confirmation_at(now as int),
    {
        proof {
            use_type_invariant(&*self);
        }
        match self.confirmation {
            Some((message, started)) => {
                let shown_for = if now >= started {
                    now - started
                } else {
                    0
                };
                if shown_for < CONFIRMATION_NS {
                    Some(message)
                } else {
                    self.confirmation = None;
                    None
                }
            },
            None => None,
        }
    }

    /// Return the active focus-assist zoom, returning to 1x after a short idle period.
    pub fn zoom(&mut self, now: u64) -> (zoom: u8)
        ensures
            final(self)@.valid(),
            MIN_ZOOM <= zoom <= MAX_ZOOM,
            (final(self)@, zoom as int) == old(self)@.zoom_at(now as int),
    {
        proof {
            use_type_invariant(&*self);
        }
        match self.focus_assist_until {
            Some(until) => {
                if now < until {
                    self.zoom
                } else {
                    self.zoom = MIN_ZOOM;
                    self.focus_assist_until = None;
                    MIN_ZOOM
                }
            },
            None => MIN_ZOOM,
        }
    }

    /// Switch to `zoom`, keeping a zoom above 1x for `FOCUS_ASSIST_NS` from `now`.
    fn refresh_focus_assist(&mut self, zoom: u8, now: u64)
        requires
            MIN_ZOOM <= zoom <= MAX_ZOOM,
            zoom > MIN_ZOOM ==> now + FOCUS_ASSIST_NS <= u64::MAX,
        ensures
            final(self).zoom == zoom,
            final(self).confirmation == old(self).confirmation,
            final(self).focus_assist_until == if zoom > MIN_ZOOM {
                Some((now + FOCUS_ASSIST_NS) as u64)
            } else {
                None
            },
    {
        // Both fields change in one assignment, so a zoom above 1x never
        // exists without its deadline.
        *self = LiveView {
            confirmation: self.confirmation,
            zoom,
            focus_assist_until: if zoom > MIN_ZOOM {
                Some(now + FOCUS_ASSIST_NS)
            } else {
                None
            },
        };
    }
}

/// The message announcing a zoom level.
pub fn zoom_label(zoom: u8) -> (label: &'static str)
    requires
        MIN_ZOOM <= zoom <= MAX_ZOOM,
    ensures
        label@ == zoom_label_of(zoom as int),
{
    match zoom {
        1 => "focus 1x",
        2 => "focus 2x",
        _ => "focus 3x",
    }
}

/// Handling any event keeps the zoom level within 1x to 3x.
pub proof fn lemma_handle_keeps_zoom_in_range(view: LiveViewState, event: ControlEvent, now: int)
    requires
        view.valid(),
    ensures
        view.handle(event, now).0.valid(),
{
}

/// Only the capture event asks for a capture, and it leaves the view unchanged.
pub proof fn lemma_only_capture_requests_capture(view: LiveViewState, event: ControlEvent, now: int)
    ensures
        (view.handle(event, now).1 == LiveViewAction::Capture) == (event == ControlEvent::Capture),
        event == ControlEvent::Capture ==> view.handle(event, now).0 == view,
{
}

/// Zooming in and then out returns to the previous level when it was below the
/// maximum; zooming out and then in returns to it when it was above the minimum.
pub proof fn lemma_zoom_steps_undo_each_other(view: LiveViewState, t1: int, t2: int)
    requires
        view.valid(),
    ensures
        view.zoom < MAX_ZOOM ==> view.handle(ControlEvent::ZoomIn, t1).0.handle(
            ControlEvent::ZoomOut,
            t2,
        ).0.zoom == view.zoom,
        view.zoom > MIN_ZOOM ==> view.handle(ControlEvent::ZoomOut, t1).0.handle(
            ControlEvent::ZoomIn,
            t2,
        ).0.zoom == view.zoom,
{
}

/// Each zoom change announces the new level.
pub proof fn lemma_zoom_change_announces_level(view: LiveViewState, event: ControlEvent, now: int)
    requires
        event == ControlEvent::ZoomIn || event == ControlEvent::ZoomOut,
    ensures
        view.handle(event, now).0.confirmation == Some(
            (zoom_label_of(view.handle(event, now).0.zoom), now),
        ),
{
}

/// A status message is visible for `CONFIRMATION_NS` after it was shown, and not after.
pub proof fn lemma_confirmation_window(view: LiveViewState, message: Seq<char>, shown: int, now: int)
    requires
        shown <= now,
    ensures
        view.show_confirmation(message, shown).confirmation_at(now).1 == if now - shown
            < CONFIRMATION_NS {
            Some(message)
        } else {
            None
        },
{
}

/// Once no status message is visible, none becomes visible again until a new one is shown.
pub proof fn lemma_cleared_confirmation_stays_cleared(view: LiveViewState, t1: int, t2: int)
    requires
        view.confirmation_at(t1).1 is None,
    ensures
        view.confirmation_at(t1).0.confirmation_at(t2).1 is None,
{
}

/// Reading the zoom always gives a level from 1x to 3x.
pub proof fn lemma_zoom_read_in_range(view: LiveViewState, now: int)
    requires
        view.valid(),
    ensures
        view.zoom_at(now).0.valid(),
        MIN_ZOOM <= view.zoom_at(now).1 <= MAX_ZOOM,
{
}

/// After a zoom change to a level above 1x at time `t`, that level is drawn
/// until `t + FOCUS_ASSIST_NS`; from then on the view is back at 1x.
pub proof fn lemma_focus_assist_window(view: LiveViewState, event: ControlEvent, t: int, now: int)
    requires
        view.valid(),
        view.starts_focus_assist(event),
        t <= now,
    ensures
        now < t + FOCUS_ASSIST_NS ==> view.handle(event, t).0.zoom_at(now).1 == view.zoom_after(
            event,
        ),
        now >= t + FOCUS_ASSIST_NS ==> view.handle(event, t).0.zoom_at(now).1 == MIN_ZOOM
            && view.handle(event, t).0.zoom_at(now).0.zoom == MIN_ZOOM,
{
}

/// Once the focus-assist period has ended and the zoom has been read, zooming
/// in starts again from 1x.
pub proof fn lemma_zoom_restarts_after_focus_assist(view: LiveViewState, now: int)
    requires
        view.focus_assist_until matches Some(until) && now >= until,
    ensures
        view.zoom_at(now).0.zoom_after(ControlEvent::ZoomIn) == MIN_ZOOM + 1,
{
}

/// Reading the zoom leaves the status message alone, and reading the status
/// message leaves the zoom alone.
pub proof fn lemma_reads_are_independent(view: LiveViewState, now: int)
    ensures
        view.zoom_at(now).0.confirmation == view.confirmation,
        view.confirmation_at(now).0.zoom == view.zoom,
        view.confirmation_at(now).0.focus_assist_until == view.focus_assist_until,
{
}

/// The stored zoom level is always the level that reading the zoom reports.
pub proof fn lemma_zoom_read_matches_stored(view: LiveViewState, now: int)
    requires
        view.valid(),
    ensures
        view.zoom_at(now).0.zoom == view.zoom_at(now).1,
{
}

/// A zoom step starts from the level just read: zooming in gives the next
/// level up (at most 3x), zooming out the next level down (at least 1x).
pub proof fn lemma_zoom_steps_from_level_read(view: LiveViewState, now: int, t: int)
    requires
        view.valid(),
    ensures
        ({
            let (read, level) = view.zoom_at(now);
            &&& read.handle(ControlEvent::ZoomIn, t).0.zoom == if level < MAX_ZOOM {
                level + 1
            } else {
                MAX_ZOOM as int
            }
            &&& read.handle(ControlEvent::ZoomOut, t).0.zoom == if level > MIN_ZOOM {
                level - 1
            } else {
                MIN_ZOOM as int
            }
        }),
{
}

/// Zooming in and then out at the same time, or out and then in, restores
/// the level as read: below 3x for in-then-out, above 1x for out-then-in.
pub proof fn lemma_zoom_round_trip_as_read(view: LiveViewState, now: int)
    requires
        view.valid(),
    ensures
        ({
            let (read, level) = view.zoom_at(now);
            &&& level < MAX_ZOOM ==> read.handle(ControlEvent::ZoomIn, now).0.handle(
                ControlEvent::ZoomOut,
                now,
            ).0.zoom_at(now).1 == level
            &&& level > MIN_ZOOM ==> read.handle(ControlEvent::ZoomOut, now).0.handle(
                ControlEvent::ZoomIn,
                now,
            ).0.zoom_at(now).1 == level
        }),
{
}

/// Previous and Next only show their name: they ask for no capture, keep the
/// zoom and its focus-assist deadline, and so every later zoom reading is the
/// one it would have been without the event.
pub proof fn lemma_navigation_only_shows_message(
    view: LiveViewState,
    event: ControlEvent,
    now: int,
    later: int,
)
    requires
        event == ControlEvent::Previous || event == ControlEvent::Next,
    ensures
        ({
            let (after, action) = view.handle(event, now);
            &&& action == LiveViewAction::NoAction
            &&& after.zoom == view.zoom
            &&& after.focus_assist_until == view.focus_assist_until
            &&& after.confirmation == Some(
                (
                    if event == ControlEvent::Previous {
                        "previous"@
                    } else {
                        "next"@
                    },
                    now,
                ),
            )
            &&& after.zoom_at(later).1 == view.zoom_at(later).1
        }),
{
}

} // verus!

