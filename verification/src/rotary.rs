//! Decoder for the rear rotary encoder: a debounced push switch and a
//! quadrature pair whose Gray-code steps are counted into detents.
use vstd::prelude::*;
use crate::debounce::{DebounceView, RELEASE_SAMPLES};

verus! {

/// Quadrature steps in one detent of the encoder.
pub const STEPS_PER_DETENT: i8 = 4;

/// One user action from the rotary encoder.
#[derive(Clone, Copy, Debug, PartialEq, Eq, Structural)]
pub enum RotaryEvent {
    Pressed,
    Clockwise,
    CounterClockwise,
}

/// The two-bit phase state read from the encoder: phase A is the high bit.
pub open spec fn phase_of(phase_a_high: bool, phase_b_high: bool) -> int {
    (if phase_a_high { 2int } else { 0int }) + (if phase_b_high { 1int } else { 0int })
}

/// The next phase state when turning clockwise: 00, 01, 11, 10, then 00 again.
pub open spec fn clockwise_next(state: int) -> int {
    if state == 0 {
        1
    } else if state == 1 {
        3
    } else if state == 3 {
        2
    } else {
        0
    }
}

/// The next phase state when turning counterclockwise: 00, 10, 11, 01, then 00 again.
pub open spec fn counter_clockwise_next(state: int) -> int {
    if state == 0 {
        2
    } else if state == 2 {
        3
    } else if state == 3 {
        1
    } else {
        0
    }
}

/// What a move from phase state `from` to `to` adds to the step count: one
/// clockwise step, one counterclockwise step, or nothing (no change, or a
/// skipped state in which both phases changed at once).
pub open spec fn step_value(from: int, to: int) -> int {
    if to == clockwise_next(from) {
        1
    } else if to == counter_clockwise_next(from) {
        -1
    } else {
        0
    }
}

/// Abstract state of the encoder decoder.
pub struct RotaryView {
    pub switch: DebounceView,
    /// The phase state at the previous sample.
    pub previous_state: int,
    /// Net quadrature steps since the last reported detent.
    pub transition_count: int,
}

impl RotaryView {
    pub open spec fn valid(self) -> bool {
        &&& self.switch.valid()
        &&& 0 <= self.previous_state < 4
        &&& -STEPS_PER_DETENT < self.transition_count < STEPS_PER_DETENT
    }

    /// The state of a decoder started while the phases read `state`.
    pub open spec fn started(state: int) -> RotaryView {
        RotaryView { switch: DebounceView::idle(), previous_state: state, transition_count: 0 }
    }

    /// One sample of the encoder: the push switch (`switch_low` while held) and
    /// the phase state. A new press is reported before, and instead of, any
    /// rotation; otherwise four net steps in one direction report one detent.
    pub open spec fn poll(self, switch_low: bool, state: int) -> (RotaryView, Option<RotaryEvent>) {
        let (switch, press) = self.switch.sample(switch_low);
        if press {
            (RotaryView { switch, ..self }, Some(RotaryEvent::Pressed))
        } else {
            let count = self.transition_count + step_value(self.previous_state, state);
            if count >= STEPS_PER_DETENT {
                (
                    RotaryView { switch, previous_state: state, transition_count: 0 },
                    Some(RotaryEvent::Clockwise),
                )
            } else if count <= -STEPS_PER_DETENT {
                (
                    RotaryView { switch, previous_state: state, transition_count: 0 },
                    Some(RotaryEvent::CounterClockwise),
                )
            } else {
                (RotaryView { switch, previous_state: state, transition_count: count }, None)
            }
        }
    }
}

/// Combine the two phase levels into the encoder's two-bit state.
pub fn pin_state(phase_a_high: bool, phase_b_high: bool) -> (state: u8)
    ensures
        state == phase_of(phase_a_high, phase_b_high),
        state < 4,
{
    let a: u8 = if phase_a_high { 1 } else { 0 };
    let b: u8 = if phase_b_high { 1 } else { 0 };
    assert(a <= 1 && b <= 1 ==> (a << 1u8) | b == 2 * a + b) by (bit_vector);
    (a << 1u8) | b
}

/// Sampling decoder for the push switch and the quadrature phases.
pub struct Rotary {
    previous_state: u8,
    transition_count: i8,
    switch_pressed: bool,
    released_samples: u8,
}

impl View for Rotary {
    type V = RotaryView;

    closed spec fn view(&self) -> RotaryView {
        RotaryView {
            switch: DebounceView {
                pressed: self.switch_pressed,
                released_samples: self.released_samples as nat,
            },
            previous_state: self.previous_state as int,
            transition_count: self.transition_count as int,
        }
    }
}

impl Rotary {
    #[verifier::type_invariant]
    closed spec fn inv(self) -> bool {
        &&& self.released_samples <= RELEASE_SAMPLES
        &&& self.switch_pressed ==> self.released_samples < RELEASE_SAMPLES
        &&& self.previous_state < 4
        &&& -STEPS_PER_DETENT < self.transition_count < STEPS_PER_DETENT
    }

    /// Make the view's validity known to the caller: the switch state is valid, the phase
    /// is below 4 and fewer than four steps are pending. Does nothing at run time.
    pub fn view_is_valid(&self)
        ensures
            self@.valid(),
    {
        proof {
            use_type_invariant(self);
        }
    }

    /// A decoder whose phases currently read the given levels and whose switch
    /// is not held.
    pub fn new(phase_a_high: bool, phase_b_high: bool) -> (rotary: Rotary)
        ensures
            rotary@.valid(),
            rotary@ == RotaryView::started(phase_of(phase_a_high, phase_b_high)),
    {
        let previous_state = pin_state(phase_a_high, phase_b_high);
        Rotary { previous_state, transition_count: 0, switch_pressed: false, released_samples: 0 }
    }

    /// Take one sample, every 2 ms: `switch_low` while the push switch is held,
    /// and the levels of phases A and B. Returns the press or detent that this
    /// sample completes, if any.
    pub fn poll(&mut self, switch_low: bool, phase_a_high: bool, phase_b_high: bool) -> (event:
        Option<RotaryEvent>)
        ensures
            final(self)@.valid(),
            (final(self)@, event) == old(self)@.poll(
                switch_low,
                phase_of(phase_a_high, phase_b_high),
            ),
    {
        proof {
            use_type_invariant(&*self);
        }
        if switch_low {
            self.released_samples = 0;
            if !self.switch_pressed {
                self.switch_pressed = true;
                return Some(RotaryEvent::Pressed);
            }
        } else if self.switch_pressed {
            let count = self.released_samples + 1;
            if count >= RELEASE_SAMPLES {
                self.switch_pressed = false;
            }
            self.released_samples = count;
        }
        let state = pin_state(phase_a_high, phase_b_high);
        let previous = self.previous_state;
        assert(previous < 4 && state < 4 ==> (previous << 2u8) | state == 4 * previous + state)
            by (bit_vector);
        let transition = (previous << 2u8) | state;
        self.previous_state = state;
        let delta: i8 = match transition {
            0b0001 | 0b0111 | 0b1110 | 0b1000 => 1,
            0b0010 | 0b0100 | 0b1101 | 0b1011 => -1,
            _ => 0,
        };
        assert(delta == step_value(previous as int, state as int));
        let count = self.transition_count + delta;
        if count >= STEPS_PER_DETENT {
            self.transition_count = 0;
            Some(RotaryEvent::Clockwise)
        } else if count <= -STEPS_PER_DETENT {
            self.transition_count = 0;
            Some(RotaryEvent::CounterClockwise)
        } else {
            self.transition_count = count;
            None
        }
    }
}

/// Polling keeps the decoder state valid.
pub proof fn lemma_poll_valid(r: RotaryView, switch_low: bool, state: int)
    requires
        r.valid(),
        0 <= state < 4,
    ensures
        r.poll(switch_low, state).0.valid(),
{
}

/// Four clockwise phase steps from a decoder with no pending steps report one
/// clockwise detent, on the fourth step, and leave no pending steps.
pub proof fn lemma_clockwise_detent(r: RotaryView)
    requires
        r.valid(),
        r.transition_count == 0,
    ensures
        ({
            let s1 = clockwise_next(r.previous_state);
            let s2 = clockwise_next(s1);
            let s3 = clockwise_next(s2);
            let s4 = clockwise_next(s3);
            let (r1, e1) = r.poll(false, s1);
            let (r2, e2) = r1.poll(false, s2);
            let (r3, e3) = r2.poll(false, s3);
            let (r4, e4) = r3.poll(false, s4);
            &&& e1 is None && e2 is None && e3 is None
            &&& e4 == Some(RotaryEvent::Clockwise)
            &&& s4 == r.previous_state
            &&& r4.previous_state == r.previous_state
            &&& r4.transition_count == 0
        }),
{
}

/// Four counterclockwise phase steps from a decoder with no pending steps
/// report one counterclockwise detent, on the fourth step.
pub proof fn lemma_counter_clockwise_detent(r: RotaryView)
    requires
        r.valid(),
        r.transition_count == 0,
    ensures
        ({
            let s1 = counter_clockwise_next(r.previous_state);
            let s2 = counter_clockwise_next(s1);
            let s3 = counter_clockwise_next(s2);
            let s4 = counter_clockwise_next(s3);
            let (r1, e1) = r.poll(false, s1);
            let (r2, e2) = r1.poll(false, s2);
            let (r3, e3) = r2.poll(false, s3);
            let (r4, e4) = r3.poll(false, s4);
            &&& e1 is None && e2 is None && e3 is None
            &&& e4 == Some(RotaryEvent::CounterClockwise)
            &&& s4 == r.previous_state
            &&& r4.previous_state == r.previous_state
            &&& r4.transition_count == 0
        }),
{
}

/// A clockwise step that is turned back restores the pending step count.
pub proof fn lemma_reversed_step_cancels(r: RotaryView)
    requires
        r.valid(),
        r.transition_count < STEPS_PER_DETENT - 1,
    ensures
        ({
            let (r1, e1) = r.poll(false, clockwise_next(r.previous_state));
            let (r2, e2) = r1.poll(false, r.previous_state);
            &&& e1 is None && e2 is None
            &&& r2.previous_state == r.previous_state
            &&& r2.transition_count == r.transition_count
        }),
{
}

/// A sample without movement, or one where both phases changed at once,
/// adds no step.
pub proof fn lemma_no_step_without_single_phase_change(state: int)
    requires
        0 <= state < 4,
    ensures
        step_value(state, state) == 0,
        step_value(state, 3 - state) == 0,
{
}

/// A new press of the push switch is reported and leaves the rotation state untouched.
pub proof fn lemma_press_preempts_rotation(r: RotaryView, state: int)
    requires
        r.valid(),
        !r.switch.pressed,
    ensures
        r.poll(true, state).1 == Some(RotaryEvent::Pressed),
        r.poll(true, state).0.previous_state == r.previous_state,
        r.poll(true, state).0.transition_count == r.transition_count,
{
}

/// The push switch, sample by sample. A low sample reports `Pressed` exactly
/// when the switch was not already held, and in every case leaves it held with
/// its released-sample count reset to 0. A released sample never reports a
/// press; while the switch is held it adds one to the released-sample count,
/// and the switch stays held until that count reaches `RELEASE_SAMPLES`.
/// A released switch is left as it was.
pub proof fn lemma_switch_sample_by_sample(r: RotaryView, state: int)
    requires
        r.valid(),
    ensures
        (r.poll(true, state).1 == Some(RotaryEvent::Pressed)) == !r.switch.pressed,
        r.poll(true, state).0.switch.pressed,
        r.poll(true, state).0.switch.released_samples == 0,
        r.poll(false, state).1 != Some(RotaryEvent::Pressed),
        r.switch.pressed ==> r.poll(false, state).0.switch.released_samples
            == r.switch.released_samples + 1,
        r.switch.pressed ==> (r.poll(false, state).0.switch.pressed == (r.switch.released_samples
            + 1 < RELEASE_SAMPLES)),
        !r.switch.pressed ==> r.poll(false, state).0.switch == r.switch,
{
}

/// After a press, the switch reports `Pressed` again only once it has read
/// released on `RELEASE_SAMPLES` consecutive samples: a bounce back to low
/// after fewer released samples is no new press, whatever the phases read.
pub proof fn lemma_press_rearms_after_three_released_samples(
    r: RotaryView,
    s1: int,
    s2: int,
    s3: int,
    s4: int,
    s5: int,
)
    requires
        r.valid(),
        0 <= s1 < 4,
        0 <= s2 < 4,
        0 <= s3 < 4,
        0 <= s4 < 4,
        0 <= s5 < 4,
    ensures
        ({
            let (r1, e1) = r.poll(true, s1);
            let (r2, e2) = r1.poll(false, s2);
            let (r3, e3) = r2.poll(false, s3);
            let (b, eb) = r3.poll(true, s4);
            let (r4, e4) = r3.poll(false, s4);
            let (r5, e5) = r4.poll(true, s5);
            &&& e2 != Some(RotaryEvent::Pressed) && e3 != Some(RotaryEvent::Pressed)
            &&& eb != Some(RotaryEvent::Pressed)
            &&& e4 != Some(RotaryEvent::Pressed)
            &&& e5 == Some(RotaryEvent::Pressed)
        }),
{
    lemma_poll_valid(r, true, s1);
    let (r1, e1) = r.poll(true, s1);
    lemma_poll_valid(r1, false, s2);
    let (r2, e2) = r1.poll(false, s2);
    lemma_poll_valid(r2, false, s3);
}

/// A bounce resets the release count: after a press, two released samples,
/// a low sample and two more released samples, a low sample is still no new press.
pub proof fn lemma_bounce_resets_release_count(
    r: RotaryView,
    s1: int,
    s2: int,
    s3: int,
    s4: int,
    s5: int,
    s6: int,
)
    requires
        r.valid(),
        !r.switch.pressed,
        0 <= s1 < 4,
        0 <= s2 < 4,
        0 <= s3 < 4,
        0 <= s4 < 4,
        0 <= s5 < 4,
        0 <= s6 < 4,
    ensures
        ({
            let (r1, e1) = r.poll(true, s1);
            let (r2, e2) = r1.poll(false, s2);
            let (r3, e3) = r2.poll(false, s3);
            let (r4, e4) = r3.poll(true, s4);
            let (r5, e5) = r4.poll(false, s5);
            let (r6, e6) = r5.poll(true, s6);
            &&& e1 == Some(RotaryEvent::Pressed)
            &&& e4 != Some(RotaryEvent::Pressed)
            &&& e6 != Some(RotaryEvent::Pressed)
        }),
{
}

} // verus!

