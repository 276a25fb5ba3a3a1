//! The press-edge and release-debounce rule shared by the navigation buttons
//! and the encoder's push switch.
use vstd::prelude::*;

verus! {

/// A released switch must be read as released on this many consecutive samples
/// before another press can register.
pub const RELEASE_SAMPLES: u8 = 3;

/// Abstract state of one debounced, active-low switch.
pub struct DebounceView {
    /// The switch is considered held down.
    pub pressed: bool,
    /// Consecutive released samples seen since the switch was last read low.
    pub released_samples: nat,
}

impl DebounceView {
    /// The state of a switch that has never been pressed.
    pub open spec fn idle() -> DebounceView {
        DebounceView { pressed: false, released_samples: 0 }
    }

    pub open spec fn valid(self) -> bool {
        &&& self.released_samples <= RELEASE_SAMPLES
        &&& self.pressed ==> self.released_samples < RELEASE_SAMPLES
    }

    /// One sample of the switch; `low` means it reads as held. The result is the
    /// next state and whether this sample begins a new press.
    pub open spec fn sample(self, low: bool) -> (DebounceView, bool) {
        if low {
            (DebounceView { pressed: true, released_samples: 0 }, !self.pressed)
        } else if self.pressed {
            let count = self.released_samples + 1;
            (DebounceView { pressed: count < RELEASE_SAMPLES, released_samples: count }, false)
        } else {
            (self, false)
        }
    }

    /// The state after `n` consecutive released samples.
    pub open spec fn after_released(self, n: nat) -> DebounceView
        decreases n,
    {
        if n == 0 {
            self
        } else {
            self.sample(false).0.after_released((n - 1) as nat)
        }
    }
}

/// Sampling keeps a switch state valid.
pub proof fn lemma_sample_valid(s: DebounceView, low: bool)
    requires
        s.valid(),
    ensures
        s.sample(low).0.valid(),
{
}

/// A switch that stays held is reported once: the sample after the one that
/// reported a press does not report another.
pub proof fn lemma_held_switch_reported_once(s: DebounceView)
    requires
        s.valid(),
    ensures
        !s.sample(true).0.sample(true).1,
{
}

/// After `n` released samples, holding the switch reports a new press exactly
/// when the switch was not held before, or the released samples now reach
/// `RELEASE_SAMPLES` in a row.
pub proof fn lemma_press_after_release(s: DebounceView, n: nat)
    requires
        s.valid(),
    ensures
        s.after_released(n).valid(),
        s.after_released(n).sample(true).1 == (!s.pressed || s.released_samples + n
            >= RELEASE_SAMPLES),
    decreases n,
{
    if n > 0 {
        lemma_press_after_release(s.sample(false).0, (n - 1) as nat);
    }
}

} // verus!
