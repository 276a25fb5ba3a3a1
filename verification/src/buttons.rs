//! Press-edge detection and release debouncing for the three rear navigation
//! buttons. The caller samples the pins and passes their levels in.
use vstd::prelude::*;
use crate::debounce::{DebounceView, RELEASE_SAMPLES};

verus! {

/// The number of rear navigation buttons.
pub const BUTTON_COUNT: usize = 3;

/// The three navigation buttons on the rear of the P4X-EYE.
#[derive(Clone, Copy, Debug, PartialEq, Eq, Structural)]
pub enum Button {
    Previous,
    Next,
    Enter,
}

impl Button {
    /// The position of the button in the scan order: previous, next, enter.
    pub open spec fn index_of(self) -> int {
        match self {
            Button::Previous => 0,
            Button::Next => 1,
            Button::Enter => 2,
        }
    }

    pub open spec fn label_of(self) -> Seq<char> {
        match self {
            Button::Previous => "previous"@,
            Button::Next => "next"@,
            Button::Enter => "enter"@,
        }
    }

    /// The button at `index` in the scan order.
    pub fn from_index(index: usize) -> (button: Button)
        requires
            index < BUTTON_COUNT,
        ensures
            button.index_of() == index,
    {
        match index {
            0 => Button::Previous,
            1 => Button::Next,
            _ => Button::Enter,
        }
    }

    /// The text shown on the LCD for this button.
    pub fn label(self) -> (label: &'static str)
        ensures
            label@ == self.label_of(),
    {
        match self {
            Button::Previous => "previous",
            Button::Next => "next",
            Button::Enter => "enter",
        }
    }
}

/// Abstract state of the three button debouncers, in scan order.
pub struct ButtonsView {
    pub keys: Seq<DebounceView>,
}

impl ButtonsView {
    pub open spec fn valid(self) -> bool {
        &&& self.keys.len() == BUTTON_COUNT
        &&& forall|i: int| 0 <= i < BUTTON_COUNT ==> #[trigger] self.keys[i].valid()
    }

    /// Sample the buttons from index `i` on, stopping at the first that begins a
    /// new press. Returns the updated debouncers and the index of that button.
    pub open spec fn scan_from(keys: Seq<DebounceView>, low: Seq<bool>, i: int) -> (Seq<DebounceView>, Option<int>)
        decreases BUTTON_COUNT - i,
    {
        if i < 0 || i >= BUTTON_COUNT {
            (keys, None)
        } else {
            let (key, press) = keys[i].sample(low[i]);
            let keys2 = keys.update(i, key);
            if press {
                (keys2, Some(i))
            } else {
                Self::scan_from(keys2, low, i + 1)
            }
        }
    }

    /// One poll with the given pin levels (`low[i]` means button `i` is held):
    /// the next state and the index of the button whose press is reported.
    pub open spec fn poll(self, low: Seq<bool>) -> (ButtonsView, Option<int>) {
        let (keys, found) = Self::scan_from(self.keys, low, 0);
        (ButtonsView { keys }, found)
    }
}

/// Polling debouncer for the rear navigation buttons.
pub struct Buttons {
    pressed: [bool; 3],
    released_samples: [u8; 3],
}

impl View for Buttons {
    type V = ButtonsView;

    closed spec fn view(&self) -> ButtonsView {
        ButtonsView {
            keys: Seq::new(
                3,
                |i: int|
                    DebounceView {
                        pressed: self.pressed@[i],
                        released_samples: self.released_samples@[i] as nat,
                    },
            ),
        }
    }
}

impl Buttons {
    #[verifier::type_invariant]
    closed spec fn inv(self) -> bool {
        forall|i: int|
            0 <= i < 3 ==> #[trigger] self.released_samples@[i] <= RELEASE_SAMPLES && (
            self.pressed@[i] ==> self.released_samples@[i] < RELEASE_SAMPLES)
    }

    /// Make the view's validity known to the caller: there are three debouncers, each
    /// with a bounded release count. Does nothing at run time.
    pub fn view_is_valid(&self)
        ensures
            self@.valid(),
    {
        proof {
            use_type_invariant(self);
        }
    }

    /// Debouncers for three buttons that are not held.
    pub fn new() -> (buttons: Buttons)
        ensures
            buttons@.valid(),
            buttons@.keys == Seq::new(3, |i: int| DebounceView::idle()),
    {
        let buttons = Buttons { pressed: [false, false, false], released_samples: [0, 0, 0] };
        assert(buttons@.keys =~= Seq::new(3, |i: int| DebounceView::idle()));
        buttons
    }

    /// Return a button once for each press, given the current pin levels
    /// (`low[i]` is true while button `i` of the scan order is held). Call
    /// this regularly; the main loop polls every frame.
    pub fn pressed(&mut self, low: [bool; 3]) -> (button: Option<Button>)
        ensures
            final(self)@.valid(),
            final(self)@ == old(self)@.poll(low@).0,
            match old(self)@.poll(low@).1 {
                Some(i) => button matches Some(b) && b.index_of() == i,
                None => button is None,
            },
    {
        proof {
            use_type_invariant(&*self);
        }
        let ghost start = self@.keys;
        let mut index: usize = 0;
        while index < BUTTON_COUNT
            invariant
                index <= BUTTON_COUNT,
                self@.valid(),
                start == old(self)@.keys,
                ButtonsView::scan_from(start, low@, 0) == ButtonsView::scan_from(
                    self@.keys,
                    low@,
                    index as int,
                ),
            decreases BUTTON_COUNT - index,
        {
            proof {
                use_type_invariant(&*self);
            }
            let ghost before = self@.keys;
            if low[index] {
                self.released_samples[index] = 0;
                if !self.pressed[index] {
                    self.pressed[index] = true;
                    proof {
                        assert(self@.keys =~= before.update(
                            index as int,
                            before[index as int].sample(low@[index as int]).0,
                        ));
                        assert(ButtonsView::scan_from(before, low@, index as int) == (
                            self@.keys,
                            Some(index as int),
                        ));
                    }
                    return Some(Button::from_index(index));
                }
            } else if self.pressed[index] {
                let count = self.released_samples[index] + 1;
                if count >= RELEASE_SAMPLES {
                    self.pressed[index] = false;
                }
                self.released_samples[index] = count;
            }
            proof {
                assert(self@.keys =~= before.update(
                    index as int,
                    before[index as int].sample(low@[index as int]).0,
                ));
            }
            index = index + 1;
        }
        None
    }
}

/// Scanning from index `i` keeps every debouncer valid and reports, if anything,
/// a button at or after `i`.
proof fn lemma_scan_valid(keys: Seq<DebounceView>, low: Seq<bool>, i: int)
    requires
        keys.len() == BUTTON_COUNT,
        forall|j: int| 0 <= j < BUTTON_COUNT ==> #[trigger] keys[j].valid(),
        0 <= i,
    ensures
        ButtonsView::scan_from(keys, low, i).0.len() == BUTTON_COUNT,
        forall|j: int|
            0 <= j < BUTTON_COUNT ==> #[trigger] ButtonsView::scan_from(keys, low, i).0[j].valid(),
        ButtonsView::scan_from(keys, low, i).1 matches Some(k) ==> i <= k < BUTTON_COUNT,
    decreases BUTTON_COUNT - i,
{
    if i < BUTTON_COUNT {
        let (key, press) = keys[i].sample(low[i]);
        crate::debounce::lemma_sample_valid(keys[i], low[i]);
        let keys2 = keys.update(i, key);
        assert forall|j: int| 0 <= j < BUTTON_COUNT implies #[trigger] keys2[j].valid() by {}
        if !press {
            lemma_scan_valid(keys2, low, i + 1);
        }
    }
}

/// Polling keeps the debouncers valid and reports at most one of the buttons.
pub proof fn lemma_poll_valid(v: ButtonsView, low: Seq<bool>)
    requires
        v.valid(),
    ensures
        v.poll(low).0.valid(),
        v.poll(low).1 matches Some(i) ==> 0 <= i < BUTTON_COUNT,
{
    lemma_scan_valid(v.keys, low, 0);
}

/// Buttons pressed together are reported one per poll, in scan order, each once.
pub proof fn lemma_simultaneous_presses_reported_in_order(v: ButtonsView)
    requires
        v.valid(),
        forall|i: int| 0 <= i < BUTTON_COUNT ==> !(#[trigger] v.keys[i]).pressed,
    ensures
        ({
            let held = seq![true, true, true];
            let (v1, b1) = v.poll(held);
            let (v2, b2) = v1.poll(held);
            let (v3, b3) = v2.poll(held);
            let (v4, b4) = v3.poll(held);
            &&& b1 == Some(0int)
            &&& b2 == Some(1int)
            &&& b3 == Some(2int)
            &&& b4 is None
        }),
{
    let held = seq![true, true, true];
    assert(!v.keys[0].pressed && !v.keys[1].pressed && !v.keys[2].pressed);
    reveal_with_fuel(ButtonsView::scan_from, 4);
}

/// A scan that reports button `i` leaves it held; a scan over a held button
/// that is still low never reports it.
proof fn lemma_scan_reports_held(keys: Seq<DebounceView>, low: Seq<bool>, s: int, i: int)
    requires
        keys.len() == BUTTON_COUNT,
        0 <= s,
        0 <= i < BUTTON_COUNT,
    ensures
        ButtonsView::scan_from(keys, low, s).1 == Some(i) ==> ButtonsView::scan_from(
            keys,
            low,
            s,
        ).0[i].pressed && low[i],
        keys[i].pressed && low[i] ==> ButtonsView::scan_from(keys, low, s).1 != Some(i),
        ButtonsView::scan_from(keys, low, s).0.len() == BUTTON_COUNT,
    decreases BUTTON_COUNT - s,
{
    if s < BUTTON_COUNT {
        let (key, press) = keys[s].sample(low[s]);
        let keys2 = keys.update(s, key);
        if !press {
            lemma_scan_reports_held(keys2, low, s + 1, i);
        }
    }
}

/// A button that stays held is reported once: the poll after the one that
/// reported it does not report it again.
pub proof fn lemma_held_button_reported_once(v: ButtonsView, low: Seq<bool>, i: int)
    requires
        v.valid(),
        0 <= i < BUTTON_COUNT,
        v.poll(low).1 == Some(i),
    ensures
        v.poll(low).0.poll(low).1 != Some(i),
{
    lemma_scan_reports_held(v.keys, low, 0, i);
    lemma_scan_reports_held(v.poll(low).0.keys, low, 0, i);
}

/// Whether button `j` begins a new press on this poll: it reads low and was not held.
pub open spec fn fresh_press(keys: Seq<DebounceView>, low: Seq<bool>, j: int) -> bool {
    low[j] && !keys[j].pressed
}

/// What a scan from index `s` reports and which debouncers it samples.
proof fn lemma_scan_facts(keys: Seq<DebounceView>, low: Seq<bool>, s: int)
    requires
        keys.len() == BUTTON_COUNT,
        0 <= s,
    ensures
        ({
            let (w, r) = ButtonsView::scan_from(keys, low, s);
            &&& w.len() == BUTTON_COUNT
            &&& forall|j: int| 0 <= j < s && j < BUTTON_COUNT ==> #[trigger] w[j] == keys[j]
            &&& r is Some ==> s <= r->0 < BUTTON_COUNT && fresh_press(keys, low, r->0) && (
            forall|j: int| s <= j < r->0 ==> !#[trigger] fresh_press(keys, low, j))
            &&& r is None ==> forall|j: int|
                s <= j < BUTTON_COUNT ==> !#[trigger] fresh_press(keys, low, j)
            &&& forall|j: int|
                s <= j < BUTTON_COUNT && (r is None || j <= r->0) ==> #[trigger] w[j]
                    == keys[j].sample(low[j]).0
            &&& forall|j: int|
                s <= j < BUTTON_COUNT && r is Some && j > r->0 ==> #[trigger] w[j]
                    == keys[j]
        }),
    decreases BUTTON_COUNT - s,
{
    if s < BUTTON_COUNT {
        let (key, press) = keys[s].sample(low[s]);
        let keys2 = keys.update(s, key);
        if !press {
            lemma_scan_facts(keys2, low, s + 1);
            let (w, r) = ButtonsView::scan_from(keys2, low, s + 1);
            assert forall|j: int| s + 1 <= j < BUTTON_COUNT implies fresh_press(keys2, low, j)
                == fresh_press(keys, low, j) by {}
        }
    }
}

/// A poll reports button `i` exactly when `i` is the first button, in scan
/// order, that reads low while not held; it reports nothing when no button
/// does.
pub proof fn lemma_poll_reports_first_fresh_press(v: ButtonsView, low: Seq<bool>)
    requires
        v.valid(),
    ensures
        v.poll(low).1 is Some ==> 0 <= v.poll(low).1->0 < BUTTON_COUNT && fresh_press(
            v.keys,
            low,
            v.poll(low).1->0,
        ) && forall|j: int| 0 <= j < v.poll(low).1->0 ==> !#[trigger] fresh_press(v.keys, low, j),
        v.poll(low).1 is None ==> forall|j: int|
            0 <= j < BUTTON_COUNT ==> !#[trigger] fresh_press(v.keys, low, j),
{
    lemma_scan_facts(v.keys, low, 0);
}

/// Each button's debouncer after a poll, with the same rule for every button.
/// A button the scan reaches (up to and including the one reported) is sampled:
/// reading low leaves it held with its released-sample count reset to 0;
/// reading released while held adds one to that count, and it stays held until
/// the count reaches `RELEASE_SAMPLES`; a released button that was not held is
/// left as it was. Buttons after the reported one are not sampled.
pub proof fn lemma_poll_updates_each_button(v: ButtonsView, low: Seq<bool>, i: int)
    requires
        v.valid(),
        0 <= i < BUTTON_COUNT,
    ensures
        ({
            let (w, r) = v.poll(low);
            let reached = r is None || i <= r->0;
            &&& reached && low[i] ==> w.keys[i].pressed && w.keys[i].released_samples == 0
            &&& reached && !low[i] && v.keys[i].pressed ==> w.keys[i].released_samples
                == v.keys[i].released_samples + 1 && w.keys[i].pressed == (
            v.keys[i].released_samples + 1 < RELEASE_SAMPLES)
            &&& reached && !low[i] && !v.keys[i].pressed ==> w.keys[i] == v.keys[i]
            &&& !reached ==> w.keys[i] == v.keys[i]
        }),
{
    lemma_scan_facts(v.keys, low, 0);
    let (w, r) = v.poll(low);
    assert(w.keys[i] == w.keys[i]);
}

/// A button reported once is not reported again until it has read released on
/// `RELEASE_SAMPLES` consecutive polls: with the other buttons released, a
/// button just pressed, then released for two polls, then low again, is not
/// reported; released for three polls, then low, it is.
pub proof fn lemma_button_rearms_after_three_released_polls(v: ButtonsView, i: int)
    requires
        v.valid(),
        0 <= i < BUTTON_COUNT,
        forall|j: int| 0 <= j < BUTTON_COUNT && j != i ==> !(#[trigger] v.keys[j]).pressed,
    ensures
        ({
            let held = Seq::new(3, |j: int| j == i);
            let released = seq![false, false, false];
            let (v1, r1) = v.poll(held);
            let (v2, r2) = v1.poll(released);
            let (v3, r3) = v2.poll(released);
            let (b, rb) = v3.poll(held);
            let (v4, r4) = v3.poll(released);
            let (v5, r5) = v4.poll(held);
            let (b2, rb2) = b.poll(released);
            let (b3, rb3) = b2.poll(held);
            &&& r1 == Some(i) <==> !v.keys[i].pressed
            &&& rb is None
            &&& rb3 is None
            &&& r5 == Some(i)
        }),
{
    let held = Seq::new(3, |j: int| j == i);
    let released = seq![false, false, false];
    assert(forall|j: int| 0 <= j < BUTTON_COUNT ==> !#[trigger] fresh_press(v.keys, released, j));
    lemma_poll_reports_first_fresh_press(v, held);
    lemma_poll_valid(v, held);
    let (v1, r1) = v.poll(held);
    assert forall|j: int| 0 <= j < BUTTON_COUNT && j != i implies !#[trigger] fresh_press(
        v.keys,
        held,
        j,
    ) by {}
    assert(fresh_press(v.keys, held, i) == !v.keys[i].pressed);
    assert forall|j: int| 0 <= j < BUTTON_COUNT implies (#[trigger] v1.keys[j]).pressed == (j == i
        || v.keys[j].pressed) by {
        lemma_poll_updates_each_button(v, held, j);
    }
    lemma_poll_updates_each_button(v, held, i);
    assert(v1.keys[i].released_samples == 0);
    lemma_poll_valid(v1, released);
    lemma_poll_reports_first_fresh_press(v1, released);
    let (v2, r2) = v1.poll(released);
    assert forall|j: int| 0 <= j < BUTTON_COUNT implies (#[trigger] v2.keys[j]).pressed == (j == i) by {
        lemma_poll_updates_each_button(v1, released, j);
    }
    lemma_poll_updates_each_button(v1, released, i);
    assert(v2.keys[i].released_samples == 1);
    lemma_poll_valid(v2, released);
    lemma_poll_reports_first_fresh_press(v2, released);
    let (v3, r3) = v2.poll(released);
    assert forall|j: int| 0 <= j < BUTTON_COUNT implies (#[trigger] v3.keys[j]).pressed == (j == i) by {
        lemma_poll_updates_each_button(v2, released, j);
    }
    lemma_poll_updates_each_button(v2, released, i);
    assert(v3.keys[i].released_samples == 2);
    lemma_poll_reports_first_fresh_press(v3, held);
    assert forall|j: int| 0 <= j < BUTTON_COUNT implies !#[trigger] fresh_press(v3.keys, held, j) by {}
    lemma_poll_valid(v3, released);
    lemma_poll_reports_first_fresh_press(v3, released);
    let (v4, r4) = v3.poll(released);
    assert forall|j: int| 0 <= j < BUTTON_COUNT implies !(#[trigger] v4.keys[j]).pressed by {
        lemma_poll_updates_each_button(v3, released, j);
    }
    lemma_poll_reports_first_fresh_press(v4, held);
    assert(fresh_press(v4.keys, held, i));
    assert forall|j: int| 0 <= j < i implies !#[trigger] fresh_press(v4.keys, held, j) by {}
    // The bounce back to low restarts the release count.
    let (b, rb) = v3.poll(held);
    lemma_poll_valid(v3, held);
    assert forall|j: int| 0 <= j < BUTTON_COUNT implies (#[trigger] b.keys[j]).pressed == (j == i) by {
        lemma_poll_updates_each_button(v3, held, j);
    }
    lemma_poll_updates_each_button(v3, held, i);
    assert(b.keys[i].released_samples == 0);
    lemma_poll_valid(b, released);
    lemma_poll_reports_first_fresh_press(b, released);
    let (b2, rb2) = b.poll(released);
    assert forall|j: int| 0 <= j < BUTTON_COUNT implies (#[trigger] b2.keys[j]).pressed == (j == i) by {
        lemma_poll_updates_each_button(b, released, j);
    }
    lemma_poll_reports_first_fresh_press(b2, held);
    assert forall|j: int| 0 <= j < BUTTON_COUNT implies !#[trigger] fresh_press(b2.keys, held, j) by {}
}

} // verus!

