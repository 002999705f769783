use vstd::prelude::*;

verus! {

/// Whether a poll that sees the button `pressed` reports a new press, given
/// whether the button was already held at the poll before.
pub open spec fn fires(held: bool, pressed: bool) -> bool {
    pressed && !held
}

/// Whether the button was held just before sample `i` of `samples`, when it
/// was `start` before the first sample.
pub open spec fn held_before(start: bool, samples: Seq<bool>, i: int) -> bool {
    if i == 0 {
        start
    } else {
        samples[i - 1]
    }
}

/// Whether the poll of sample `i` of `samples` reports a press.
pub open spec fn fires_at(start: bool, samples: Seq<bool>, i: int) -> bool {
    fires(held_before(start, samples, i), samples[i])
}

/// Turns the level of a push button, sampled again and again, into one event
/// per press: a press is reported when the button goes from released to
/// pressed, and holding it down reports nothing more.
pub struct ButtonLatch {
    held: bool,
}

impl View for ButtonLatch {
    type V = bool;

    /// Whether the last poll saw the button pressed.
    closed spec fn view(&self) -> bool {
        self.held
    }
}

impl ButtonLatch {
    /// A latch that has seen the button released.
    pub fn new() -> (r: Self)
        ensures
            !r@,
    {
        ButtonLatch { held: false }
    }

    /// Takes one sample of the button; returns whether it reports a new press.
    pub fn poll(&mut self, pressed: bool) -> (fired: bool)
        ensures
            fired == fires(old(self)@, pressed),
            final(self)@ == pressed,
    {
        let fired = pressed && !self.held;
        self.held = pressed;
        fired
    }
}

/// Two reported presses are always parted by a sample with the button released.
pub proof fn lemma_presses_parted_by_release(start: bool, samples: Seq<bool>, i: int, j: int)
    requires
        0 <= i < j < samples.len(),
        fires_at(start, samples, i),
        fires_at(start, samples, j),
    ensures
        exists|k: int| i < k < j && !samples[k],
{
    assert(i < j - 1 && !samples[j - 1]);
}

/// Holding the button down over any number of samples reports one press at
/// most: at the first sample, and only if it was released before.
pub proof fn lemma_hold_fires_once(start: bool, samples: Seq<bool>, i: int)
    requires
        forall|k: int| 0 <= k < samples.len() ==> samples[k],
        0 <= i < samples.len(),
    ensures
        fires_at(start, samples, i) <==> (i == 0 && !start),
{
    if i > 0 {
        assert(samples[i - 1]);
    }
}

/// Every sample where the button goes from released to pressed is reported.
pub proof fn lemma_every_press_reported(start: bool, samples: Seq<bool>, i: int)
    requires
        0 <= i < samples.len(),
        samples[i],
        !held_before(start, samples, i),
    ensures
        fires_at(start, samples, i),
{
}

} // verus!
