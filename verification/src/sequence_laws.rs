use vstd::prelude::*;

use crate::latch::fires_at;
use crate::station::{run_mark, Entry, Event, StationView};
use crate::station_laws::lemma_next_keeps_inv;

verus! {

/// The state after the station takes `events` in order.
pub open spec fn run_events<T>(v: StationView<T>, events: Seq<Event<T>>) -> StationView<T>
    decreases events.len(),
{
    if events.len() == 0 {
        v
    } else {
        run_events(v, events.drop_last()).next(events.last())
    }
}

/// Whether the station can take `events` in order.
pub open spec fn accepts_all<T>(v: StationView<T>, events: Seq<Event<T>>) -> bool
    decreases events.len(),
{
    if events.len() == 0 {
        true
    } else {
        accepts_all(v, events.drop_last()) && run_events(v, events.drop_last()).accepts(
            events.last(),
        )
    }
}

/// How many of `events` flip the user mark.
pub open spec fn mark_flips<T>(events: Seq<Event<T>>) -> nat
    decreases events.len(),
{
    if events.len() == 0 {
        0
    } else {
        mark_flips(events.drop_last()) + if events.last() is ToggleUserMark {
            1nat
        } else {
            0nat
        }
    }
}

/// The value of the last sensor reading among `events`, if there is one.
pub open spec fn last_sample<T>(events: Seq<Event<T>>) -> Option<T>
    decreases events.len(),
{
    if events.len() == 0 {
        None
    } else {
        match events.last() {
            Event::Sample { value } => Some(value),
            _ => last_sample(events.drop_last()),
        }
    }
}

/// How many presses a latch that starts out `held` reports over `samples`:
/// the number of positions `i` where `fires_at(held, samples, i)`.
pub open spec fn press_count(held: bool, samples: Seq<bool>) -> nat
    decreases samples.len(),
{
    if samples.len() == 0 {
        0
    } else {
        press_count(held, samples.drop_last()) + if fires_at(
            held,
            samples,
            samples.len() - 1,
        ) {
            1nat
        } else {
            0nat
        }
    }
}

/// The state after the start button, whose latch starts out `held`, is
/// sampled as `samples`: each reported press begins a run at the time of its
/// sample in `nows`.
pub open spec fn start_button_run<T>(
    v: StationView<T>,
    held: bool,
    samples: Seq<bool>,
    nows: Seq<u64>,
) -> StationView<T>
    decreases samples.len(),
{
    if samples.len() == 0 {
        v
    } else {
        let before = start_button_run(v, held, samples.drop_last(), nows);
        let i = samples.len() - 1;
        if fires_at(held, samples, i) {
            before.run_started(nows[i])
        } else {
            before
        }
    }
}

/// The run marks of runs `base + 1` to `base + k`.
pub open spec fn marks_from<T>(base: u16, k: nat) -> Seq<Entry<T>> {
    Seq::new(k, |i: int| run_mark::<T>((base + i + 1) as u16))
}

/// Any sequence of events the station accepts, from a state that keeps the
/// station invariant, leads to a state that keeps it.
pub proof fn lemma_events_keep_inv<T>(v: StationView<T>, events: Seq<Event<T>>)
    requires
        v.inv(),
        accepts_all(v, events),
    ensures
        run_events(v, events).inv(),
    decreases events.len(),
{
    if events.len() > 0 {
        lemma_events_keep_inv(v, events.drop_last());
        lemma_next_keeps_inv(run_events(v, events.drop_last()), events.last());
    }
}

/// After any sequence of events, the user mark is the one it started as,
/// flipped once for each `ToggleUserMark` event: it differs from the start
/// exactly when that number is odd.
pub proof fn lemma_mark_parity<T>(v: StationView<T>, events: Seq<Event<T>>)
    ensures
        run_events(v, events).user_mark == (v.user_mark != (mark_flips(events) % 2 == 1)),
    decreases events.len(),
{
    if events.len() > 0 {
        lemma_mark_parity(v, events.drop_last());
    }
}

/// After any sequence of events, the latest reading is the value of the last
/// sensor reading among them, or what it was before if there was none.
pub proof fn lemma_latest_is_last_sample<T>(v: StationView<T>, events: Seq<Event<T>>)
    ensures
        run_events(v, events).latest == (match last_sample(events) {
            Some(x) => Some(x),
            None => v.latest,
        }),
    decreases events.len(),
{
    if events.len() > 0 {
        lemma_latest_is_last_sample(v, events.drop_last());
    }
}

/// Over any sequence of samples of the start button, the run count goes up by
/// the number of reported presses, and each log gains exactly that many run
/// marks, numbered on from the run count before; holding the button down
/// counts once.
pub proof fn lemma_start_button_counts_presses<T>(
    v: StationView<T>,
    held: bool,
    samples: Seq<bool>,
    nows: Seq<u64>,
)
    requires
        samples.len() <= nows.len(),
        v.run_number + press_count(held, samples) <= u16::MAX,
    ensures
        start_button_run(v, held, samples, nows).run_number == v.run_number + press_count(
            held,
            samples,
        ),
        start_button_run(v, held, samples, nows).all_log == v.all_log + marks_from(
            v.run_number,
            press_count(held, samples),
        ),
        start_button_run(v, held, samples, nows).user_log == v.user_log + marks_from(
            v.run_number,
            press_count(held, samples),
        ),
        start_button_run(v, held, samples, nows).limit_log == v.limit_log + marks_from(
            v.run_number,
            press_count(held, samples),
        ),
        start_button_run(v, held, samples, nows).running == (v.running || press_count(
            held,
            samples,
        ) > 0),
    decreases samples.len(),
{
    if samples.len() > 0 {
        let rest = samples.drop_last();
        lemma_start_button_counts_presses(v, held, rest, nows);
        let c = press_count(held, rest);
        let i = samples.len() - 1;
        if fires_at(held, samples, i) {
            let m = marks_from::<T>(v.run_number, c);
            let x = run_mark::<T>((v.run_number + c + 1) as u16);
            assert(m.push(x) =~= marks_from::<T>(v.run_number, c + 1));
            assert((v.all_log + m).push(x) =~= v.all_log + m.push(x));
            assert((v.user_log + m).push(x) =~= v.user_log + m.push(x));
            assert((v.limit_log + m).push(x) =~= v.limit_log + m.push(x));
        }
    } else {
        assert(v.all_log + marks_from::<T>(v.run_number, 0) =~= v.all_log);
        assert(v.user_log + marks_from::<T>(v.run_number, 0) =~= v.user_log);
        assert(v.limit_log + marks_from::<T>(v.run_number, 0) =~= v.limit_log);
    }
}

} // verus!
