use vstd::prelude::*;

use crate::clock::{elapsed_secs_spec, NANOS_PER_SEC};
use crate::station::{Color, Entry, LimitMove, Reading, StationView, Trend};

verus! {

/// The whole seconds between two instants `start <= now` given in
/// nanoseconds are the `r` with `r` seconds at most the span and `r + 1`
/// seconds more than it; an instant before the start counts as no time.
pub proof fn lemma_elapsed_secs_whole_seconds(start: u64, now: u64)
    ensures
        start <= now ==> elapsed_secs_spec(start, now) * NANOS_PER_SEC <= now - start,
        start <= now ==> now - start < (elapsed_secs_spec(start, now) + 1) * NANOS_PER_SEC,
        now < start ==> elapsed_secs_spec(start, now) == 0,
{
    if start <= now {
        let n = (now - start) as int;
        let d = NANOS_PER_SEC as int;
        let r = n / d;
        assert(r * d <= n < (r + 1) * d) by (nonlinear_arith)
            requires
                d == 1_000_000_000,
                r == n / d,
                n >= 0,
        ;
    }
}

/// Beginning a run at `now` turns the run on, notes `now` as the start time
/// whatever it was before, counts one more run and appends the mark of that
/// run, blue and at time 0, to each of the three logs; the switches, the user
/// mark, the latest reading and the reference readings stay as they were.
pub proof fn lemma_start_run_effect<T>(v: StationView<T>, now: u64)
    requires
        v.run_number < u16::MAX,
    ensures
        v.run_started(now).running,
        v.run_started(now).start_time == Some(now),
        v.run_started(now).run_number == v.run_number + 1,
        v.run_started(now).all_log == v.all_log.push(
            Entry { value: Reading::RunStart((v.run_number + 1) as u16), time: 0, color: Color::Blue },
        ),
        v.run_started(now).user_log == v.user_log.push(
            Entry { value: Reading::RunStart((v.run_number + 1) as u16), time: 0, color: Color::Blue },
        ),
        v.run_started(now).limit_log == v.limit_log.push(
            Entry { value: Reading::RunStart((v.run_number + 1) as u16), time: 0, color: Color::Blue },
        ),
        v.run_started(now).user_mark == v.user_mark,
        v.run_started(now).latest == v.latest,
        v.run_started(now).auto_record == v.auto_record,
        v.run_started(now).user_record == v.user_record,
        v.run_started(now).last_auto == v.last_auto,
        v.run_started(now).limit_base == v.limit_base,
{
}

/// Beginning a run twice times the second run from its own start.
pub proof fn lemma_restart_times_from_new_start<T>(v: StationView<T>, t1: u64, t2: u64)
    requires
        v.run_number + 1 < u16::MAX,
    ensures
        v.run_started(t1).run_started(t2).start_time == Some(t2),
{
}

/// Stopping turns the run off whatever it was before, and changes nothing
/// else; stopping again changes nothing more.
pub proof fn lemma_stop_run_effect<T>(v: StationView<T>)
    ensures
        !v.run_stopped().running,
        v.run_stopped().run_stopped() == v.run_stopped(),
        v.run_stopped().start_time == v.start_time,
        v.run_stopped().run_number == v.run_number,
        v.run_stopped().user_mark == v.user_mark,
        v.run_stopped().latest == v.latest,
        v.run_stopped().auto_record == v.auto_record,
        v.run_stopped().user_record == v.user_record,
        v.run_stopped().last_auto == v.last_auto,
        v.run_stopped().limit_base == v.limit_base,
        v.run_stopped().all_log == v.all_log,
        v.run_stopped().user_log == v.user_log,
        v.run_stopped().limit_log == v.limit_log,
{
    assert(v.run_stopped().run_stopped() =~= v.run_stopped());
}

/// Each switch flips in every state, and flipping it changes nothing else.
pub proof fn lemma_switches_flip<T>(v: StationView<T>)
    ensures
        v.auto_record_toggled().auto_record == !v.auto_record,
        v.auto_record_toggled().user_record == v.user_record,
        v.auto_record_toggled().user_mark == v.user_mark,
        v.auto_record_toggled().running == v.running,
        v.auto_record_toggled().all_log == v.all_log,
        v.auto_record_toggled().user_log == v.user_log,
        v.auto_record_toggled().limit_log == v.limit_log,
        v.user_record_toggled().user_record == !v.user_record,
        v.user_record_toggled().auto_record == v.auto_record,
        v.user_record_toggled().user_mark == v.user_mark,
        v.user_record_toggled().running == v.running,
        v.user_record_toggled().all_log == v.all_log,
        v.user_record_toggled().user_log == v.user_log,
        v.user_record_toggled().limit_log == v.limit_log,
        v.user_mark_toggled().user_mark == !v.user_mark,
        v.user_mark_toggled().auto_record == v.auto_record,
        v.user_mark_toggled().user_record == v.user_record,
        v.user_mark_toggled().running == v.running,
        v.user_mark_toggled().all_log == v.all_log,
        v.user_mark_toggled().user_log == v.user_log,
        v.user_mark_toggled().limit_log == v.limit_log,
{
}

/// Clearing empties the three logs, sets the run count to zero and turns the
/// run off; the start time, the switches, the user mark, the latest reading
/// and the reference readings stay as they were.
pub proof fn lemma_clear_effect<T>(v: StationView<T>)
    ensures
        v.cleared().all_log.len() == 0,
        v.cleared().user_log.len() == 0,
        v.cleared().limit_log.len() == 0,
        v.cleared().run_number == 0,
        !v.cleared().running,
        v.cleared().start_time == v.start_time,
        v.cleared().user_mark == v.user_mark,
        v.cleared().latest == v.latest,
        v.cleared().auto_record == v.auto_record,
        v.cleared().user_record == v.user_record,
        v.cleared().last_auto == v.last_auto,
        v.cleared().limit_base == v.limit_base,
{
}

/// A sensor reading becomes the latest reading and changes nothing else.
pub proof fn lemma_sample_effect<T>(v: StationView<T>, value: T)
    ensures
        v.sampled(value).latest == Some(value),
        v.sampled(value).running == v.running,
        v.sampled(value).start_time == v.start_time,
        v.sampled(value).run_number == v.run_number,
        v.sampled(value).user_mark == v.user_mark,
        v.sampled(value).all_log == v.all_log,
        v.sampled(value).user_log == v.user_log,
        v.sampled(value).limit_log == v.limit_log,
{
}

/// Once a run has begun at `start`, a reading recorded at `now` is timed
/// `elapsed_secs_spec(start, now)` seconds into the run and goes:
/// - into the main log, if it is on, red when falling, green when rising and
///   white otherwise, becoming the main log's last reading;
/// - into the user log, if it is on (whether the main log is on or not),
///   green when the user mark is set and white otherwise;
/// - into the range log, green when it rose by the watched step and red when
///   it fell by it, becoming the new base, and nowhere when it held.
/// A log that does not take it stays as it was; the run state, the run count,
/// the switches, the user mark and the latest reading stay as they were.
pub proof fn lemma_record_effect<T>(
    v: StationView<T>,
    value: T,
    now: u64,
    trend: Trend,
    limit: LimitMove,
)
    requires
        v.start_time is Some,
    ensures
        ({
            let w = v.recorded(value, now, trend, limit);
            let t = elapsed_secs_spec(v.start_time->0, now);
            let c = if trend == Trend::Falling {
                Color::Red
            } else if trend == Trend::Rising {
                Color::Green
            } else {
                Color::White
            };
            let uc = if v.user_mark {
                Color::Green
            } else {
                Color::White
            };
            &&& v.auto_record ==> w.all_log == v.all_log.push(
                Entry { value: Reading::Sensor(value), time: t, color: c },
            ) && w.last_auto == value
            &&& !v.auto_record ==> w.all_log == v.all_log && w.last_auto == v.last_auto
            &&& v.user_record ==> w.user_log == v.user_log.push(
                Entry { value: Reading::Sensor(value), time: t, color: uc },
            )
            &&& !v.user_record ==> w.user_log == v.user_log
            &&& limit == LimitMove::Up ==> w.limit_log == v.limit_log.push(
                Entry { value: Reading::Sensor(value), time: t, color: Color::Green },
            ) && w.limit_base == value
            &&& limit == LimitMove::Down ==> w.limit_log == v.limit_log.push(
                Entry { value: Reading::Sensor(value), time: t, color: Color::Red },
            ) && w.limit_base == value
            &&& limit == LimitMove::Hold ==> w.limit_log == v.limit_log && w.limit_base
                == v.limit_base
            &&& w.running == v.running
            &&& w.start_time == v.start_time
            &&& w.run_number == v.run_number
            &&& w.user_mark == v.user_mark
            &&& w.auto_record == v.auto_record
            &&& w.user_record == v.user_record
            &&& w.latest == v.latest
        }),
{
}

} // verus!
