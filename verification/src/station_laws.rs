use vstd::prelude::*;

use crate::station::{log_ok, mark_color, run_mark, run_marks, run_numbers, trend_color, Color, Entry, Event, LimitMove, Reading, StationView, Trend};

verus! {

/// Appending an entry to a log appends its run number, if it is a run mark,
/// to the run numbers the log carries.
proof fn lemma_run_marks_push<T>(log: Seq<Entry<T>>, e: Entry<T>)
    ensures
        run_marks(log.push(e)) == (match e.value {
            Reading::RunStart(n) => run_marks(log).push(n),
            Reading::Sensor(_) => run_marks(log),
        }),
{
    assert(log.push(e).drop_last() =~= log);
}

proof fn lemma_run_numbers_next(n: nat)
    requires
        n < u16::MAX,
    ensures
        run_numbers(n).push((n + 1) as u16) == run_numbers(n + 1),
{
    assert(run_numbers(n).push((n + 1) as u16) =~= run_numbers(n + 1));
}

proof fn lemma_log_ok_sensor<T>(log: Seq<Entry<T>>, runs: u16, value: T, time: u64, color: Color)
    requires
        log_ok(log, runs),
        color != Color::Blue,
    ensures
        log_ok(log.push(Entry { value: Reading::Sensor(value), time, color }), runs),
{
    lemma_run_marks_push(log, Entry { value: Reading::Sensor(value), time, color });
}

proof fn lemma_log_ok_mark<T>(log: Seq<Entry<T>>, runs: u16)
    requires
        log_ok(log, runs),
        runs < u16::MAX,
    ensures
        log_ok(log.push(run_mark((runs + 1) as u16)), (runs + 1) as u16),
{
    lemma_run_marks_push(log, run_mark::<T>((runs + 1) as u16));
    lemma_run_numbers_next(runs as nat);
}

proof fn lemma_empty_log_ok<T>()
    ensures
        log_ok(Seq::<Entry<T>>::empty(), 0),
{
    assert(run_numbers(0) =~= Seq::<u16>::empty());
}

/// A fresh station keeps the station invariant.
pub proof fn lemma_initial_inv<T>(base: T)
    ensures
        StationView::initial(base).inv(),
{
    lemma_empty_log_ok::<T>();
}

/// Every event the station takes keeps the station invariant: each log holds
/// exactly one run mark per run begun since the last clearing, numbered 1, 2,
/// ... in order; an entry is blue exactly when it is a run mark, and run marks
/// have time 0; readings in the range log are green or red, and readings in
/// the user log green or white.
pub proof fn lemma_next_keeps_inv<T>(v: StationView<T>, event: Event<T>)
    requires
        v.inv(),
        v.accepts(event),
    ensures
        v.next(event).inv(),
{
    match event {
        Event::StartRun { now } => {
            lemma_log_ok_mark(v.all_log, v.run_number);
            lemma_log_ok_mark(v.user_log, v.run_number);
            lemma_log_ok_mark(v.limit_log, v.run_number);
            let w = v.next(event);
            assert forall|i: int|
                0 <= i < w.limit_log.len() && (#[trigger] w.limit_log[i]).value is Sensor implies
                w.limit_log[i].color == Color::Green || w.limit_log[i].color == Color::Red by {
                if i < v.limit_log.len() {
                    assert(w.limit_log[i] == v.limit_log[i]);
                }
            }
            assert forall|i: int|
                0 <= i < w.user_log.len() && (#[trigger] w.user_log[i]).value is Sensor implies
                w.user_log[i].color == Color::Green || w.user_log[i].color == Color::White by {
                if i < v.user_log.len() {
                    assert(w.user_log[i] == v.user_log[i]);
                }
            }
        },
        Event::Clear => {
            lemma_empty_log_ok::<T>();
        },
        Event::Record { value, now, trend, limit } => {
            match v.start_time {
                None => {},
                Some(start) => {
                    let time = crate::clock::elapsed_secs_spec(start, now);
                    let a = v.with_auto(value, time, trend);
                    if v.auto_record {
                        lemma_log_ok_sensor(v.all_log, v.run_number, value, time, trend_color(trend));
                    }
                    let b = a.with_user(value, time);
                    if a.user_record {
                        lemma_log_ok_sensor(
                            a.user_log,
                            a.run_number,
                            value,
                            time,
                            mark_color(a.user_mark),
                        );
                        assert forall|i: int|
                            0 <= i < b.user_log.len() && (#[trigger] b.user_log[i]).value is Sensor implies
                            b.user_log[i].color == Color::Green || b.user_log[i].color
                                == Color::White by {
                            if i < a.user_log.len() {
                                assert(b.user_log[i] == a.user_log[i]);
                            }
                        }
                    }
                    let c = b.with_limit(value, time, limit);
                    match limit {
                        LimitMove::Up => {
                            lemma_log_ok_sensor(b.limit_log, b.run_number, value, time, Color::Green);
                        },
                        LimitMove::Down => {
                            lemma_log_ok_sensor(b.limit_log, b.run_number, value, time, Color::Red);
                        },
                        LimitMove::Hold => {},
                    }
                    assert forall|i: int|
                        0 <= i < c.limit_log.len() && (#[trigger] c.limit_log[i]).value is Sensor implies
                        c.limit_log[i].color == Color::Green || c.limit_log[i].color == Color::Red by {
                        if i < b.limit_log.len() {
                            assert(c.limit_log[i] == b.limit_log[i]);
                        }
                    }
                },
            }
        },
        _ => {},
    }
}

/// Every event but clearing keeps what the logs hold and adds at most one
/// entry to each.
pub proof fn lemma_logs_only_grow<T>(v: StationView<T>, event: Event<T>)
    requires
        !(event is Clear),
    ensures
        v.all_log.is_prefix_of(v.next(event).all_log),
        v.user_log.is_prefix_of(v.next(event).user_log),
        v.limit_log.is_prefix_of(v.next(event).limit_log),
        v.next(event).all_log.len() <= v.all_log.len() + 1,
        v.next(event).user_log.len() <= v.user_log.len() + 1,
        v.next(event).limit_log.len() <= v.limit_log.len() + 1,
{
    let w = v.next(event);
    assert(v.all_log =~= w.all_log.subrange(0, v.all_log.len() as int));
    assert(v.user_log =~= w.user_log.subrange(0, v.user_log.len() as int));
    assert(v.limit_log =~= w.limit_log.subrange(0, v.limit_log.len() as int));
}

/// Clearing the logs and then beginning a run leaves in each log just the mark
/// of run 1.
pub proof fn lemma_clear_then_start<T>(v: StationView<T>, now: u64)
    ensures
        v.cleared().run_started(now).run_number == 1,
        v.cleared().run_started(now).running,
        v.cleared().run_started(now).all_log == seq![run_mark::<T>(1)],
        v.cleared().run_started(now).user_log == seq![run_mark::<T>(1)],
        v.cleared().run_started(now).limit_log == seq![run_mark::<T>(1)],
{
    let w = v.cleared().run_started(now);
    assert(w.all_log =~= seq![run_mark::<T>(1)]);
    assert(w.user_log =~= seq![run_mark::<T>(1)]);
    assert(w.limit_log =~= seq![run_mark::<T>(1)]);
}

/// Flipping a switch twice gives back the state it was flipped from.
pub proof fn lemma_toggles_undo<T>(v: StationView<T>)
    ensures
        v.user_mark_toggled().user_mark_toggled() == v,
        v.auto_record_toggled().auto_record_toggled() == v,
        v.user_record_toggled().user_record_toggled() == v,
{
    assert(v.user_mark_toggled().user_mark_toggled() =~= v);
    assert(v.auto_record_toggled().auto_record_toggled() =~= v);
    assert(v.user_record_toggled().user_record_toggled() =~= v);
}

/// A reading that comes before any run began is not written anywhere.
pub proof fn lemma_no_record_before_start<T>(
    v: StationView<T>,
    value: T,
    now: u64,
    trend: Trend,
    limit: LimitMove,
)
    requires
        v.start_time is None,
    ensures
        v.recorded(value, now, trend, limit) == v,
{
}

} // verus!
