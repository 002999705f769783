use lux_recorder::station::{Color, Entry, LimitMove, Reading, Station, Trend};

const SEC: u64 = 1_000_000_000;

fn mark(n: u16) -> Entry<f32> {
    Entry { value: Reading::RunStart(n), time: 0, color: Color::Blue }
}

fn reading(v: f32, time: u64, color: Color) -> Entry<f32> {
    Entry { value: Reading::Sensor(v), time, color }
}

#[test]
fn fresh_station() {
    let s: Station<f32> = Station::new(0.0);
    assert!(!s.running());
    assert_eq!(s.run_number(), 0);
    assert!(!s.user_mark());
    assert_eq!(s.start_time(), None);
    assert_eq!(s.latest(), None);
    assert!(s.auto_record());
    assert!(s.user_record());
    assert_eq!(s.last_auto(), 0.0);
    assert_eq!(s.limit_base(), 0.0);
    assert!(s.all_log().is_empty());
    assert!(s.user_log().is_empty());
    assert!(s.limit_log().is_empty());
}

#[test]
fn reading_before_any_run_is_dropped() {
    let mut s: Station<f32> = Station::new(0.0);
    s.record(12.5, 3 * SEC, Trend::Rising, LimitMove::Up);
    assert!(s.all_log().is_empty());
    assert!(s.user_log().is_empty());
    assert!(s.limit_log().is_empty());
    assert_eq!(s.last_auto(), 0.0);
    assert_eq!(s.limit_base(), 0.0);
}

#[test]
fn start_marks_every_log() {
    let mut s: Station<f32> = Station::new(0.0);
    s.start_run(7 * SEC);
    assert!(s.running());
    assert_eq!(s.run_number(), 1);
    assert_eq!(s.start_time(), Some(7 * SEC));
    assert_eq!(s.all_log(), &vec![mark(1)]);
    assert_eq!(s.user_log(), &vec![mark(1)]);
    assert_eq!(s.limit_log(), &vec![mark(1)]);
    s.start_run(9 * SEC);
    assert_eq!(s.run_number(), 2);
    assert_eq!(s.all_log(), &vec![mark(1), mark(2)]);
    assert_eq!(s.limit_log(), &vec![mark(1), mark(2)]);
}

#[test]
fn stop_keeps_logs() {
    let mut s: Station<f32> = Station::new(0.0);
    s.start_run(0);
    s.stop_run();
    assert!(!s.running());
    assert_eq!(s.run_number(), 1);
    assert_eq!(s.all_log(), &vec![mark(1)]);
}

#[test]
fn sample_forwards_only_while_running() {
    let mut s: Station<f32> = Station::new(0.0);
    assert!(!s.sample(3.0));
    assert_eq!(s.latest(), Some(3.0));
    s.start_run(0);
    assert!(s.sample(4.0));
    assert_eq!(s.latest(), Some(4.0));
    s.stop_run();
    assert!(!s.sample(5.0));
    assert_eq!(s.latest(), Some(5.0));
}

#[test]
fn readings_colored_by_trend_and_timed_from_start() {
    let mut s: Station<f32> = Station::new(0.0);
    s.start_run(10 * SEC);
    s.record(5.0, 12 * SEC + 300, Trend::Rising, LimitMove::Hold);
    s.record(3.0, 15 * SEC, Trend::Falling, LimitMove::Hold);
    s.record(3.0, 16 * SEC - 1, Trend::Steady, LimitMove::Hold);
    assert_eq!(
        s.all_log(),
        &vec![mark(1), reading(5.0, 2, Color::Green), reading(3.0, 5, Color::Red), reading(3.0, 5, Color::White)]
    );
    assert_eq!(s.last_auto(), 3.0);
    assert_eq!(
        s.user_log(),
        &vec![mark(1), reading(5.0, 2, Color::White), reading(3.0, 5, Color::White), reading(3.0, 5, Color::White)]
    );
    assert_eq!(s.limit_log(), &vec![mark(1)]);
}

#[test]
fn user_mark_colors_user_log() {
    let mut s: Station<f32> = Station::new(0.0);
    s.start_run(0);
    s.toggle_user_mark();
    assert!(s.user_mark());
    s.record(1.0, SEC, Trend::Rising, LimitMove::Hold);
    s.toggle_user_mark();
    assert!(!s.user_mark());
    s.record(2.0, 2 * SEC, Trend::Rising, LimitMove::Hold);
    assert_eq!(
        s.user_log(),
        &vec![mark(1), reading(1.0, 1, Color::Green), reading(2.0, 2, Color::White)]
    );
}

#[test]
fn range_watch_moves_its_base() {
    let mut s: Station<f32> = Station::new(0.0);
    s.start_run(0);
    s.record(150.0, SEC, Trend::Rising, LimitMove::Up);
    assert_eq!(s.limit_base(), 150.0);
    s.record(40.0, 2 * SEC, Trend::Falling, LimitMove::Down);
    assert_eq!(s.limit_base(), 40.0);
    s.record(45.0, 3 * SEC, Trend::Rising, LimitMove::Hold);
    assert_eq!(s.limit_base(), 40.0);
    assert_eq!(
        s.limit_log(),
        &vec![mark(1), reading(150.0, 1, Color::Green), reading(40.0, 2, Color::Red)]
    );
}

#[test]
fn switched_off_logs_take_nothing() {
    let mut s: Station<f32> = Station::new(0.0);
    s.start_run(0);
    s.toggle_auto_record();
    s.toggle_user_record();
    assert!(!s.auto_record());
    assert!(!s.user_record());
    s.record(8.0, SEC, Trend::Rising, LimitMove::Hold);
    assert_eq!(s.all_log(), &vec![mark(1)]);
    assert_eq!(s.user_log(), &vec![mark(1)]);
    assert_eq!(s.last_auto(), 0.0);
    s.toggle_auto_record();
    s.record(9.0, SEC, Trend::Rising, LimitMove::Hold);
    assert_eq!(s.all_log(), &vec![mark(1), reading(9.0, 1, Color::Green)]);
    assert_eq!(s.last_auto(), 9.0);
}

#[test]
fn clear_empties_logs_and_run_count() {
    let mut s: Station<f32> = Station::new(0.0);
    s.start_run(SEC);
    s.record(1.0, 2 * SEC, Trend::Rising, LimitMove::Up);
    s.toggle_user_mark();
    s.clear();
    assert!(!s.running());
    assert_eq!(s.run_number(), 0);
    assert!(s.all_log().is_empty());
    assert!(s.user_log().is_empty());
    assert!(s.limit_log().is_empty());
    assert!(s.user_mark());
    assert_eq!(s.start_time(), Some(SEC));
    assert_eq!(s.limit_base(), 1.0);
}

#[test]
fn clear_then_start_gives_run_one() {
    let mut s: Station<f32> = Station::new(0.0);
    s.start_run(0);
    s.start_run(0);
    s.clear();
    s.start_run(4 * SEC);
    assert_eq!(s.run_number(), 1);
    assert_eq!(s.all_log(), &vec![mark(1)]);
    assert_eq!(s.user_log(), &vec![mark(1)]);
    assert_eq!(s.limit_log(), &vec![mark(1)]);
}

#[test]
fn record_after_clear_still_uses_last_start() {
    let mut s: Station<f32> = Station::new(0.0);
    s.start_run(SEC);
    s.clear();
    s.record(2.0, 4 * SEC, Trend::Rising, LimitMove::Hold);
    assert_eq!(s.all_log(), &vec![reading(2.0, 3, Color::Green)]);
}

#[test]
fn toggling_twice_restores() {
    let mut s: Station<i32> = Station::new(0);
    s.toggle_user_mark();
    s.toggle_user_mark();
    s.toggle_auto_record();
    s.toggle_auto_record();
    s.toggle_user_record();
    s.toggle_user_record();
    assert!(!s.user_mark());
    assert!(s.auto_record());
    assert!(s.user_record());
}

#[test]
fn marks_count_runs_up_to_the_limit() {
    let mut s: Station<i32> = Station::new(0);
    for _ in 0..u16::MAX {
        s.start_run(0);
    }
    assert_eq!(s.run_number(), u16::MAX);
    let marks: Vec<u16> = s
        .all_log()
        .iter()
        .filter_map(|e| match e.value {
            Reading::RunStart(n) => Some(n),
            Reading::Sensor(_) => None,
        })
        .collect();
    assert_eq!(marks.len(), u16::MAX as usize);
    assert!(marks.iter().enumerate().all(|(i, &n)| n as usize == i + 1));
}
