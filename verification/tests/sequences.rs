use lux_recorder::latch::ButtonLatch;
use lux_recorder::station::{Color, LimitMove, Reading, Station, Trend};

#[test]
fn start_button_counts_each_press_once() {
    let mut s: Station<f32> = Station::new(0.0);
    let mut latch = ButtonLatch::new();
    let samples = [true, true, false, true, false, false, true, true, true];
    for (t, &level) in samples.iter().enumerate() {
        if latch.poll(level) {
            s.start_run(t as u64);
        }
    }
    assert_eq!(s.run_number(), 3);
    for log in [s.all_log(), s.user_log(), s.limit_log()] {
        let marks: Vec<u16> = log
            .iter()
            .map(|e| {
                assert_eq!(e.color, Color::Blue);
                match e.value {
                    Reading::RunStart(n) => n,
                    Reading::Sensor(_) => panic!("no readings were recorded"),
                }
            })
            .collect();
        assert_eq!(marks, vec![1, 2, 3]);
    }
}

#[test]
fn user_mark_follows_parity_of_flips() {
    let mut s: Station<i32> = Station::new(0);
    for k in 1..=7u32 {
        s.toggle_user_mark();
        s.sample(k as i32);
        s.stop_run();
        assert_eq!(s.user_mark(), k % 2 == 1);
    }
}

#[test]
fn latest_is_last_sample_across_events() {
    let mut s: Station<i32> = Station::new(0);
    assert_eq!(s.latest(), None);
    s.start_run(0);
    assert_eq!(s.latest(), None);
    s.sample(4);
    s.record(4, 1, Trend::Rising, LimitMove::Up);
    s.clear();
    s.toggle_user_mark();
    assert_eq!(s.latest(), Some(4));
    s.sample(9);
    s.stop_run();
    assert_eq!(s.latest(), Some(9));
}
