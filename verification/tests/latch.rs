use lux_recorder::latch::ButtonLatch;

#[test]
fn press_fires_once_while_held() {
    let mut latch = ButtonLatch::new();
    assert!(latch.poll(true));
    assert!(!latch.poll(true));
    assert!(!latch.poll(true));
}

#[test]
fn released_button_never_fires() {
    let mut latch = ButtonLatch::new();
    for _ in 0..5 {
        assert!(!latch.poll(false));
    }
}

#[test]
fn each_new_press_fires_again() {
    let mut latch = ButtonLatch::new();
    let samples = [false, true, true, false, false, true, false, true, true];
    let fired: Vec<bool> = samples.iter().map(|&s| latch.poll(s)).collect();
    assert_eq!(fired, vec![false, true, false, false, false, true, false, true, false]);
}
