use rotary_switch_helper::interrupt::{EdgeEvent, EdgeKind};
use rotary_switch_helper::switch_encoder::{Encoder, UnexpectedEdgeKind};
use std::time::Duration;

const SW_PIN_NUMBER: u8 = 11;

fn event(kind: EdgeKind, timestamp: Duration, seqno: u32) -> EdgeEvent {
    EdgeEvent {
        timestamp: timestamp.as_nanos(),
        seqno,
        kind,
    }
}

/// A switch on a test bench: edges are fed by hand and the callback's
/// arguments are kept.
struct TestEncoder {
    encoder: Encoder,
    called: bool,
    switch_pressed: bool,
    name_matched: bool,
    calls: Vec<(String, bool)>,
    dropped: Vec<UnexpectedEdgeKind>,
}

impl TestEncoder {
    fn new(encoder_name: &str) -> Self {
        TestEncoder::from_encoder(Encoder::new(encoder_name, None, SW_PIN_NUMBER, None))
    }

    fn from_encoder(encoder: Encoder) -> Self {
        TestEncoder {
            encoder,
            called: false,
            switch_pressed: false,
            name_matched: false,
            calls: Vec::new(),
            dropped: Vec::new(),
        }
    }

    fn simulate_event(&mut self, event: EdgeEvent) {
        match self.encoder.handle_edge(event) {
            Ok((name, is_pressed)) => {
                self.called = true;
                self.switch_pressed = is_pressed;
                self.name_matched = name == "test_switch";
                self.calls.push((name.to_string(), is_pressed));
            }
            Err(e) => self.dropped.push(e),
        }
    }

    fn simulate_press(&mut self) {
        self.simulate_event(event(EdgeKind::Falling, Duration::from_millis(0), 0));
    }

    fn simulate_release(&mut self) {
        self.simulate_event(event(EdgeKind::Rising, Duration::from_millis(0), 1));
    }
}

#[test]
fn test_switch_press_callback() {
    // Setup test encoder
    let mut test_encoder = TestEncoder::new("test_switch");

    // Simulate a button press (falling edge)
    test_encoder.simulate_press();

    // Verify the callback was called correctly
    assert!(test_encoder.called, "Callback was not called");
    assert!(
        test_encoder.switch_pressed,
        "Switch should be reported as pressed"
    );
    assert!(test_encoder.name_matched, "Switch name did not match");

    // Reset state variables
    test_encoder.called = false;
    test_encoder.switch_pressed = true;

    // Simulate a button release (rising edge)
    test_encoder.simulate_release();

    // Verify the callback was called correctly
    assert!(test_encoder.called, "Callback was not called on release");
    assert!(
        !test_encoder.switch_pressed,
        "Switch should be reported as released"
    );
}

#[test]
fn new_switch_is_released_with_its_configuration() {
    let encoder = Encoder::new(
        "press",
        Some("long_press"),
        11,
        Some(Duration::from_secs(4).as_nanos()),
    );
    assert_eq!(encoder.name(), "press");
    assert_eq!(encoder.name_long_press(), Some("long_press"));
    assert_eq!(encoder.pin(), 11);
    assert_eq!(encoder.long_press_threshold(), Some(4_000_000_000));
    assert_eq!(encoder.pressed_at(), None);

    let simple = Encoder::new("press", None, 11, None);
    assert_eq!(simple.name_long_press(), None);
    assert_eq!(simple.long_press_threshold(), None);
}

#[test]
fn simple_mode_reports_press_then_release_under_the_name() {
    let mut test_encoder = TestEncoder::new("press");
    test_encoder.simulate_event(event(EdgeKind::Falling, Duration::from_secs(1), 0));
    assert_eq!(test_encoder.encoder.pressed_at(), None);
    test_encoder.simulate_event(event(EdgeKind::Rising, Duration::from_secs(60), 1));
    assert_eq!(
        test_encoder.calls,
        vec![("press".to_string(), true), ("press".to_string(), false)]
    );
    assert_eq!(test_encoder.encoder.pressed_at(), None);
}

#[test]
fn simple_mode_with_a_threshold_still_times_nothing() {
    let mut test_encoder = TestEncoder::from_encoder(Encoder::new(
        "press",
        None,
        SW_PIN_NUMBER,
        Some(Duration::from_secs(4).as_nanos()),
    ));
    test_encoder.simulate_event(event(EdgeKind::Falling, Duration::from_secs(1), 0));
    assert_eq!(test_encoder.encoder.pressed_at(), None);
    test_encoder.simulate_event(event(EdgeKind::Rising, Duration::from_secs(60), 1));
    assert_eq!(
        test_encoder.calls,
        vec![("press".to_string(), true), ("press".to_string(), false)]
    );
}

fn long_press_switch() -> TestEncoder {
    TestEncoder::from_encoder(Encoder::new(
        "press",
        Some("long_press"),
        SW_PIN_NUMBER,
        Some(Duration::from_secs(4).as_nanos()),
    ))
}

#[test]
fn press_held_five_seconds_is_a_long_press() {
    let mut test_encoder = long_press_switch();
    test_encoder.simulate_event(event(EdgeKind::Falling, Duration::from_secs(10), 0));
    assert_eq!(
        test_encoder.encoder.pressed_at(),
        Some(Duration::from_secs(10).as_nanos())
    );
    test_encoder.simulate_event(event(EdgeKind::Rising, Duration::from_secs(15), 1));
    assert_eq!(
        test_encoder.calls,
        vec![
            ("press".to_string(), true),
            ("long_press".to_string(), false)
        ]
    );
    assert_eq!(test_encoder.encoder.pressed_at(), None);
}

#[test]
fn press_held_one_second_is_a_short_press() {
    let mut test_encoder = long_press_switch();
    test_encoder.simulate_event(event(EdgeKind::Falling, Duration::from_secs(10), 0));
    test_encoder.simulate_event(event(EdgeKind::Rising, Duration::from_secs(11), 1));
    assert_eq!(
        test_encoder.calls,
        vec![("press".to_string(), true), ("press".to_string(), false)]
    );
    assert_eq!(test_encoder.encoder.pressed_at(), None);
}

#[test]
fn a_press_has_to_exceed_the_threshold() {
    // Exactly the threshold is not longer than the threshold.
    let mut at_threshold = long_press_switch();
    at_threshold.simulate_event(event(EdgeKind::Falling, Duration::from_secs(10), 0));
    at_threshold.simulate_event(event(EdgeKind::Rising, Duration::from_secs(14), 1));
    assert_eq!(at_threshold.calls[1], ("press".to_string(), false));

    // One nanosecond more is.
    let mut beyond = long_press_switch();
    beyond.simulate_event(event(EdgeKind::Falling, Duration::from_secs(10), 0));
    beyond.simulate_event(event(
        EdgeKind::Rising,
        Duration::from_secs(14) + Duration::from_nanos(1),
        1,
    ));
    assert_eq!(beyond.calls[1], ("long_press".to_string(), false));
}

#[test]
fn release_without_press_is_reported_as_short() {
    let mut test_encoder = long_press_switch();
    test_encoder.simulate_event(event(EdgeKind::Rising, Duration::from_secs(100), 0));
    assert_eq!(test_encoder.calls, vec![("press".to_string(), false)]);

    // A second release after a long press has nothing left to measure.
    test_encoder.simulate_event(event(EdgeKind::Falling, Duration::from_secs(200), 1));
    test_encoder.simulate_event(event(EdgeKind::Rising, Duration::from_secs(300), 2));
    test_encoder.simulate_event(event(EdgeKind::Rising, Duration::from_secs(400), 3));
    assert_eq!(
        test_encoder.calls,
        vec![
            ("press".to_string(), false),
            ("press".to_string(), true),
            ("long_press".to_string(), false),
            ("press".to_string(), false),
        ]
    );
}

#[test]
fn release_stamped_before_its_press_is_short() {
    let mut test_encoder = long_press_switch();
    test_encoder.simulate_event(event(EdgeKind::Falling, Duration::from_secs(100), 0));
    test_encoder.simulate_event(event(EdgeKind::Rising, Duration::from_secs(1), 1));
    assert_eq!(
        test_encoder.calls,
        vec![("press".to_string(), true), ("press".to_string(), false)]
    );
}

#[test]
fn a_second_press_restarts_the_timing() {
    let mut test_encoder = long_press_switch();
    test_encoder.simulate_event(event(EdgeKind::Falling, Duration::from_secs(10), 0));
    test_encoder.simulate_event(event(EdgeKind::Falling, Duration::from_secs(13), 1));
    assert_eq!(
        test_encoder.encoder.pressed_at(),
        Some(Duration::from_secs(13).as_nanos())
    );
    test_encoder.simulate_event(event(EdgeKind::Rising, Duration::from_secs(15), 2));
    assert_eq!(test_encoder.calls[2], ("press".to_string(), false));
}

#[test]
fn long_press_mode_without_threshold_never_reports_long() {
    let mut test_encoder = TestEncoder::from_encoder(Encoder::new(
        "press",
        Some("long_press"),
        SW_PIN_NUMBER,
        None,
    ));
    test_encoder.simulate_event(event(EdgeKind::Falling, Duration::from_secs(0), 0));
    test_encoder.simulate_event(event(EdgeKind::Rising, Duration::from_secs(3600), 1));
    assert_eq!(
        test_encoder.calls,
        vec![("press".to_string(), true), ("press".to_string(), false)]
    );
}

#[test]
fn extreme_timestamps_do_not_overflow() {
    let mut test_encoder = TestEncoder::from_encoder(Encoder::new(
        "press",
        Some("long_press"),
        SW_PIN_NUMBER,
        Some(u128::MAX - 1),
    ));
    test_encoder.simulate_event(EdgeEvent {
        timestamp: 0,
        seqno: 0,
        kind: EdgeKind::Falling,
    });
    test_encoder.simulate_event(EdgeEvent {
        timestamp: u128::MAX,
        seqno: 1,
        kind: EdgeKind::Rising,
    });
    assert_eq!(test_encoder.calls[1], ("long_press".to_string(), false));
}

#[test]
fn a_switch_event_that_is_no_edge_is_dropped() {
    let mut test_encoder = long_press_switch();
    test_encoder.simulate_event(event(EdgeKind::Falling, Duration::from_secs(10), 0));
    test_encoder.simulate_event(event(EdgeKind::Both, Duration::from_secs(11), 1));
    test_encoder.simulate_event(event(EdgeKind::Disabled, Duration::from_secs(12), 2));
    assert_eq!(test_encoder.calls, vec![("press".to_string(), true)]);
    assert_eq!(
        test_encoder.dropped,
        vec![
            UnexpectedEdgeKind(EdgeKind::Both),
            UnexpectedEdgeKind(EdgeKind::Disabled)
        ]
    );
    // The press is still on record.
    assert_eq!(
        test_encoder.encoder.pressed_at(),
        Some(Duration::from_secs(10).as_nanos())
    );
    test_encoder.simulate_event(event(EdgeKind::Rising, Duration::from_secs(15), 3));
    assert_eq!(test_encoder.calls[1], ("long_press".to_string(), false));
}
