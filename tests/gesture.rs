use cosmic_pie_menu::gesture::{
    calculate_swipe_direction_from_delta, check_early_swipe, check_pending_trigger, process_event,
    GestureEvent, GestureState, InputEvent, SwipeDirection, ABS_MT_POSITION_X, ABS_MT_POSITION_Y,
    ABS_MT_SLOT, ABS_MT_TRACKING_ID, ABS_X, ABS_Y, BTN_TOOL_QUADTAP, BTN_TOOL_TRIPLETAP, EV_ABS,
    EV_KEY,
};
use cosmic_pie_menu::tracker::{Axis, MultiTouchTracker};

const MS: u64 = 1_000_000;

fn key(code: u16, value: i32) -> InputEvent {
    InputEvent { event_type: EV_KEY, code, value }
}

fn abs(code: u16, value: i32) -> InputEvent {
    InputEvent { event_type: EV_ABS, code, value }
}

struct Run {
    state: GestureState,
    finger_count: u8,
    out: Vec<(u64, GestureEvent)>,
}

impl Run {
    fn new(finger_count: u8) -> Run {
        Run { state: GestureState::Idle, finger_count, out: Vec::new() }
    }

    fn feed(&mut self, e: InputEvent, t_ms: u64) -> GestureEvent {
        let r = process_event(&e, &mut self.state, self.finger_count, 250, 500, 300, t_ms * MS);
        if r != GestureEvent::Nothing {
            self.out.push((t_ms, r));
        }
        r
    }

    fn place(&mut self, slot: i32, x: i32, y: i32, t_ms: u64) {
        self.feed(abs(ABS_MT_SLOT, slot), t_ms);
        self.feed(abs(ABS_MT_TRACKING_ID, 100 + slot), t_ms);
        self.feed(abs(ABS_MT_POSITION_X, x), t_ms);
        self.feed(abs(ABS_MT_POSITION_Y, y), t_ms);
    }
}

const START: [(i32, i32); 4] = [(100, 100), (110, 100), (100, 110), (110, 110)];

#[test]
fn four_finger_tap_scenario() {
    let mut run = Run::new(4);
    run.feed(key(BTN_TOOL_QUADTAP, 1), 0);
    for (k, (x, y)) in START.iter().enumerate() {
        run.place(k as i32, *x, *y, 2 + 2 * k as u64);
    }
    run.feed(key(BTN_TOOL_QUADTAP, 0), 120);
    assert_eq!(run.out, vec![(0, GestureEvent::FingersDown), (120, GestureEvent::FingersUp)]);
    assert!(matches!(run.state, GestureState::Idle));
}

#[test]
fn four_finger_drift_is_early_swipe_right() {
    let mut run = Run::new(4);
    run.feed(key(BTN_TOOL_QUADTAP, 1), 0);
    for (k, (x, y)) in START.iter().enumerate() {
        run.place(k as i32, *x, *y, 2 + 2 * k as u64);
    }
    // Every finger drifts right in steps of 100 until dx = +600 at t = 150 ms.
    for step in 1..=6u64 {
        let t = 10 + step * 20 + 20;
        for (k, (x, _)) in START.iter().enumerate() {
            run.feed(abs(ABS_MT_SLOT, k as i32), t.min(150));
            run.feed(abs(ABS_MT_POSITION_X, x + 100 * step as i32), t.min(150));
        }
    }
    run.feed(key(BTN_TOOL_QUADTAP, 0), 180);
    assert_eq!(run.out.len(), 2);
    assert_eq!(run.out[0], (0, GestureEvent::FingersDown));
    assert_eq!(run.out[1].1, GestureEvent::SwipeDetected(SwipeDirection::Right));
    assert!(run.out[1].0 <= 150);
    assert!(!run.out.iter().any(|(_, e)| *e == GestureEvent::FingersUp));
    assert!(matches!(run.state, GestureState::Idle));
}

#[test]
fn three_finger_tap_cancelled_by_fourth_finger() {
    let mut run = Run::new(3);
    run.feed(key(BTN_TOOL_TRIPLETAP, 1), 0);
    assert_eq!(run.feed(key(BTN_TOOL_TRIPLETAP, 0), 100), GestureEvent::Nothing);
    assert!(matches!(run.state, GestureState::PendingTrigger { pending_since } if pending_since == 100 * MS));
    assert!(!check_pending_trigger(&mut run.state, 150 * MS));
    assert_eq!(run.feed(key(BTN_TOOL_QUADTAP, 1), 180), GestureEvent::TriggerCancelled);
    assert!(matches!(run.state, GestureState::Idle));
    assert!(!check_pending_trigger(&mut run.state, 400 * MS));
    assert_eq!(run.out, vec![(0, GestureEvent::FingersDown), (180, GestureEvent::TriggerCancelled)]);
}

#[test]
fn three_finger_tap_fires_after_debounce() {
    let mut run = Run::new(3);
    run.feed(key(BTN_TOOL_TRIPLETAP, 1), 0);
    run.feed(key(BTN_TOOL_TRIPLETAP, 0), 100);
    assert!(!check_pending_trigger(&mut run.state, 249 * MS));
    assert!(check_pending_trigger(&mut run.state, 250 * MS));
    assert!(matches!(run.state, GestureState::Idle));
    assert!(!check_pending_trigger(&mut run.state, 500 * MS));
}

#[test]
fn four_finger_press_does_not_cancel_in_four_finger_mode() {
    let mut run = Run::new(4);
    run.state = GestureState::PendingTrigger { pending_since: 0 };
    // In four-finger mode the four-finger key starts a gesture instead.
    assert_eq!(run.feed(key(BTN_TOOL_QUADTAP, 1), 10), GestureEvent::FingersDown);
}

#[test]
fn slow_release_is_swipe_not_tap() {
    let mut run = Run::new(4);
    run.feed(key(BTN_TOOL_QUADTAP, 1), 0);
    run.place(0, 100, 100, 5);
    run.feed(abs(ABS_MT_POSITION_Y, 40), 50);
    // Held longer than the tap duration: a swipe in the direction of movement.
    let r = run.feed(key(BTN_TOOL_QUADTAP, 0), 251);
    assert_eq!(r, GestureEvent::SwipeDetected(SwipeDirection::Up));
}

#[test]
fn movement_beyond_tap_ceiling_is_swipe_on_release() {
    let mut state = GestureState::Idle;
    process_event(&key(BTN_TOOL_QUADTAP, 1), &mut state, 4, 250, 500, 10_000, 0);
    process_event(&abs(ABS_X, 1000), &mut state, 4, 250, 500, 10_000, MS);
    process_event(&abs(ABS_Y, 1000), &mut state, 4, 250, 500, 10_000, MS);
    // Only slot 0 is in use; four fingers are needed before movement counts early.
    process_event(&abs(ABS_Y, 1700), &mut state, 4, 250, 500, 10_000, 2 * MS);
    let r = process_event(&key(BTN_TOOL_QUADTAP, 0), &mut state, 4, 250, 500, 10_000, 50 * MS);
    assert_eq!(r, GestureEvent::SwipeDetected(SwipeDirection::Down));
    assert!(matches!(state, GestureState::Idle));
}

#[test]
fn release_without_press_is_ignored() {
    let mut state = GestureState::Idle;
    let r = process_event(&key(BTN_TOOL_QUADTAP, 0), &mut state, 4, 250, 500, 300, 0);
    assert_eq!(r, GestureEvent::Nothing);
    assert!(matches!(state, GestureState::Idle));
}

#[test]
fn out_of_range_slot_is_dropped() {
    let mut run = Run::new(4);
    run.feed(key(BTN_TOOL_QUADTAP, 1), 0);
    run.feed(abs(ABS_MT_SLOT, 2), 1);
    run.feed(abs(ABS_MT_SLOT, 10), 1);
    run.feed(abs(ABS_MT_SLOT, -1), 1);
    match &run.state {
        GestureState::FingersDown { tracker, .. } => assert_eq!(tracker.current_slot, 2),
        _ => panic!("expected fingers down"),
    }
}

#[test]
fn direction_scaling_scenario() {
    assert_eq!(calculate_swipe_direction_from_delta(100, 10), SwipeDirection::Right);
    assert_eq!(calculate_swipe_direction_from_delta(1000, 100), SwipeDirection::Right);
    assert_eq!(calculate_swipe_direction_from_delta(-50, 20), SwipeDirection::Left);
    assert_eq!(calculate_swipe_direction_from_delta(3, -40), SwipeDirection::Up);
    assert_eq!(calculate_swipe_direction_from_delta(3, 40), SwipeDirection::Down);
    // A tie goes to the vertical axis.
    assert_eq!(calculate_swipe_direction_from_delta(25, 25), SwipeDirection::Down);
    assert_eq!(calculate_swipe_direction_from_delta(25, -25), SwipeDirection::Up);
    assert_eq!(calculate_swipe_direction_from_delta(0, 0), SwipeDirection::Up);
}

#[test]
fn early_swipe_threshold() {
    let mut t = MultiTouchTracker::new(1);
    t.record_position(0, Axis::X, 0, 0);
    t.record_position(0, Axis::Y, 0, 0);
    assert!(t.start_captured);
    t.record_position(0, Axis::X, -299, 1);
    assert_eq!(check_early_swipe(&t, 300), None);
    t.record_position(0, Axis::X, -300, 2);
    assert_eq!(check_early_swipe(&t, 300), Some(SwipeDirection::Left));
}

#[test]
fn early_swipe_check_on_uncaptured_tracker() {
    // Four fingers are needed before the start is captured; the check itself
    // looks at the averages alone.
    let mut t = MultiTouchTracker::new(4);
    t.record_position(0, Axis::X, 0, 0);
    t.record_position(0, Axis::Y, 0, 0);
    t.record_position(0, Axis::Y, 450, 1);
    assert!(!t.start_captured);
    assert_eq!(check_early_swipe(&t, 300), Some(SwipeDirection::Down));
    assert_eq!(check_early_swipe(&t, 451), None);
    let fresh = MultiTouchTracker::new(4);
    assert_eq!(check_early_swipe(&fresh, 0), Some(SwipeDirection::Up));
    assert_eq!(check_early_swipe(&fresh, 1), None);
}
