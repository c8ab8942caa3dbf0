use cosmic_pie_menu::tracker::{Axis, MultiTouchTracker, MAX_SLOTS};

#[test]
fn fresh_tracker_is_still() {
    let t = MultiTouchTracker::new(3);
    assert_eq!(t.slots.len(), MAX_SLOTS);
    assert_eq!(t.fingers_with_start(), 0);
    assert_eq!(t.average_movement(), (0, 0));
    assert_eq!(t.max_movement_from_start(), 0);
    assert!(!t.start_captured);
}

#[test]
fn start_is_set_once_per_cycle() {
    let mut t = MultiTouchTracker::new(1);
    t.record_position(3, Axis::X, 10, 5);
    t.record_position(3, Axis::X, 40, 6);
    t.record_position(3, Axis::Y, -7, 7);
    assert_eq!(t.slots[3].start_x, Some(10));
    assert_eq!(t.slots[3].x, 40);
    assert_eq!(t.slots[3].start_y, Some(-7));
    assert!(t.slots[3].active);
    assert_eq!(t.first_event_time, Some(5));
}

#[test]
fn capture_waits_for_required_fingers() {
    let mut t = MultiTouchTracker::new(2);
    t.record_position(0, Axis::X, 1, 0);
    t.record_position(0, Axis::Y, 1, 0);
    assert!(!t.start_captured);
    t.record_position(1, Axis::X, 5, 0);
    assert!(!t.start_captured);
    t.record_position(1, Axis::Y, 5, 0);
    assert!(t.start_captured);
    assert_eq!(t.fingers_with_start(), 2);
}

#[test]
fn try_capture_start_is_idempotent() {
    let mut t = MultiTouchTracker::new(1);
    t.record_position(0, Axis::X, 1, 0);
    t.record_position(0, Axis::Y, 2, 0);
    assert!(t.start_captured);
    let before = format!("{:?}", t);
    t.try_capture_start();
    t.try_capture_start();
    assert_eq!(format!("{:?}", t), before);
    // Even when the fingers lift, a latched start stays latched.
    t.record_tracking_id(-1);
    t.try_capture_start();
    assert!(t.start_captured);
}

#[test]
fn average_rounds_toward_zero_over_ready_slots() {
    let mut t = MultiTouchTracker::new(3);
    for (slot, dx, dy) in [(0usize, 10, -10), (1, 11, -11), (2, 0, 0)] {
        t.record_position(slot, Axis::X, 100, 0);
        t.record_position(slot, Axis::Y, 100, 0);
        t.record_position(slot, Axis::X, 100 + dx, 1);
        t.record_position(slot, Axis::Y, 100 + dy, 1);
    }
    // (10 + 11 + 0) / 3 = 7, (-10 - 11 + 0) / 3 = -7
    assert_eq!(t.average_movement(), (7, -7));
    assert_eq!(t.max_movement_from_start(), 11);
    // A slot whose finger lifted no longer counts.
    t.record_slot_selection(1);
    t.record_tracking_id(-1);
    assert_eq!(t.fingers_with_start(), 2);
    assert_eq!(t.average_movement(), (5, -5));
    assert_eq!(t.max_movement_from_start(), 10);
}

#[test]
fn extreme_positions_do_not_overflow() {
    let mut t = MultiTouchTracker::new(1);
    t.record_position(0, Axis::X, i32::MIN, 0);
    t.record_position(0, Axis::Y, i32::MAX, 0);
    t.record_position(0, Axis::X, i32::MAX, 1);
    t.record_position(0, Axis::Y, i32::MIN, 1);
    assert_eq!(t.average_movement(), (u32::MAX as i64, -(u32::MAX as i64)));
    assert_eq!(t.max_movement_from_start(), u32::MAX as i64);
}

#[test]
fn slot_selection_ignores_out_of_range() {
    let mut t = MultiTouchTracker::new(1);
    t.record_slot_selection(9);
    assert_eq!(t.current_slot, 9);
    t.record_slot_selection(10);
    assert_eq!(t.current_slot, 9);
    t.record_slot_selection(-3);
    assert_eq!(t.current_slot, 9);
    t.mark_event(4);
    t.mark_event(8);
    assert_eq!(t.first_event_time, Some(4));
}
