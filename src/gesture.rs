//! The gesture state machine: turns a stream of touchpad events into taps,
//! swipes and cancellations.
use vstd::prelude::*;

use crate::tracker::{
    abs_int, after_position, after_slot_selection, after_tracking_id, fresh_tracker,
    lemma_fresh_tracker_still, max_int, max_movement, mean_dx, mean_dy, tracker_wf, Axis,
    MultiTouchTracker, TrackerView, MAX_SLOTS,
};

verus! {

/// Event type of key and button events.
pub const EV_KEY: u16 = 0x01;

/// Event type of absolute axis events.
pub const EV_ABS: u16 = 0x03;

/// Key reported while three fingers touch the pad.
pub const BTN_TOOL_TRIPLETAP: u16 = 0x14e;

/// Key reported while four fingers touch the pad.
pub const BTN_TOOL_QUADTAP: u16 = 0x14f;

/// Single-touch X position.
pub const ABS_X: u16 = 0x00;

/// Single-touch Y position.
pub const ABS_Y: u16 = 0x01;

/// Selects the multitouch slot that the following events apply to.
pub const ABS_MT_SLOT: u16 = 0x2f;

/// X position of the current multitouch slot.
pub const ABS_MT_POSITION_X: u16 = 0x35;

/// Y position of the current multitouch slot.
pub const ABS_MT_POSITION_Y: u16 = 0x36;

/// Tracking id of the current slot: non-negative while a finger is down.
pub const ABS_MT_TRACKING_ID: u16 = 0x39;

/// Nanoseconds in a millisecond.
pub const NANOS_PER_MILLI: u64 = 1_000_000;

/// How long a three-finger tap waits for a fourth finger before it fires, in
/// nanoseconds.
pub const PENDING_TRIGGER_DEBOUNCE_NS: u64 = 150_000_000;

/// One raw input event of a touchpad: type, code and value as the kernel
/// reports them.
#[derive(Debug, Clone, Copy, PartialEq, Eq, Structural)]
pub struct InputEvent {
    pub event_type: u16,
    pub code: u16,
    pub value: i32,
}

/// Direction of a swipe, relative to the touchpad's orientation.
#[derive(Debug, Clone, Copy, PartialEq, Eq, Structural)]
pub enum SwipeDirection {
    /// Toward the top of the touchpad (decreasing Y).
    Up,
    /// Toward the bottom of the touchpad (increasing Y).
    Down,
    /// Toward the left of the touchpad (decreasing X).
    Left,
    /// Toward the right of the touchpad (increasing X).
    Right,
}

/// What processing one event produced.
#[derive(Debug, Clone, Copy, PartialEq, Eq, Structural)]
pub enum GestureEvent {
    /// Nothing of note.
    Nothing,
    /// The configured number of fingers touched down.
    FingersDown,
    /// A tap was confirmed.
    FingersUp,
    /// A pending three-finger tap turned out to be a four-finger touch.
    TriggerCancelled,
    /// A swipe in the given direction.
    SwipeDetected(SwipeDirection),
}

/// State of the recognizer. Times are monotonic nanoseconds.
#[derive(Debug)]
pub enum GestureState {
    /// No fingers down.
    Idle,
    /// The configured fingers are down; positions are being tracked.
    FingersDown { start: u64, tracker: MultiTouchTracker },
    /// A three-finger tap waits out the debounce window.
    PendingTrigger { pending_since: u64 },
}

/// Mathematical view of [`GestureState`].
pub enum GestureStateView {
    Idle,
    FingersDown { start: u64, tracker: TrackerView },
    PendingTrigger { pending_since: u64 },
}

impl View for GestureState {
    type V = GestureStateView;

    open spec fn view(&self) -> GestureStateView {
        match self {
            GestureState::Idle => GestureStateView::Idle,
            GestureState::FingersDown { start, tracker } => GestureStateView::FingersDown {
                start: *start,
                tracker: tracker@,
            },
            GestureState::PendingTrigger { pending_since } => GestureStateView::PendingTrigger {
                pending_since: *pending_since,
            },
        }
    }
}

/// A state whose tracker, if any, is well formed.
pub open spec fn state_wf(s: GestureStateView) -> bool {
    s matches GestureStateView::FingersDown { tracker, .. } ==> tracker_wf(tracker)
}

impl GestureState {
    pub open spec fn wf(&self) -> bool {
        state_wf(self@)
    }
}

/// Direction of a movement `(dx, dy)`: the dominant axis decides, a tie goes to
/// the vertical axis; Y grows downward as on screen.
pub open spec fn swipe_direction(dx: int, dy: int) -> SwipeDirection {
    if abs_int(dx) > abs_int(dy) {
        if dx > 0 { SwipeDirection::Right } else { SwipeDirection::Left }
    } else {
        if dy > 0 { SwipeDirection::Down } else { SwipeDirection::Up }
    }
}

/// The key whose press starts a gesture with `finger_count` fingers.
pub open spec fn tap_key(finger_count: u8) -> u16 {
    if finger_count == 3 { BTN_TOOL_TRIPLETAP } else { BTN_TOOL_QUADTAP }
}

/// Time from `since` to `now`; zero if the clock reads earlier.
pub open spec fn elapsed(since: u64, now: u64) -> int {
    if now >= since { now - since } else { 0 }
}

/// The direction of the tracker's average movement.
pub open spec fn average_direction(t: TrackerView) -> SwipeDirection {
    swipe_direction(mean_dx(t.slots), mean_dy(t.slots))
}

/// A swipe fires early once the start is captured and the larger average
/// component reaches `threshold`.
pub open spec fn early_swipe(t: TrackerView, threshold: i32) -> Option<SwipeDirection> {
    if t.start_captured && max_int(abs_int(mean_dx(t.slots)), abs_int(mean_dy(t.slots)))
        >= threshold {
        Some(average_direction(t))
    } else {
        None
    }
}

/// A release qualifies as a tap when it is quick enough and no finger moved too far.
pub open spec fn is_tap(
    start: u64,
    t: TrackerView,
    tap_max_duration_ms: u64,
    tap_max_movement: i32,
    now: u64,
) -> bool {
    &&& elapsed(start, now) <= tap_max_duration_ms * NANOS_PER_MILLI
    &&& max_movement(t.slots) <= tap_max_movement
}

/// Outcome of releasing the fingers of a tracked gesture.
pub open spec fn release(
    start: u64,
    t: TrackerView,
    finger_count: u8,
    tap_max_duration_ms: u64,
    tap_max_movement: i32,
    now: u64,
) -> (GestureStateView, GestureEvent) {
    if is_tap(start, t, tap_max_duration_ms, tap_max_movement, now) {
        if finger_count == 3 {
            (GestureStateView::PendingTrigger { pending_since: now }, GestureEvent::Nothing)
        } else {
            (GestureStateView::Idle, GestureEvent::FingersUp)
        }
    } else {
        (GestureStateView::Idle, GestureEvent::SwipeDetected(average_direction(t)))
    }
}

/// Outcome of a position sample: early swipe, or keep tracking.
pub open spec fn after_sample(
    start: u64,
    t: TrackerView,
    swipe_threshold: i32,
) -> (GestureStateView, GestureEvent) {
    match early_swipe(t, swipe_threshold) {
        Some(d) => (GestureStateView::Idle, GestureEvent::SwipeDetected(d)),
        None => (GestureStateView::FingersDown { start, tracker: t }, GestureEvent::Nothing),
    }
}

/// Outcome of an absolute-axis event while fingers are down.
pub open spec fn axis_step(
    start: u64,
    t: TrackerView,
    code: u16,
    value: i32,
    swipe_threshold: i32,
    now: u64,
) -> (GestureStateView, GestureEvent) {
    if code == ABS_MT_SLOT {
        (
            GestureStateView::FingersDown { start, tracker: after_slot_selection(t, value) },
            GestureEvent::Nothing,
        )
    } else if code == ABS_MT_TRACKING_ID {
        (
            GestureStateView::FingersDown { start, tracker: after_tracking_id(t, value) },
            GestureEvent::Nothing,
        )
    } else if code == ABS_MT_POSITION_X {
        after_sample(start, after_position(t, t.current_slot, Axis::X, value, now), swipe_threshold)
    } else if code == ABS_MT_POSITION_Y {
        after_sample(start, after_position(t, t.current_slot, Axis::Y, value, now), swipe_threshold)
    } else if code == ABS_X {
        after_sample(start, after_position(t, 0, Axis::X, value, now), swipe_threshold)
    } else if code == ABS_Y {
        after_sample(start, after_position(t, 0, Axis::Y, value, now), swipe_threshold)
    } else {
        (GestureStateView::FingersDown { start, tracker: t }, GestureEvent::Nothing)
    }
}

/// The transition of the recognizer on one event at time `now`.
pub open spec fn step(
    s: GestureStateView,
    e: InputEvent,
    finger_count: u8,
    tap_max_duration_ms: u64,
    tap_max_movement: i32,
    swipe_threshold: i32,
    now: u64,
) -> (GestureStateView, GestureEvent) {
    if e.event_type == EV_KEY && e.code == tap_key(finger_count) {
        if e.value == 1 {
            (
                GestureStateView::FingersDown {
                    start: now,
                    tracker: fresh_tracker(finger_count as usize),
                },
                GestureEvent::FingersDown,
            )
        } else if e.value == 0 {
            match s {
                GestureStateView::FingersDown { start, tracker } => release(
                    start,
                    tracker,
                    finger_count,
                    tap_max_duration_ms,
                    tap_max_movement,
                    now,
                ),
                _ => (s, GestureEvent::Nothing),
            }
        } else {
            (s, GestureEvent::Nothing)
        }
    } else if e.event_type == EV_KEY && finger_count == 3 && e.code == BTN_TOOL_QUADTAP
        && e.value == 1 {
        if s is PendingTrigger {
            (GestureStateView::Idle, GestureEvent::TriggerCancelled)
        } else {
            (s, GestureEvent::Nothing)
        }
    } else if e.event_type == EV_ABS {
        match s {
            GestureStateView::FingersDown { start, tracker } => axis_step(
                start,
                tracker,
                e.code,
                e.value,
                swipe_threshold,
                now,
            ),
            _ => (s, GestureEvent::Nothing),
        }
    } else {
        (s, GestureEvent::Nothing)
    }
}

/// The debounce check: a pending tap fires once the window has passed.
pub open spec fn pending_check(s: GestureStateView, now: u64) -> (GestureStateView, bool) {
    match s {
        GestureStateView::PendingTrigger { pending_since } => {
            if elapsed(pending_since, now) >= PENDING_TRIGGER_DEBOUNCE_NS {
                (GestureStateView::Idle, true)
            } else {
                (s, false)
            }
        },
        _ => (s, false),
    }
}

/// Classifies the average movement of a swipe into a compass direction.
pub fn calculate_swipe_direction_from_delta(dx: i64, dy: i64) -> (r: SwipeDirection)
    ensures
        r == swipe_direction(dx as int, dy as int),
{
    let ax: i128 = if dx < 0 { -(dx as i128) } else { dx as i128 };
    let ay: i128 = if dy < 0 { -(dy as i128) } else { dy as i128 };
    if ax > ay {
        if dx > 0 { SwipeDirection::Right } else { SwipeDirection::Left }
    } else {
        if dy > 0 { SwipeDirection::Down } else { SwipeDirection::Up }
    }
}

/// The direction of an early swipe, if the tracker's average movement has
/// reached `threshold`.
pub fn check_early_swipe(tracker: &MultiTouchTracker, threshold: i32) -> (r: Option<SwipeDirection>)
    requires
        tracker.wf(),
    ensures
        r == (if max_int(abs_int(mean_dx(tracker.slots@)), abs_int(mean_dy(tracker.slots@)))
            >= threshold {
            Some(average_direction(tracker@))
        } else {
            None
        }),
{
    let (avg_dx, avg_dy) = tracker.average_movement();
    let ax: i128 = if avg_dx < 0 { -(avg_dx as i128) } else { avg_dx as i128 };
    let ay: i128 = if avg_dy < 0 { -(avg_dy as i128) } else { avg_dy as i128 };
    let movement: i128 = if ax >= ay { ax } else { ay };
    if movement >= threshold as i128 {
        Some(calculate_swipe_direction_from_delta(avg_dx, avg_dy))
    } else {
        None
    }
}

/// Confirms a pending three-finger tap once the debounce window has passed.
/// Returns whether the tap fired.
pub fn check_pending_trigger(state: &mut GestureState, now: u64) -> (r: bool)
    requires
        old(state).wf(),
    ensures
        final(state).wf(),
        (final(state)@, r) == pending_check(old(state)@, now),
{
    let fire = match state {
        GestureState::PendingTrigger { pending_since } => {
            now >= *pending_since && now - *pending_since >= PENDING_TRIGGER_DEBOUNCE_NS
        },
        _ => false,
    };
    if fire {
        *state = GestureState::Idle;
    }
    fire
}

/// What a release of the tap key found.
enum Release {
    NotTracking,
    Tap,
    Swipe(SwipeDirection),
}

/// Feeds one position sample of the current (or legacy single-touch) slot to the
/// tracker, then checks for an early swipe.
fn sample_position(
    tracker: &mut MultiTouchTracker,
    slot: usize,
    axis: Axis,
    value: i32,
    swipe_threshold: i32,
    now: u64,
) -> (r: Option<SwipeDirection>)
    requires
        old(tracker).wf(),
        slot < MAX_SLOTS,
    ensures
        final(tracker).wf(),
        final(tracker)@ == after_position(old(tracker)@, slot, axis, value, now),
        r == early_swipe(final(tracker)@, swipe_threshold),
{
    tracker.record_position(slot, axis, value, now);
    if tracker.start_captured {
        check_early_swipe(tracker, swipe_threshold)
    } else {
        None
    }
}

/// Processes one input event: updates `state` and reports what happened.
///
/// A press of the configured finger-count key starts a fresh cycle. Its release
/// is a tap when quick and still enough (in three-finger mode the tap waits in
/// `PendingTrigger`), and otherwise a swipe in the direction of the average
/// movement. Position events while fingers are down feed the tracker and may
/// fire a swipe early. In three-finger mode a four-finger press cancels a pending
/// tap. Slot indices outside the table are dropped.
pub fn process_event(
    event: &InputEvent,
    state: &mut GestureState,
    finger_count: u8,
    tap_max_duration_ms: u64,
    tap_max_movement: i32,
    swipe_threshold: i32,
    now: u64,
) -> (r: GestureEvent)
    requires
        old(state).wf(),
    ensures
        final(state).wf(),
        (final(state)@, r) == step(
            old(state)@,
            *event,
            finger_count,
            tap_max_duration_ms,
            tap_max_movement,
            swipe_threshold,
            now,
        ),
{
    let tap_key: u16 = if finger_count == 3 {
        BTN_TOOL_TRIPLETAP
    } else {
        BTN_TOOL_QUADTAP
    };
    if event.event_type == EV_KEY && event.code == tap_key {
        if event.value == 1 {
            *state = GestureState::FingersDown {
                start: now,
                tracker: MultiTouchTracker::new(finger_count as usize),
            };
            return GestureEvent::FingersDown;
        } else if event.value == 0 {
            let release = match state {
                GestureState::FingersDown { start, tracker } => {
                    let duration: u64 = if now >= *start {
                        now - *start
                    } else {
                        0
                    };
                    let max_movement = tracker.max_movement_from_start();
                    let quick = (duration as u128) <= (tap_max_duration_ms as u128) * (
                    NANOS_PER_MILLI as u128);
                    if quick && max_movement <= tap_max_movement as i64 {
                        Release::Tap
                    } else {
                        let (avg_dx, avg_dy) = tracker.average_movement();
                        Release::Swipe(calculate_swipe_direction_from_delta(avg_dx, avg_dy))
                    }
                },
                _ => Release::NotTracking,
            };
            match release {
                Release::NotTracking => {
                    return GestureEvent::Nothing;
                },
                Release::Tap => {
                    if finger_count == 3 {
                        *state = GestureState::PendingTrigger { pending_since: now };
                        return GestureEvent::Nothing;
                    } else {
                        *state = GestureState::Idle;
                        return GestureEvent::FingersUp;
                    }
                },
                Release::Swipe(direction) => {
                    *state = GestureState::Idle;
                    return GestureEvent::SwipeDetected(direction);
                },
            }
        } else {
            return GestureEvent::Nothing;
        }
    }
    if event.event_type == EV_KEY && finger_count == 3 && event.code == BTN_TOOL_QUADTAP
        && event.value == 1 {
        if let GestureState::PendingTrigger { .. } = state {
            *state = GestureState::Idle;
            return GestureEvent::TriggerCancelled;
        }
        return GestureEvent::Nothing;
    }
    if event.event_type == EV_ABS {
        let early = match state {
            GestureState::FingersDown { tracker, .. } => {
                let val = event.value;
                let code = event.code;
                if code == ABS_MT_SLOT {
                    tracker.record_slot_selection(val);
                    None
                } else if code == ABS_MT_TRACKING_ID {
                    tracker.record_tracking_id(val);
                    None
                } else if code == ABS_MT_POSITION_X {
                    let slot = tracker.current_slot;
                    sample_position(tracker, slot, Axis::X, val, swipe_threshold, now)
                } else if code == ABS_MT_POSITION_Y {
                    let slot = tracker.current_slot;
                    sample_position(tracker, slot, Axis::Y, val, swipe_threshold, now)
                } else if code == ABS_X {
                    sample_position(tracker, 0, Axis::X, val, swipe_threshold, now)
                } else if code == ABS_Y {
                    sample_position(tracker, 0, Axis::Y, val, swipe_threshold, now)
                } else {
                    None
                }
            },
            _ => None,
        };
        if let Some(direction) = early {
            *state = GestureState::Idle;
            return GestureEvent::SwipeDetected(direction);
        }
    }
    GestureEvent::Nothing
}

/// A key event: `value` 1 is a press, 0 a release.
pub open spec fn key_event(code: u16, value: i32) -> InputEvent {
    InputEvent { event_type: EV_KEY, code, value }
}

/// In four-finger mode, a press of the tap key followed by its release within
/// the tap duration, with no movement in between, gives exactly `FingersDown`
/// then `FingersUp`, and the recognizer is idle again: no swipe is reported.
pub proof fn four_finger_tap_fires_once(
    s: GestureStateView,
    finger_count: u8,
    tap_max_duration_ms: u64,
    tap_max_movement: i32,
    swipe_threshold: i32,
    t0: u64,
    t1: u64,
)
    requires
        finger_count != 3,
        t0 <= t1,
        t1 - t0 <= tap_max_duration_ms * NANOS_PER_MILLI,
        tap_max_movement >= 0,
    ensures
        ({
            let key = tap_key(finger_count);
            let (s1, o1) = step(s, key_event(key, 1), finger_count, tap_max_duration_ms,
                tap_max_movement, swipe_threshold, t0);
            let (s2, o2) = step(s1, key_event(key, 0), finger_count, tap_max_duration_ms,
                tap_max_movement, swipe_threshold, t1);
            &&& o1 == GestureEvent::FingersDown
            &&& o2 == GestureEvent::FingersUp
            &&& s2 == GestureStateView::Idle
        }),
{
    lemma_fresh_tracker_still(finger_count as usize);
}

/// In four-finger mode, releasing a tracked gesture that qualifies as a tap
/// (quick, and no finger moved beyond the movement ceiling) reports `FingersUp`
/// and returns to idle.
pub proof fn four_finger_release_is_tap(
    start: u64,
    tracker: TrackerView,
    finger_count: u8,
    tap_max_duration_ms: u64,
    tap_max_movement: i32,
    swipe_threshold: i32,
    now: u64,
)
    requires
        finger_count != 3,
        is_tap(start, tracker, tap_max_duration_ms, tap_max_movement, now),
    ensures
        step(
            GestureStateView::FingersDown { start, tracker },
            key_event(tap_key(finger_count), 0),
            finger_count,
            tap_max_duration_ms,
            tap_max_movement,
            swipe_threshold,
            now,
        ) == (GestureStateView::Idle, GestureEvent::FingersUp),
{
}

/// In three-finger mode a qualifying tap does not fire at release: the
/// recognizer waits in `PendingTrigger` from the release time, reports nothing,
/// and the debounce check fires it exactly when the window has passed.
pub proof fn three_finger_tap_waits_for_debounce(
    s: GestureStateView,
    tap_max_duration_ms: u64,
    tap_max_movement: i32,
    swipe_threshold: i32,
    t0: u64,
    t1: u64,
    t2: u64,
)
    requires
        t0 <= t1 <= t2,
        t1 - t0 <= tap_max_duration_ms * NANOS_PER_MILLI,
        tap_max_movement >= 0,
    ensures
        ({
            let (s1, o1) = step(s, key_event(BTN_TOOL_TRIPLETAP, 1), 3, tap_max_duration_ms,
                tap_max_movement, swipe_threshold, t0);
            let (s2, o2) = step(s1, key_event(BTN_TOOL_TRIPLETAP, 0), 3, tap_max_duration_ms,
                tap_max_movement, swipe_threshold, t1);
            let (s3, fired) = pending_check(s2, t2);
            &&& o1 == GestureEvent::FingersDown
            &&& o2 == GestureEvent::Nothing
            &&& s2 == GestureStateView::PendingTrigger { pending_since: t1 }
            &&& fired == (t2 - t1 >= PENDING_TRIGGER_DEBOUNCE_NS)
            &&& (fired ==> s3 == GestureStateView::Idle)
            &&& (!fired ==> s3 == s2)
        }),
{
    lemma_fresh_tracker_still(3);
}

/// While a three-finger tap is pending, no event reports `FingersUp`: only the
/// debounce check can fire it.
pub proof fn pending_tap_fires_only_by_debounce(
    pending_since: u64,
    e: InputEvent,
    tap_max_duration_ms: u64,
    tap_max_movement: i32,
    swipe_threshold: i32,
    now: u64,
)
    ensures
        step(
            GestureStateView::PendingTrigger { pending_since },
            e,
            3,
            tap_max_duration_ms,
            tap_max_movement,
            swipe_threshold,
            now,
        ).1 != GestureEvent::FingersUp,
{
}

/// In three-finger mode, a four-finger press while a tap is pending cancels it:
/// `TriggerCancelled` is reported, the recognizer is idle, and the debounce
/// check no longer fires, at any later time.
pub proof fn four_finger_press_cancels_pending_tap(
    pending_since: u64,
    tap_max_duration_ms: u64,
    tap_max_movement: i32,
    swipe_threshold: i32,
    now: u64,
    later: u64,
)
    ensures
        ({
            let (s1, o1) = step(
                GestureStateView::PendingTrigger { pending_since },
                key_event(BTN_TOOL_QUADTAP, 1),
                3,
                tap_max_duration_ms,
                tap_max_movement,
                swipe_threshold,
                now,
            );
            &&& o1 == GestureEvent::TriggerCancelled
            &&& s1 == GestureStateView::Idle
            &&& pending_check(s1, later) == (GestureStateView::Idle, false)
        }),
{
}

/// Releasing a gesture in which some finger moved beyond the movement ceiling
/// reports exactly one swipe, in the direction of the dominant axis of the
/// average movement, never `FingersUp`, and returns to idle.
pub proof fn release_after_movement_is_swipe(
    start: u64,
    tracker: TrackerView,
    finger_count: u8,
    tap_max_duration_ms: u64,
    tap_max_movement: i32,
    swipe_threshold: i32,
    now: u64,
)
    requires
        max_movement(tracker.slots) > tap_max_movement,
    ensures
        step(
            GestureStateView::FingersDown { start, tracker },
            key_event(tap_key(finger_count), 0),
            finger_count,
            tap_max_duration_ms,
            tap_max_movement,
            swipe_threshold,
            now,
        ) == (
            GestureStateView::Idle,
            GestureEvent::SwipeDetected(
                swipe_direction(mean_dx(tracker.slots), mean_dy(tracker.slots)),
            ),
        ),
{
}

/// A position sample after which the start is captured and the average movement
/// reaches the swipe threshold fires the swipe at once, before any release, and
/// the recognizer is idle; the release that follows reports nothing.
pub proof fn early_swipe_fires_before_release(
    start: u64,
    tracker: TrackerView,
    e: InputEvent,
    finger_count: u8,
    tap_max_duration_ms: u64,
    tap_max_movement: i32,
    swipe_threshold: i32,
    now: u64,
    later: u64,
)
    requires
        tracker_wf(tracker),
        e.event_type == EV_ABS,
        e.code == ABS_MT_POSITION_X || e.code == ABS_MT_POSITION_Y,
        ({
            let axis = if e.code == ABS_MT_POSITION_X { Axis::X } else { Axis::Y };
            let t2 = after_position(tracker, tracker.current_slot, axis, e.value, now);
            &&& t2.start_captured
            &&& max_int(abs_int(mean_dx(t2.slots)), abs_int(mean_dy(t2.slots))) >= swipe_threshold
        }),
    ensures
        ({
            let axis = if e.code == ABS_MT_POSITION_X { Axis::X } else { Axis::Y };
            let t2 = after_position(tracker, tracker.current_slot, axis, e.value, now);
            let (s1, o1) = step(
                GestureStateView::FingersDown { start, tracker },
                e,
                finger_count,
                tap_max_duration_ms,
                tap_max_movement,
                swipe_threshold,
                now,
            );
            let (s2, o2) = step(
                s1,
                key_event(tap_key(finger_count), 0),
                finger_count,
                tap_max_duration_ms,
                tap_max_movement,
                swipe_threshold,
                later,
            );
            &&& o1 == GestureEvent::SwipeDetected(average_direction(t2))
            &&& s1 == GestureStateView::Idle
            &&& o2 == GestureEvent::Nothing
            &&& s2 == GestureStateView::Idle
        }),
{
}

/// Direction classification does not depend on the magnitude of the movement:
/// scaling `(dx, dy)` by any positive factor gives the same direction.
pub proof fn direction_invariant_under_scaling(dx: int, dy: int, k: int)
    requires
        k > 0,
    ensures
        swipe_direction(k * dx, k * dy) == swipe_direction(dx, dy),
{
    assert(abs_int(k * dx) == k * abs_int(dx)) by (nonlinear_arith)
        requires k > 0;
    assert(abs_int(k * dy) == k * abs_int(dy)) by (nonlinear_arith)
        requires k > 0;
    assert((k * abs_int(dx) > k * abs_int(dy)) == (abs_int(dx) > abs_int(dy))) by (nonlinear_arith)
        requires k > 0;
    assert((k * dx > 0) == (dx > 0)) by (nonlinear_arith)
        requires k > 0;
    assert((k * dy > 0) == (dy > 0)) by (nonlinear_arith)
        requires k > 0;
}

/// `FingersUp` comes from exactly one kind of step: in four-finger mode, the
/// release of the tap key while fingers are tracked and the gesture qualifies
/// as a tap; that step also leaves the recognizer idle, where a further release
/// reports nothing. So a cycle reports `FingersUp` at most once, and never
/// together with a swipe.
pub proof fn fingers_up_only_on_qualifying_release(
    s: GestureStateView,
    e: InputEvent,
    finger_count: u8,
    tap_max_duration_ms: u64,
    tap_max_movement: i32,
    swipe_threshold: i32,
    now: u64,
    later: u64,
)
    ensures
        ({
            let (s1, o1) = step(s, e, finger_count, tap_max_duration_ms, tap_max_movement,
                swipe_threshold, now);
            &&& o1 == GestureEvent::FingersUp <==> {
                &&& finger_count != 3
                &&& e == key_event(tap_key(finger_count), 0)
                &&& s matches GestureStateView::FingersDown { start, tracker }
                &&& is_tap(start, tracker, tap_max_duration_ms, tap_max_movement, now)
            }
            &&& o1 == GestureEvent::FingersUp ==> s1 == GestureStateView::Idle && step(
                s1,
                key_event(tap_key(finger_count), 0),
                finger_count,
                tap_max_duration_ms,
                tap_max_movement,
                swipe_threshold,
                later,
            ) == (GestureStateView::Idle, GestureEvent::Nothing)
        }),
{
}

} // verus!
