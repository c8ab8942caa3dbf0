//! Per-finger position tracking for one gesture cycle.
//!
//! Follows the multitouch slot protocol: a slot-selection event says which finger
//! the following position events belong to. Each slot remembers its first
//! position of the cycle, so that movement can be measured per finger.
use vstd::prelude::*;

verus! {

/// Number of finger slots that a tracker follows.
pub const MAX_SLOTS: usize = 10;

/// One finger slot: liveness, current position and the first position seen
/// in this cycle.
#[derive(Debug, Clone, Copy, PartialEq, Eq, Structural)]
pub struct TouchSlot {
    pub active: bool,
    pub x: i32,
    pub y: i32,
    pub start_x: Option<i32>,
    pub start_y: Option<i32>,
}

/// Which coordinate a position sample gives.
#[derive(Debug, Clone, Copy, PartialEq, Eq, Structural)]
pub enum Axis {
    X,
    Y,
}

/// Aggregates the finger slots of one gesture cycle.
#[derive(Debug)]
pub struct MultiTouchTracker {
    /// Slot that the next position events apply to.
    pub current_slot: usize,
    /// Per-slot position data.
    pub slots: Vec<TouchSlot>,
    /// Set once enough fingers have a full start position.
    pub start_captured: bool,
    /// Time of the first position sample of the cycle, in nanoseconds.
    pub first_event_time: Option<u64>,
    /// Fingers that need a full start position before movement counts.
    pub min_fingers_for_start: usize,
}

/// Mathematical view of a tracker: the same fields, with the slot table as a sequence.
pub struct TrackerView {
    pub current_slot: usize,
    pub slots: Seq<TouchSlot>,
    pub start_captured: bool,
    pub first_event_time: Option<u64>,
    pub min_fingers_for_start: usize,
}

impl View for MultiTouchTracker {
    type V = TrackerView;

    open spec fn view(&self) -> TrackerView {
        TrackerView {
            current_slot: self.current_slot,
            slots: self.slots@,
            start_captured: self.start_captured,
            first_event_time: self.first_event_time,
            min_fingers_for_start: self.min_fingers_for_start,
        }
    }
}

/// The slot table has its fixed size and the selected slot is in range.
pub open spec fn tracker_wf(t: TrackerView) -> bool {
    &&& t.slots.len() == MAX_SLOTS
    &&& t.current_slot < MAX_SLOTS
}

/// A tracker as built for a new cycle.
pub open spec fn fresh_tracker(min_fingers: usize) -> TrackerView {
    TrackerView {
        current_slot: 0,
        slots: Seq::new(MAX_SLOTS as nat, |i: int| empty_slot()),
        start_captured: false,
        first_event_time: None,
        min_fingers_for_start: min_fingers,
    }
}

/// The first sample time is kept once set.
pub open spec fn first_time_after(first: Option<u64>, now: u64) -> Option<u64> {
    if first is Some { first } else { Some(now) }
}

/// After a slot-selection event: values outside the slot table are dropped.
pub open spec fn after_slot_selection(t: TrackerView, value: i32) -> TrackerView {
    if 0 <= value < MAX_SLOTS {
        TrackerView { current_slot: value as usize, ..t }
    } else {
        t
    }
}

/// After a tracking-id event on the current slot.
pub open spec fn after_tracking_id(t: TrackerView, value: i32) -> TrackerView {
    TrackerView {
        slots: t.slots.update(
            t.current_slot as int,
            TouchSlot { active: value >= 0, ..t.slots[t.current_slot as int] },
        ),
        ..t
    }
}

/// After a position sample for `slot`, including the start latch.
pub open spec fn after_position(
    t: TrackerView,
    slot: usize,
    axis: Axis,
    value: i32,
    now: u64,
) -> TrackerView {
    let slots = t.slots.update(slot as int, with_position(t.slots[slot as int], axis, value));
    TrackerView {
        slots: slots,
        start_captured: capture_after(t.start_captured, slots, t.min_fingers_for_start),
        first_event_time: first_time_after(t.first_event_time, now),
        ..t
    }
}

/// After a start-capture attempt.
pub open spec fn after_capture(t: TrackerView) -> TrackerView {
    TrackerView {
        start_captured: capture_after(t.start_captured, t.slots, t.min_fingers_for_start),
        ..t
    }
}

pub open spec fn empty_slot() -> TouchSlot {
    TouchSlot { active: false, x: 0, y: 0, start_x: None, start_y: None }
}

/// A slot counts toward movement when its finger is down and both start
/// coordinates are known.
pub open spec fn slot_ready(s: TouchSlot) -> bool {
    s.active && s.start_x is Some && s.start_y is Some
}

pub open spec fn abs_int(v: int) -> int {
    if v < 0 { -v } else { v }
}

pub open spec fn max_int(a: int, b: int) -> int {
    if a >= b { a } else { b }
}

/// Movement of a slot along X since its start (meaningful when ready).
pub open spec fn slot_dx(s: TouchSlot) -> int {
    s.x - s.start_x.unwrap()
}

/// Movement of a slot along Y since its start (meaningful when ready).
pub open spec fn slot_dy(s: TouchSlot) -> int {
    s.y - s.start_y.unwrap()
}

/// Number of ready slots.
pub open spec fn ready_count(slots: Seq<TouchSlot>) -> nat
    decreases slots.len(),
{
    if slots.len() == 0 {
        0
    } else {
        ready_count(slots.drop_last()) + if slot_ready(slots.last()) { 1nat } else { 0nat }
    }
}

/// Sum of the X movements of the ready slots.
pub open spec fn sum_dx(slots: Seq<TouchSlot>) -> int
    decreases slots.len(),
{
    if slots.len() == 0 {
        0
    } else {
        sum_dx(slots.drop_last()) + if slot_ready(slots.last()) { slot_dx(slots.last()) } else { 0 }
    }
}

/// Sum of the Y movements of the ready slots.
pub open spec fn sum_dy(slots: Seq<TouchSlot>) -> int
    decreases slots.len(),
{
    if slots.len() == 0 {
        0
    } else {
        sum_dy(slots.drop_last()) + if slot_ready(slots.last()) { slot_dy(slots.last()) } else { 0 }
    }
}

/// Integer division that rounds toward zero, for a positive divisor.
pub open spec fn div_toward_zero(a: int, n: int) -> int {
    if a >= 0 { a / n } else { -((-a) / n) }
}

/// Mean X movement over the ready slots, rounded toward zero; 0 when none is ready.
pub open spec fn mean_dx(slots: Seq<TouchSlot>) -> int {
    if ready_count(slots) == 0 { 0 } else { div_toward_zero(sum_dx(slots), ready_count(slots) as int) }
}

/// Mean Y movement over the ready slots, rounded toward zero; 0 when none is ready.
pub open spec fn mean_dy(slots: Seq<TouchSlot>) -> int {
    if ready_count(slots) == 0 { 0 } else { div_toward_zero(sum_dy(slots), ready_count(slots) as int) }
}

/// Largest absolute per-axis movement of any ready slot; 0 when none is ready.
pub open spec fn max_movement(slots: Seq<TouchSlot>) -> int
    decreases slots.len(),
{
    if slots.len() == 0 {
        0
    } else {
        let s = slots.last();
        let here = if slot_ready(s) { max_int(abs_int(slot_dx(s)), abs_int(slot_dy(s))) } else { 0 };
        max_int(max_movement(slots.drop_last()), here)
    }
}

/// A slot after a position sample: the coordinate is updated, the start is set
/// if it was unset, and the finger counts as present.
pub open spec fn with_position(s: TouchSlot, axis: Axis, value: i32) -> TouchSlot {
    match axis {
        Axis::X => TouchSlot {
            active: true,
            x: value,
            start_x: if s.start_x is Some { s.start_x } else { Some(value) },
            ..s
        },
        Axis::Y => TouchSlot {
            active: true,
            y: value,
            start_y: if s.start_y is Some { s.start_y } else { Some(value) },
            ..s
        },
    }
}

/// The latch rule: once captured, always captured; otherwise captured exactly
/// when enough slots are ready.
pub open spec fn capture_after(captured: bool, slots: Seq<TouchSlot>, min_fingers: usize) -> bool {
    captured || ready_count(slots) >= min_fingers
}

impl MultiTouchTracker {
    /// The slot table has its fixed size and the selected slot is in range.
    pub open spec fn wf(&self) -> bool {
        tracker_wf(self@)
    }

    /// A tracker for a new cycle, needing `min_fingers` ready slots before
    /// movement counts.
    pub fn new(min_fingers: usize) -> (r: Self)
        ensures
            r.wf(),
            r@ == fresh_tracker(min_fingers),
    {
        let mut slots: Vec<TouchSlot> = Vec::new();
        let mut i: usize = 0;
        while i < MAX_SLOTS
            invariant
                i <= MAX_SLOTS,
                slots@ == Seq::new(i as nat, |k: int| empty_slot()),
            decreases MAX_SLOTS - i,
        {
            slots.push(TouchSlot { active: false, x: 0, y: 0, start_x: None, start_y: None });
            i = i + 1;
        }
        proof {
            assert(slots@ =~= fresh_tracker(min_fingers).slots);
        }
        MultiTouchTracker {
            current_slot: 0,
            slots,
            start_captured: false,
            first_event_time: None,
            min_fingers_for_start: min_fingers,
        }
    }

    /// Notes the time of the first position sample of the cycle.
    pub fn mark_event(&mut self, now: u64)
        ensures
            final(self)@ == (TrackerView {
                first_event_time: first_time_after(old(self).first_event_time, now),
                ..old(self)@
            }),
    {
        if self.first_event_time.is_none() {
            self.first_event_time = Some(now);
        }
    }

    /// Number of fingers down with both start coordinates known.
    pub fn fingers_with_start(&self) -> (r: usize)
        requires
            self.wf(),
        ensures
            r == ready_count(self.slots@),
    {
        let mut count: usize = 0;
        let mut i: usize = 0;
        while i < self.slots.len()
            invariant
                i <= self.slots@.len(),
                self.slots@.len() == MAX_SLOTS,
                count == ready_count(self.slots@.subrange(0, i as int)),
                count <= i,
            decreases self.slots@.len() - i,
        {
            let s = self.slots[i];
            proof {
                let pre = self.slots@.subrange(0, i as int + 1);
                assert(pre.drop_last() =~= self.slots@.subrange(0, i as int));
                assert(pre.last() == s);
            }
            if s.active && s.start_x.is_some() && s.start_y.is_some() {
                count = count + 1;
            }
            i = i + 1;
        }
        proof {
            assert(self.slots@.subrange(0, self.slots@.len() as int) =~= self.slots@);
        }
        count
    }

    /// Latches `start_captured` once enough fingers have a full start position.
    /// Once latched, further calls change nothing.
    pub fn try_capture_start(&mut self)
        requires
            old(self).wf(),
        ensures
            final(self).wf(),
            final(self)@ == after_capture(old(self)@),
            old(self).start_captured ==> final(self)@ == old(self)@,
    {
        if self.start_captured {
            return;
        }
        let fingers_ready = self.fingers_with_start();
        if fingers_ready >= self.min_fingers_for_start {
            self.start_captured = true;
        }
    }
    /// Mean signed movement `(dx, dy)` over the ready slots, each rounded toward
    /// zero; `(0, 0)` when no slot is ready. Positive X is right, positive Y is down.
    pub fn average_movement(&self) -> (r: (i64, i64))
        requires
            self.wf(),
        ensures
            r.0 == mean_dx(self.slots@),
            r.1 == mean_dy(self.slots@),
    {
        let mut total_dx: i64 = 0;
        let mut total_dy: i64 = 0;
        let mut count: i64 = 0;
        let mut i: usize = 0;
        while i < self.slots.len()
            invariant
                i <= self.slots@.len(),
                self.slots@.len() == MAX_SLOTS,
                count == ready_count(self.slots@.subrange(0, i as int)),
                total_dx == sum_dx(self.slots@.subrange(0, i as int)),
                total_dy == sum_dy(self.slots@.subrange(0, i as int)),
                0 <= count <= i,
                -(i as int) * 0x1_0000_0000 <= total_dx <= (i as int) * 0x1_0000_0000,
                -(i as int) * 0x1_0000_0000 <= total_dy <= (i as int) * 0x1_0000_0000,
            decreases self.slots@.len() - i,
        {
            let s = self.slots[i];
            proof {
                let pre = self.slots@.subrange(0, i as int + 1);
                assert(pre.drop_last() =~= self.slots@.subrange(0, i as int));
                assert(pre.last() == s);
            }
            if s.active {
                match (s.start_x, s.start_y) {
                    (Some(sx), Some(sy)) => {
                        total_dx = total_dx + (s.x as i64 - sx as i64);
                        total_dy = total_dy + (s.y as i64 - sy as i64);
                        count = count + 1;
                    },
                    _ => {},
                }
            }
            i = i + 1;
        }
        proof {
            assert(self.slots@.subrange(0, self.slots@.len() as int) =~= self.slots@);
        }
        if count == 0 {
            return (0, 0);
        }
        (Self::div_toward_zero_i64(total_dx, count), Self::div_toward_zero_i64(total_dy, count))
    }

    fn div_toward_zero_i64(a: i64, n: i64) -> (r: i64)
        requires
            n > 0,
            a > i64::MIN,
        ensures
            r == div_toward_zero(a as int, n as int),
    {
        if a >= 0 {
            a / n
        } else {
            -((-a) / n)
        }
    }

    /// Largest absolute per-axis movement of any ready slot since its start;
    /// 0 when no slot is ready.
    pub fn max_movement_from_start(&self) -> (r: i64)
        requires
            self.wf(),
        ensures
            r == max_movement(self.slots@),
    {
        let mut max: i64 = 0;
        let mut i: usize = 0;
        while i < self.slots.len()
            invariant
                i <= self.slots@.len(),
                self.slots@.len() == MAX_SLOTS,
                max == max_movement(self.slots@.subrange(0, i as int)),
            decreases self.slots@.len() - i,
        {
            let s = self.slots[i];
            proof {
                let pre = self.slots@.subrange(0, i as int + 1);
                assert(pre.drop_last() =~= self.slots@.subrange(0, i as int));
                assert(pre.last() == s);
            }
            if s.active {
                match (s.start_x, s.start_y) {
                    (Some(sx), Some(sy)) => {
                        let ddx = s.x as i64 - sx as i64;
                        let ddy = s.y as i64 - sy as i64;
                        let dx: i64 = if ddx < 0 { -ddx } else { ddx };
                        let dy: i64 = if ddy < 0 { -ddy } else { ddy };
                        let here: i64 = if dx >= dy { dx } else { dy };
                        if here > max {
                            max = here;
                        }
                    },
                    _ => {},
                }
            }
            i = i + 1;
        }
        proof {
            assert(self.slots@.subrange(0, self.slots@.len() as int) =~= self.slots@);
        }
        max
    }
    /// Selects the slot that later position events apply to. A value outside
    /// the slot table is ignored.
    pub fn record_slot_selection(&mut self, value: i32)
        requires
            old(self).wf(),
        ensures
            final(self).wf(),
            final(self)@ == after_slot_selection(old(self)@, value),
    {
        if 0 <= value && (value as usize) < MAX_SLOTS {
            self.current_slot = value as usize;
        }
    }

    /// Marks the current slot's finger as present (a non-negative tracking id)
    /// or lifted (a negative one).
    pub fn record_tracking_id(&mut self, value: i32)
        requires
            old(self).wf(),
        ensures
            final(self).wf(),
            final(self)@ == after_tracking_id(old(self)@, value),
    {
        let slot = self.current_slot;
        let mut s = self.slots[slot];
        s.active = value >= 0;
        self.slots.set(slot, s);
    }

    /// Records a position sample for `slot`: updates the coordinate, sets the
    /// slot's start for that axis if it was unset, marks the finger present,
    /// notes the time and tries to latch the start.
    pub fn record_position(&mut self, slot: usize, axis: Axis, value: i32, now: u64)
        requires
            old(self).wf(),
            slot < MAX_SLOTS,
        ensures
            final(self).wf(),
            final(self)@ == after_position(old(self)@, slot, axis, value, now),
    {
        let mut s = self.slots[slot];
        match axis {
            Axis::X => {
                if s.start_x.is_none() {
                    s.start_x = Some(value);
                }
                s.x = value;
            },
            Axis::Y => {
                if s.start_y.is_none() {
                    s.start_y = Some(value);
                }
                s.y = value;
            },
        }
        s.active = true;
        self.slots.set(slot, s);
        self.mark_event(now);
        self.try_capture_start();
    }
}

/// A table of empty slots has no ready slot and no movement.
pub proof fn lemma_empty_slots(n: nat)
    ensures
        ready_count(Seq::new(n, |i: int| empty_slot())) == 0,
        max_movement(Seq::new(n, |i: int| empty_slot())) == 0,
        sum_dx(Seq::new(n, |i: int| empty_slot())) == 0,
        sum_dy(Seq::new(n, |i: int| empty_slot())) == 0,
    decreases n,
{
    if n > 0 {
        lemma_empty_slots((n - 1) as nat);
        assert(Seq::new(n, |i: int| empty_slot()).drop_last() =~= Seq::new(
            (n - 1) as nat,
            |i: int| empty_slot(),
        ));
    }
}

/// A tracker for a new cycle has not moved: no ready slot, zero average and
/// zero maximum movement.
pub proof fn lemma_fresh_tracker_still(min_fingers: usize)
    ensures
        ready_count(fresh_tracker(min_fingers).slots) == 0,
        max_movement(fresh_tracker(min_fingers).slots) == 0,
        mean_dx(fresh_tracker(min_fingers).slots) == 0,
        mean_dy(fresh_tracker(min_fingers).slots) == 0,
        tracker_wf(fresh_tracker(min_fingers)),
{
    lemma_empty_slots(MAX_SLOTS as nat);
}

/// Capturing the start is idempotent: a second attempt changes nothing, and
/// an attempt on a tracker that has already captured changes nothing.
pub proof fn capture_start_idempotent(t: TrackerView)
    ensures
        after_capture(after_capture(t)) == after_capture(t),
        t.start_captured ==> after_capture(t) == t,
{
}

} // verus!
