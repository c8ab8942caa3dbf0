//! Decisions of the gesture loop: when to reload the configuration, when to
//! rescan for devices, how to turn recognizer outcomes into messages and swipe
//! actions, and how to recover when a device goes away.
//!
//! The loop itself (reading devices, sleeping, spawning commands, sending
//! messages) is driven from outside: it performs the action that a method here
//! returns and reports what happened through the next call.
use vstd::prelude::*;

use crate::config::{
    action_for, command_of, direction_allowed, direction_free, GestureConfig, SwipeAction,
    WorkspaceLayout,
};
use crate::gesture::{
    check_pending_trigger, elapsed, pending_check, process_event, step, GestureEvent,
    GestureState, InputEvent, SwipeDirection,
};

verus! {

/// How often the stored configuration is re-read, in nanoseconds.
pub const CONFIG_CHECK_INTERVAL_NS: u64 = 2_000_000_000;

/// Least time between two device scans while no device is bound, in nanoseconds.
pub const RESCAN_INTERVAL_NS: u64 = 5_000_000_000;

/// Messages from the gesture loop to the application.
#[derive(Debug, Clone, Copy, PartialEq, Eq, Structural)]
pub enum GestureMessage {
    /// The pie menu should be shown (a gesture completed).
    ShowPieMenu,
    /// Fingers touched down (for visual feedback).
    FingersDown,
    /// The gesture was cancelled or turned into a swipe: reset the feedback.
    Reset,
}

/// What to do with a swipe once the workspace layout is known.
#[derive(Debug, Clone, Copy, PartialEq, Eq, Structural)]
pub enum SwipeCommand {
    /// The direction belongs to workspace switching, or no action is bound.
    Ignore,
    /// Show the pie menu.
    ShowPieMenu,
    /// Run the command of `action`; `closing` when it closes what an earlier
    /// swipe opened.
    Run { action: SwipeAction, closing: bool },
}

/// What the loop does at the start of an iteration.
#[derive(Debug, Clone, Copy, PartialEq, Eq, Structural)]
pub enum IterationPlan {
    /// Scan for touchpads with this finger count, then start the next iteration.
    Rescan { finger_count: u8 },
    /// Read pending events from the bound devices.
    Poll,
}

/// State of the gesture loop between calls.
#[derive(Debug)]
pub struct GestureLoop {
    /// The recognizer. One state machine serves every bound device: events of
    /// two touchpads used at the same time mix in it, with no defined result.
    /// A state machine per device would keep them apart.
    pub state: GestureState,
    /// The configuration in force.
    pub config: GestureConfig,
    /// Finger count that the bound devices were chosen for.
    pub current_finger_count: u8,
    /// Number of bound devices.
    pub device_count: usize,
    /// Time of the last scan; `None` asks for a scan at once.
    pub last_scan: Option<u64>,
    /// Time of the last configuration check.
    pub last_config_check: u64,
    /// The overlay that the last swipe opened, with the direction that opened it.
    pub last_opened: Option<(SwipeAction, SwipeDirection)>,
    /// A device went away during this iteration.
    pub needs_rescan: bool,
}

/// The message that a recognizer outcome sends, if any.
pub open spec fn message_of(e: GestureEvent) -> Option<GestureMessage> {
    match e {
        GestureEvent::Nothing => None,
        GestureEvent::FingersDown => Some(GestureMessage::FingersDown),
        GestureEvent::FingersUp => Some(GestureMessage::ShowPieMenu),
        GestureEvent::TriggerCancelled => Some(GestureMessage::Reset),
        GestureEvent::SwipeDetected(_) => Some(GestureMessage::Reset),
    }
}

/// Whether a scan is due: no device is bound and the last scan is long enough ago
/// (or a scan was asked for).
pub open spec fn rescan_due(device_count: usize, last_scan: Option<u64>, now: u64) -> bool {
    device_count == 0 && match last_scan {
        None => true,
        Some(t) => elapsed(t, now) > RESCAN_INTERVAL_NS,
    }
}

/// The action that a swipe toggles: what is open gets closed by any swipe,
/// otherwise the direction's configured action opens. Returns the action and
/// whether it closes.
pub open spec fn swipe_target(
    last_opened: Option<(SwipeAction, SwipeDirection)>,
    config: GestureConfig,
    d: SwipeDirection,
) -> (SwipeAction, bool) {
    match last_opened {
        Some((prev, _)) => (prev, true),
        None => (action_for(config, d), false),
    }
}

/// What a swipe does. A direction used for workspace switching is ignored.
/// Otherwise, for the action that the swipe toggles, the pie menu is shown (and
/// nothing is recorded as open), a command action runs, and an unbound
/// direction does nothing. Returns the record of what is open before any
/// command's result is known, and the command.
pub open spec fn swipe_plan(
    last_opened: Option<(SwipeAction, SwipeDirection)>,
    config: GestureConfig,
    layout: WorkspaceLayout,
    d: SwipeDirection,
) -> (Option<(SwipeAction, SwipeDirection)>, SwipeCommand) {
    if !direction_free(layout, d) {
        (last_opened, SwipeCommand::Ignore)
    } else {
        let (action, closing) = swipe_target(last_opened, config, d);
        if action == SwipeAction::PieMenu {
            (None, SwipeCommand::ShowPieMenu)
        } else if command_of(action) is Some {
            (last_opened, SwipeCommand::Run { action, closing })
        } else {
            (last_opened, SwipeCommand::Ignore)
        }
    }
}

/// Which overlay is open after a command ran: a close clears the record, an
/// open records the action and direction; a failed start changes nothing.
pub open spec fn opened_after_run(
    last_opened: Option<(SwipeAction, SwipeDirection)>,
    action: SwipeAction,
    d: SwipeDirection,
    closing: bool,
    started: bool,
) -> Option<(SwipeAction, SwipeDirection)> {
    if !started {
        last_opened
    } else if closing {
        None
    } else {
        Some((action, d))
    }
}

impl GestureLoop {
    pub open spec fn wf(&self) -> bool {
        self.state.wf()
    }

    /// A loop with configuration `config`, started at `now`, before its first scan.
    pub fn new(config: GestureConfig, now: u64) -> (r: Self)
        ensures
            r.wf(),
            r.state@ == crate::gesture::GestureStateView::Idle,
            r.config == config,
            r.current_finger_count == config.finger_count,
            r.device_count == 0,
            r.last_scan == Some(now),
            r.last_config_check == now,
            r.last_opened is None,
            !r.needs_rescan,
    {
        GestureLoop {
            state: GestureState::Idle,
            config,
            current_finger_count: config.finger_count,
            device_count: 0,
            last_scan: Some(now),
            last_config_check: now,
            last_opened: None,
            needs_rescan: false,
        }
    }

    /// Whether the stored configuration is due to be re-read.
    pub fn config_reload_due(&self, now: u64) -> (r: bool)
        ensures
            r == (elapsed(self.last_config_check, now) > CONFIG_CHECK_INTERVAL_NS),
    {
        now >= self.last_config_check && now - self.last_config_check > CONFIG_CHECK_INTERVAL_NS
    }

    /// Puts a freshly read configuration in force. Thresholds and actions apply
    /// to the next event; the recognizer's state is kept.
    pub fn apply_config(&mut self, config: GestureConfig, now: u64)
        requires
            old(self).wf(),
        ensures
            final(self).wf(),
            *final(self) == (GestureLoop { config, last_config_check: now, ..*old(self) }),
    {
        self.config = config;
        self.last_config_check = now;
    }
    /// Takes the result of the first scan: the loop runs only if some device
    /// was found.
    pub fn begin(&mut self, found: usize) -> (r: bool)
        requires
            old(self).wf(),
        ensures
            final(self).wf(),
            r == (found > 0),
            *final(self) == (GestureLoop { device_count: found, ..*old(self) }),
    {
        self.device_count = found;
        found > 0
    }

    /// Starts an iteration. A changed finger count drops the bound devices (the
    /// first result is then `true`) and asks for a scan at once. The plan is a
    /// scan when no device is bound and the last scan is long enough ago, and
    /// otherwise a poll of the devices.
    pub fn plan_iteration(&mut self, now: u64) -> (r: (bool, IterationPlan))
        requires
            old(self).wf(),
        ensures
            final(self).wf(),
            ({
                let changed = old(self).config.finger_count != old(self).current_finger_count;
                &&& r.0 == changed
                &&& *final(self) == (GestureLoop {
                    current_finger_count: old(self).config.finger_count,
                    device_count: if changed { 0 } else { old(self).device_count },
                    last_scan: if changed { None } else { old(self).last_scan },
                    ..*old(self)
                })
                &&& r.1 == if rescan_due(final(self).device_count, final(self).last_scan, now) {
                    IterationPlan::Rescan { finger_count: final(self).current_finger_count }
                } else {
                    IterationPlan::Poll
                }
            }),
    {
        let changed = self.config.finger_count != self.current_finger_count;
        if changed {
            self.current_finger_count = self.config.finger_count;
            self.device_count = 0;
            self.last_scan = None;
        }
        let due = self.device_count == 0 && match self.last_scan {
            None => true,
            Some(t) => now >= t && now - t > RESCAN_INTERVAL_NS,
        };
        if due {
            (changed, IterationPlan::Rescan { finger_count: self.current_finger_count })
        } else {
            (changed, IterationPlan::Poll)
        }
    }

    /// Takes the result of a rescan: the found devices are bound if there are
    /// any (`true`); otherwise the loop backs off before the next attempt.
    /// `now` is the time at which the scan counts as done.
    pub fn finish_scan(&mut self, found: usize, now: u64) -> (r: bool)
        requires
            old(self).wf(),
        ensures
            final(self).wf(),
            r == (found > 0),
            *final(self) == (GestureLoop {
                device_count: if found > 0 { found } else { old(self).device_count },
                last_scan: Some(now),
                ..*old(self)
            }),
    {
        if found > 0 {
            self.device_count = found;
        }
        self.last_scan = Some(now);
        found > 0
    }

    /// Feeds one device event to the recognizer under the configuration in force.
    pub fn on_input(&mut self, event: &InputEvent, now: u64) -> (r: GestureEvent)
        requires
            old(self).wf(),
        ensures
            final(self).wf(),
            (final(self).state@, r) == step(
                old(self).state@,
                *event,
                old(self).config.finger_count,
                old(self).config.tap_max_duration_ms,
                old(self).config.tap_max_movement,
                old(self).config.swipe_threshold,
                now,
            ),
            final(self).config == old(self).config,
            final(self).current_finger_count == old(self).current_finger_count,
            final(self).device_count == old(self).device_count,
            final(self).last_scan == old(self).last_scan,
            final(self).last_config_check == old(self).last_config_check,
            final(self).last_opened == old(self).last_opened,
            final(self).needs_rescan == old(self).needs_rescan,
    {
        let config = self.config;
        process_event(
            event,
            &mut self.state,
            config.finger_count,
            config.tap_max_duration_ms,
            config.tap_max_movement,
            config.swipe_threshold,
            now,
        )
    }

    /// Decides what a detected swipe does under the workspace `layout`: any
    /// swipe closes what an earlier swipe opened; otherwise the direction's
    /// action applies. Directions used for workspace switching are ignored.
    pub fn on_swipe(&mut self, direction: SwipeDirection, layout: WorkspaceLayout) -> (r:
        SwipeCommand)
        requires
            old(self).wf(),
        ensures
            final(self).wf(),
            (final(self).last_opened, r) == swipe_plan(
                old(self).last_opened,
                old(self).config,
                layout,
                direction,
            ),
            r matches SwipeCommand::Run { action, .. } ==> command_of(action) is Some,
            *final(self) == (GestureLoop { last_opened: final(self).last_opened, ..*old(self) }),
    {
        if !direction_allowed(layout, direction) {
            return SwipeCommand::Ignore;
        }
        let (action, closing) = match self.last_opened {
            Some((prev, _)) => (prev, true),
            None => (self.config.action_for(direction), false),
        };
        if action == SwipeAction::PieMenu {
            self.last_opened = None;
            return SwipeCommand::ShowPieMenu;
        }
        if action.command().is_some() {
            SwipeCommand::Run { action, closing }
        } else {
            SwipeCommand::Ignore
        }
    }

    /// Records the result of running a swipe's command: a close clears the
    /// record of what is open, an open records it; a command that failed to
    /// start changes nothing.
    pub fn on_command_result(
        &mut self,
        action: SwipeAction,
        direction: SwipeDirection,
        closing: bool,
        started: bool,
    )
        requires
            old(self).wf(),
        ensures
            final(self).wf(),
            *final(self) == (GestureLoop {
                last_opened: opened_after_run(
                    old(self).last_opened,
                    action,
                    direction,
                    closing,
                    started,
                ),
                ..*old(self)
            }),
    {
        if started {
            if closing {
                self.last_opened = None;
            } else {
                self.last_opened = Some((action, direction));
            }
        }
    }

    /// Records a failed device read; one that says the device is gone asks for
    /// the devices to be dropped at the end of the iteration.
    pub fn on_read_error(&mut self, device_gone: bool)
        requires
            old(self).wf(),
        ensures
            final(self).wf(),
            *final(self) == (GestureLoop {
                needs_rescan: old(self).needs_rescan || device_gone,
                ..*old(self)
            }),
    {
        if device_gone {
            self.needs_rescan = true;
        }
    }

    /// Ends an iteration: confirms a pending three-finger tap whose debounce
    /// window has passed (the first result: show the menu), and drops the
    /// devices if one went away (the second result), so that the next
    /// iteration rescans.
    pub fn end_iteration(&mut self, now: u64) -> (r: (bool, bool))
        requires
            old(self).wf(),
        ensures
            final(self).wf(),
            (final(self).state@, r.0) == pending_check(old(self).state@, now),
            r.1 == old(self).needs_rescan,
            final(self).device_count == if old(self).needs_rescan { 0 } else { old(self).device_count },
            !final(self).needs_rescan,
            final(self).config == old(self).config,
            final(self).current_finger_count == old(self).current_finger_count,
            final(self).last_scan == old(self).last_scan,
            final(self).last_config_check == old(self).last_config_check,
            final(self).last_opened == old(self).last_opened,
    {
        let fired = check_pending_trigger(&mut self.state, now);
        let clear = self.needs_rescan;
        if clear {
            self.device_count = 0;
            self.needs_rescan = false;
        }
        (fired, clear)
    }
}

/// The message that the loop sends for a recognizer outcome, if any.
pub fn message_for(event: GestureEvent) -> (r: Option<GestureMessage>)
    ensures
        r == message_of(event),
{
    match event {
        GestureEvent::Nothing => None,
        GestureEvent::FingersDown => Some(GestureMessage::FingersDown),
        GestureEvent::FingersUp => Some(GestureMessage::ShowPieMenu),
        GestureEvent::TriggerCancelled => Some(GestureMessage::Reset),
        GestureEvent::SwipeDetected(_) => Some(GestureMessage::Reset),
    }
}

} // verus!
