//! Messages of the tray icon and the flags through which gestures light it up.
use vstd::prelude::*;

use std::sync::atomic::{AtomicBool, Ordering};
use std::sync::Arc;

verus! {

/// Messages from the tray to the application.
#[derive(Debug, Clone, Copy, PartialEq, Eq, Structural)]
pub enum TrayMessage {
    /// "Show Pie Menu" was chosen; holds the cursor position.
    ShowPieMenu { x: i32, y: i32 },
    /// "Settings" was chosen.
    OpenSettings,
    /// "Quit" was chosen.
    Quit,
}

/// Flags shared between the gesture thread and the tray: a gesture was
/// detected (highlight the icon), or the menu closed (reset it).
///
/// The flags are shared between threads, so no call can promise what another
/// thread sees next; each flag is only ever set by the methods that signal it
/// and cleared by the one that consumes it.
#[derive(Clone)]
pub struct GestureFeedback {
    triggered: Arc<AtomicBool>,
    reset_requested: Arc<AtomicBool>,
}

impl GestureFeedback {
    /// Feedback with neither flag set.
    pub fn new() -> Self {
        GestureFeedback {
            triggered: Arc::new(AtomicBool::new(false)),
            reset_requested: Arc::new(AtomicBool::new(false)),
        }
    }

    /// Signals that a gesture was detected.
    pub fn trigger(&self) {
        self.triggered.store(true, Ordering::SeqCst);
    }

    /// Signals that the menu has closed.
    pub fn reset(&self) {
        self.reset_requested.store(true, Ordering::SeqCst);
    }

    /// Whether a gesture was signalled since the last check; clears the flag.
    pub fn check_and_reset_trigger(&self) -> bool {
        self.triggered.swap(false, Ordering::SeqCst)
    }

    /// Whether a reset was signalled since the last check; clears the flag.
    pub fn check_and_reset_reset(&self) -> bool {
        self.reset_requested.swap(false, Ordering::SeqCst)
    }
}

} // verus!
