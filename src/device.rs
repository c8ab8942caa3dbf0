//! Device discovery decisions: which input devices are touchpads that can
//! report the configured finger count, and which error explains a failed setup.
use vstd::prelude::*;

use crate::text::{contains_seq, str_contains};

verus! {

/// What a device reports that discovery looks at.
#[derive(Debug, Clone, Copy, PartialEq, Eq, Structural)]
pub struct DeviceCapabilities {
    /// Reports the three-finger key.
    pub has_triple_tap: bool,
    /// Reports the four-finger key.
    pub has_quad_tap: bool,
    /// Reports the single-touch X axis.
    pub has_abs_x: bool,
    /// Reports the multitouch X axis.
    pub has_mt_position_x: bool,
}

/// A touchpad for `finger_count` fingers reports that finger count's key and an
/// absolute X axis (single-touch or multitouch). Three and four fingers are
/// distinct capabilities; any other count is treated as four.
pub open spec fn supports_fingers(c: DeviceCapabilities, finger_count: u8) -> bool {
    &&& if finger_count == 3 { c.has_triple_tap } else { c.has_quad_tap }
    &&& c.has_abs_x || c.has_mt_position_x
}

/// Whether a device with capabilities `caps` is a touchpad for `finger_count` fingers.
pub fn is_touchpad_with_finger_support(caps: &DeviceCapabilities, finger_count: u8) -> (r: bool)
    ensures
        r == supports_fingers(*caps, finger_count),
{
    let has_key = if finger_count == 3 {
        caps.has_triple_tap
    } else {
        caps.has_quad_tap
    };
    if !has_key {
        return false;
    }
    caps.has_abs_x || caps.has_mt_position_x
}

/// Only event devices of the input directory are probed.
pub open spec fn is_event_device(path: Seq<char>) -> bool {
    contains_seq(path, "event"@)
}

/// Whether the input-directory entry at `path` is an event device worth probing.
pub fn is_event_device_path(path: &str) -> (r: bool)
    ensures
        r == is_event_device(path@),
{
    str_contains(path, "event")
}

/// An input-directory entry: its path, and the capabilities of the device if
/// it is an event device that could be opened.
#[derive(Debug, Clone)]
pub struct DeviceEntry {
    pub path: String,
    pub capabilities: Option<DeviceCapabilities>,
}

/// Whether an entry is a touchpad for `finger_count` fingers.
pub open spec fn entry_is_touchpad(e: DeviceEntry, finger_count: u8) -> bool {
    &&& is_event_device(e.path@)
    &&& e.capabilities matches Some(c) && supports_fingers(c, finger_count)
}

/// Paths of the entries among `entries` that are touchpads, in order.
pub open spec fn touchpads_among(entries: Seq<DeviceEntry>, finger_count: u8) -> Seq<Seq<char>>
    decreases entries.len(),
{
    if entries.len() == 0 {
        Seq::empty()
    } else {
        let prev = touchpads_among(entries.drop_last(), finger_count);
        if entry_is_touchpad(entries.last(), finger_count) {
            prev.push(entries.last().path@)
        } else {
            prev
        }
    }
}

/// The paths of the event devices among `entries` that are touchpads for
/// `finger_count` fingers, in order. Entries that could not be opened carry no
/// capabilities and are skipped.
pub fn touchpad_paths(entries: &Vec<DeviceEntry>, finger_count: u8) -> (r: Vec<String>)
    ensures
        r@.map_values(|p: String| p@) == touchpads_among(entries@, finger_count),
{
    let mut paths: Vec<String> = Vec::new();
    let mut i: usize = 0;
    while i < entries.len()
        invariant
            i <= entries@.len(),
            paths@.map_values(|p: String| p@) == touchpads_among(
                entries@.subrange(0, i as int),
                finger_count,
            ),
        decreases entries@.len() - i,
    {
        assert(entries@.subrange(0, i + 1).drop_last() =~= entries@.subrange(0, i as int));
        let e = &entries[i];
        let ghost before = paths@;
        if is_event_device_path(e.path.as_str()) {
            match &e.capabilities {
                Some(caps) => {
                    if is_touchpad_with_finger_support(caps, finger_count) {
                        paths.push(e.path.clone());
                        assert(paths@.map_values(|p: String| p@) =~= before.map_values(
                            |p: String| p@,
                        ).push(e.path@));
                    }
                },
                None => {},
            }
        }
        i = i + 1;
    }
    assert(entries@.subrange(0, entries@.len() as int) =~= entries@);
    paths
}

/// Errors of gesture setup.
#[derive(Debug, Clone, PartialEq, Eq)]
pub enum GestureError {
    /// No touchpad with the needed finger support was found.
    NoTouchpadFound,
    /// A device exists but may not be opened; holds its path.
    PermissionDenied(String),
    /// Opening a device failed for another reason; holds the reason.
    DeviceError(String),
    /// The detection thread could not be started; holds the reason.
    ThreadError(String),
}

/// How opening a device went.
#[derive(Debug, Clone, PartialEq, Eq)]
pub enum OpenOutcome {
    /// The device opened.
    Opened,
    /// The system refused access.
    AccessDenied,
    /// Opening failed for another reason, given as text.
    Failed(String),
}

/// The error reported when discovery found no touchpad, given how opening the
/// first event device of the input directory went (if there is one): a refused
/// access points at permissions, anything else means no capable hardware.
pub fn no_touchpad_error(first_event_device: Option<(String, OpenOutcome)>) -> (r: GestureError)
    ensures
        match first_event_device {
            Some((path, OpenOutcome::AccessDenied)) => r == GestureError::PermissionDenied(path),
            _ => r == GestureError::NoTouchpadFound,
        },
{
    match first_event_device {
        Some((path, OpenOutcome::AccessDenied)) => GestureError::PermissionDenied(path),
        _ => GestureError::NoTouchpadFound,
    }
}

/// Checks the first touchpad found by opening it once: a refused access is a
/// permission error for its path, another failure a device error.
pub fn check_first_touchpad(path: String, outcome: OpenOutcome) -> (r: Result<(), GestureError>)
    ensures
        match outcome {
            OpenOutcome::Opened => r is Ok,
            OpenOutcome::AccessDenied => r == Err::<(), GestureError>(
                GestureError::PermissionDenied(path),
            ),
            OpenOutcome::Failed(reason) => r == Err::<(), GestureError>(
                GestureError::DeviceError(reason),
            ),
        },
{
    match outcome {
        OpenOutcome::Opened => Ok(()),
        OpenOutcome::AccessDenied => Err(GestureError::PermissionDenied(path)),
        OpenOutcome::Failed(reason) => Err(GestureError::DeviceError(reason)),
    }
}

impl GestureError {
    /// The message of this error, for the user.
    pub open spec fn message_spec(&self) -> Seq<char> {
        match self {
            GestureError::NoTouchpadFound => "No touchpad with multi-finger tap support found"@,
            GestureError::PermissionDenied(path) => "Permission denied accessing "@ + path@
                + ". Add user to 'input' group: sudo usermod -aG input $USER"@,
            GestureError::DeviceError(msg) => "Device error: "@ + msg@,
            GestureError::ThreadError(msg) => "Thread error: "@ + msg@,
        }
    }

    /// The message of this error, for the user.
    pub fn message(&self) -> (r: String)
        ensures
            r@ == self.message_spec(),
    {
        match self {
            GestureError::NoTouchpadFound => String::from_str(
                "No touchpad with multi-finger tap support found",
            ),
            GestureError::PermissionDenied(path) => {
                let mut s = String::from_str("Permission denied accessing ");
                s.append(path.as_str());
                s.append(". Add user to 'input' group: sudo usermod -aG input $USER");
                s
            },
            GestureError::DeviceError(msg) => {
                let mut s = String::from_str("Device error: ");
                s.append(msg.as_str());
                s
            },
            GestureError::ThreadError(msg) => {
                let mut s = String::from_str("Thread error: ");
                s.append(msg.as_str());
                s
            },
        }
    }
}

} // verus!
