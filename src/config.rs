//! Gesture configuration: thresholds, per-direction swipe actions and the
//! workspace layout that decides which swipe directions are free.
use vstd::prelude::*;

use crate::gesture::SwipeDirection;
use crate::text::{contains_seq, str_contains};

verus! {

/// Action to perform on a swipe gesture.
#[derive(Debug, Clone, Copy, PartialEq, Eq, Structural)]
pub enum SwipeAction {
    /// Do nothing (let the system handle it).
    Nothing,
    /// Open the app library.
    AppLibrary,
    /// Open the launcher.
    Launcher,
    /// Open the workspaces overview.
    Workspaces,
    /// Open the pie menu.
    PieMenu,
}

/// The external command that an action toggles, if it has one.
pub open spec fn command_of(a: SwipeAction) -> Option<Seq<char>> {
    match a {
        SwipeAction::AppLibrary => Some("cosmic-app-library"@),
        SwipeAction::Launcher => Some("cosmic-launcher"@),
        SwipeAction::Workspaces => Some("cosmic-workspaces"@),
        _ => None,
    }
}

/// The actions in the order in which they are offered to the user.
pub open spec fn all_actions() -> Seq<SwipeAction> {
    seq![
        SwipeAction::Nothing,
        SwipeAction::AppLibrary,
        SwipeAction::Launcher,
        SwipeAction::Workspaces,
        SwipeAction::PieMenu,
    ]
}

impl SwipeAction {
    /// The command to run for this action; `None` for `Nothing` and for the pie
    /// menu, which is shown by other means.
    pub fn command(&self) -> (r: Option<&'static str>)
        ensures
            r is Some == command_of(*self) is Some,
            r is Some ==> r->0@ == command_of(*self)->0,
    {
        match self {
            SwipeAction::Nothing => None,
            SwipeAction::AppLibrary => Some("cosmic-app-library"),
            SwipeAction::Launcher => Some("cosmic-launcher"),
            SwipeAction::Workspaces => Some("cosmic-workspaces"),
            SwipeAction::PieMenu => None,
        }
    }

    /// All available actions, for display.
    pub fn all() -> (r: &'static [SwipeAction])
        ensures
            r@ == all_actions(),
    {
        let r: &'static [SwipeAction] = &[
            SwipeAction::Nothing,
            SwipeAction::AppLibrary,
            SwipeAction::Launcher,
            SwipeAction::Workspaces,
            SwipeAction::PieMenu,
        ];
        assert(r@ =~= all_actions());
        r
    }
}

/// Persistent settings of the pie menu and its gestures.
#[derive(Debug, Clone, Copy, PartialEq, Eq, Structural)]
pub struct PieMenuConfig {
    /// Number of fingers for the tap gesture (3 or 4).
    pub finger_count: u8,
    /// Maximum duration of a tap, in milliseconds.
    pub tap_duration_ms: u64,
    /// Maximum movement of a tap, in touchpad units.
    pub tap_movement: i32,
    /// Average movement that fires a swipe before release, in touchpad units.
    pub swipe_threshold: i32,
    /// Action for a swipe up.
    pub swipe_up: SwipeAction,
    /// Action for a swipe down.
    pub swipe_down: SwipeAction,
    /// Action for a swipe left.
    pub swipe_left: SwipeAction,
    /// Action for a swipe right.
    pub swipe_right: SwipeAction,
    /// Show a background behind the pie slices.
    pub show_background: bool,
    /// Highlight only the icon on hover, not the whole segment.
    pub icon_only_highlight: bool,
}

/// Default swipe activation threshold, in touchpad units.
pub const DEFAULT_SWIPE_THRESHOLD: i32 = 300;

/// The value of a switch that is on unless configured otherwise.
pub fn default_true() -> (r: bool)
    ensures
        r,
{
    true
}

/// The swipe threshold used when the stored settings give none.
pub fn default_swipe_threshold() -> (r: i32)
    ensures
        r == DEFAULT_SWIPE_THRESHOLD,
{
    DEFAULT_SWIPE_THRESHOLD
}

/// The settings used when none are stored.
pub open spec fn default_config() -> PieMenuConfig {
    PieMenuConfig {
        finger_count: 4,
        tap_duration_ms: 200,
        tap_movement: 500,
        swipe_threshold: DEFAULT_SWIPE_THRESHOLD,
        swipe_up: SwipeAction::Workspaces,
        swipe_down: SwipeAction::AppLibrary,
        swipe_left: SwipeAction::Nothing,
        swipe_right: SwipeAction::Nothing,
        show_background: true,
        icon_only_highlight: false,
    }
}

impl Default for PieMenuConfig {
    fn default() -> (r: Self)
        ensures
            r == default_config(),
    {
        PieMenuConfig {
            finger_count: 4,
            tap_duration_ms: 200,
            tap_movement: 500,
            swipe_threshold: DEFAULT_SWIPE_THRESHOLD,
            swipe_up: SwipeAction::Workspaces,
            swipe_down: SwipeAction::AppLibrary,
            swipe_left: SwipeAction::Nothing,
            swipe_right: SwipeAction::Nothing,
            show_background: true,
            icon_only_highlight: false,
        }
    }
}

/// Runtime gesture configuration, derived from [`PieMenuConfig`].
#[derive(Debug, Clone, Copy, PartialEq, Eq, Structural)]
pub struct GestureConfig {
    /// Number of fingers for the tap gesture (3 or 4).
    pub finger_count: u8,
    /// Maximum duration of a tap, in milliseconds.
    pub tap_max_duration_ms: u64,
    /// Maximum movement of a tap, in touchpad units.
    pub tap_max_movement: i32,
    /// Average movement that fires a swipe before release, in touchpad units.
    pub swipe_threshold: i32,
    /// Action for a swipe up.
    pub swipe_up: SwipeAction,
    /// Action for a swipe down.
    pub swipe_down: SwipeAction,
    /// Action for a swipe left.
    pub swipe_left: SwipeAction,
    /// Action for a swipe right.
    pub swipe_right: SwipeAction,
}

/// The gesture part of the persistent settings.
pub open spec fn gesture_config_of(c: PieMenuConfig) -> GestureConfig {
    GestureConfig {
        finger_count: c.finger_count,
        tap_max_duration_ms: c.tap_duration_ms,
        tap_max_movement: c.tap_movement,
        swipe_threshold: c.swipe_threshold,
        swipe_up: c.swipe_up,
        swipe_down: c.swipe_down,
        swipe_left: c.swipe_left,
        swipe_right: c.swipe_right,
    }
}

impl GestureConfig {
    /// The gesture part of `config`.
    pub fn from_config(config: &PieMenuConfig) -> (r: Self)
        ensures
            r == gesture_config_of(*config),
    {
        GestureConfig {
            finger_count: config.finger_count,
            tap_max_duration_ms: config.tap_duration_ms,
            tap_max_movement: config.tap_movement,
            swipe_threshold: config.swipe_threshold,
            swipe_up: config.swipe_up,
            swipe_down: config.swipe_down,
            swipe_left: config.swipe_left,
            swipe_right: config.swipe_right,
        }
    }
}

impl<'a> From<&'a PieMenuConfig> for GestureConfig {
    fn from(config: &'a PieMenuConfig) -> (r: Self) {
        GestureConfig::from_config(config)
    }
}

impl<'a> vstd::std_specs::convert::FromSpecImpl<&'a PieMenuConfig> for GestureConfig {
    open spec fn obeys_from_spec() -> bool {
        true
    }

    open spec fn from_spec(config: &'a PieMenuConfig) -> GestureConfig {
        gesture_config_of(*config)
    }
}

impl Default for GestureConfig {
    fn default() -> (r: Self)
        ensures
            r == gesture_config_of(default_config()),
    {
        let config = PieMenuConfig::default();
        GestureConfig::from_config(&config)
    }
}

/// The action configured for a swipe direction.
pub open spec fn action_for(c: GestureConfig, d: SwipeDirection) -> SwipeAction {
    match d {
        SwipeDirection::Up => c.swipe_up,
        SwipeDirection::Down => c.swipe_down,
        SwipeDirection::Left => c.swipe_left,
        SwipeDirection::Right => c.swipe_right,
    }
}

impl GestureConfig {
    /// The action configured for `direction`.
    pub fn action_for(&self, direction: SwipeDirection) -> (r: SwipeAction)
        ensures
            r == action_for(*self, direction),
    {
        match direction {
            SwipeDirection::Up => self.swipe_up,
            SwipeDirection::Down => self.swipe_down,
            SwipeDirection::Left => self.swipe_left,
            SwipeDirection::Right => self.swipe_right,
        }
    }
}

/// Orientation of the desktop's workspaces.
#[derive(Debug, Clone, Copy, PartialEq, Eq, Structural)]
pub enum WorkspaceLayout {
    Horizontal,
    Vertical,
}

impl Default for WorkspaceLayout {
    fn default() -> (r: Self)
        ensures
            r == WorkspaceLayout::Horizontal,
    {
        WorkspaceLayout::Horizontal
    }
}

/// The layout named by the compositor's workspace settings: vertical when the
/// settings text mentions `Vertical`, horizontal otherwise.
pub open spec fn layout_of(content: Seq<char>) -> WorkspaceLayout {
    if contains_seq(content, "Vertical"@) { WorkspaceLayout::Vertical } else { WorkspaceLayout::Horizontal }
}

/// Reads the workspace layout from the text of the compositor's workspace settings.
pub fn workspace_layout_from_content(content: &str) -> (r: WorkspaceLayout)
    ensures
        r == layout_of(content@),
{
    if str_contains(content, "Vertical") {
        WorkspaceLayout::Vertical
    } else {
        WorkspaceLayout::Horizontal
    }
}

/// Swipe directions that the desktop does not use for workspace switching:
/// horizontal workspaces take left and right, vertical ones up and down.
pub open spec fn direction_free(layout: WorkspaceLayout, d: SwipeDirection) -> bool {
    match layout {
        WorkspaceLayout::Horizontal => d == SwipeDirection::Up || d == SwipeDirection::Down,
        WorkspaceLayout::Vertical => d == SwipeDirection::Left || d == SwipeDirection::Right,
    }
}

/// Whether a swipe in `direction` is left to the pie menu under `layout`.
pub fn direction_allowed(layout: WorkspaceLayout, direction: SwipeDirection) -> (r: bool)
    ensures
        r == direction_free(layout, direction),
{
    match layout {
        WorkspaceLayout::Horizontal => match direction {
            SwipeDirection::Up | SwipeDirection::Down => true,
            _ => false,
        },
        WorkspaceLayout::Vertical => match direction {
            SwipeDirection::Left | SwipeDirection::Right => true,
            _ => false,
        },
    }
}

} // verus!
