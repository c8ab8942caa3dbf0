//! Settings-page state and the textual names of swipe actions.
use vstd::prelude::*;

use crate::config::{all_actions, default_config, PieMenuConfig, SwipeAction, WorkspaceLayout};
use crate::text::str_equal;

verus! {

/// Position of `action` in the list of all actions.
pub open spec fn action_index(action: SwipeAction) -> usize {
    match action {
        SwipeAction::Nothing => 0,
        SwipeAction::AppLibrary => 1,
        SwipeAction::Launcher => 2,
        SwipeAction::Workspaces => 3,
        SwipeAction::PieMenu => 4,
    }
}

/// The dropdown index of `action`: its position in [`SwipeAction::all`].
pub fn swipe_action_to_index(action: SwipeAction) -> (r: usize)
    ensures
        r == action_index(action),
        r < all_actions().len(),
        all_actions()[r as int] == action,
{
    let all = SwipeAction::all();
    let mut i: usize = 0;
    while i < all.len()
        invariant
            all@ == all_actions(),
            i <= all@.len(),
            forall|k: int| 0 <= k < i ==> all@[k] != action,
        decreases all@.len() - i,
    {
        if all[i] == action {
            return i;
        }
        i = i + 1;
    }
    assert(all@[action_index(action) as int] == action);
    0
}

/// The action at dropdown `index`; `Nothing` for an index past the end.
pub fn index_to_swipe_action(index: usize) -> (r: SwipeAction)
    ensures
        r == (if index < all_actions().len() { all_actions()[index as int] } else { SwipeAction::Nothing }),
{
    let all = SwipeAction::all();
    if index < all.len() {
        all[index]
    } else {
        SwipeAction::Nothing
    }
}

/// The name under which an action is stored and given on the command line.
pub open spec fn action_name(action: SwipeAction) -> Seq<char> {
    match action {
        SwipeAction::Nothing => "None"@,
        SwipeAction::AppLibrary => "AppLibrary"@,
        SwipeAction::Launcher => "Launcher"@,
        SwipeAction::Workspaces => "Workspaces"@,
        SwipeAction::PieMenu => "PieMenu"@,
    }
}

/// The name of `action`.
pub fn swipe_to_str(action: SwipeAction) -> (r: &'static str)
    ensures
        r@ == action_name(action),
{
    match action {
        SwipeAction::Nothing => "None",
        SwipeAction::AppLibrary => "AppLibrary",
        SwipeAction::Launcher => "Launcher",
        SwipeAction::Workspaces => "Workspaces",
        SwipeAction::PieMenu => "PieMenu",
    }
}

/// The action named `s`, or an error that names `s`.
pub fn str_to_swipe(s: &str) -> (r: Result<SwipeAction, String>)
    ensures
        match r {
            Ok(a) => action_name(a) == s@,
            Err(msg) => (forall|a: SwipeAction| action_name(a) != s@) && msg@ == "Unknown swipe action: "@
                + s@,
        },
{
    if str_equal(s, "None") {
        return Ok(SwipeAction::Nothing);
    }
    if str_equal(s, "AppLibrary") {
        return Ok(SwipeAction::AppLibrary);
    }
    if str_equal(s, "Launcher") {
        return Ok(SwipeAction::Launcher);
    }
    if str_equal(s, "Workspaces") {
        return Ok(SwipeAction::Workspaces);
    }
    if str_equal(s, "PieMenu") {
        return Ok(SwipeAction::PieMenu);
    }
    let mut msg = String::from_str("Unknown swipe action: ");
    msg.append(s);
    proof {
        assert forall|a: SwipeAction| action_name(a) != s@ by {
            match a {
                SwipeAction::Nothing => {},
                SwipeAction::AppLibrary => {},
                SwipeAction::Launcher => {},
                SwipeAction::Workspaces => {},
                SwipeAction::PieMenu => {},
            }
        }
    }
    Err(msg)
}

/// State of the settings page.
#[derive(Debug, Clone, Copy, PartialEq, Eq, Structural)]
pub struct State {
    pub config: PieMenuConfig,
    /// 0 for three fingers, 1 for four.
    pub finger_index: usize,
    pub swipe_up_index: usize,
    pub swipe_down_index: usize,
    pub swipe_left_index: usize,
    pub swipe_right_index: usize,
    pub workspace_layout: WorkspaceLayout,
}

/// The settings page showing `config` under workspace layout `layout`.
pub open spec fn state_for(config: PieMenuConfig, layout: WorkspaceLayout) -> State {
    State {
        config,
        finger_index: if config.finger_count == 3 { 0 } else { 1 },
        swipe_up_index: action_index(config.swipe_up),
        swipe_down_index: action_index(config.swipe_down),
        swipe_left_index: action_index(config.swipe_left),
        swipe_right_index: action_index(config.swipe_right),
        workspace_layout: layout,
    }
}

/// The initial state of the settings page for the stored `config` and the
/// desktop's workspace `layout`.
pub fn init(config: PieMenuConfig, workspace_layout: WorkspaceLayout) -> (r: State)
    ensures
        r == state_for(config, workspace_layout),
{
    let finger_index: usize = if config.finger_count == 3 {
        0
    } else {
        1
    };
    State {
        finger_index,
        swipe_up_index: swipe_action_to_index(config.swipe_up),
        swipe_down_index: swipe_action_to_index(config.swipe_down),
        swipe_left_index: swipe_action_to_index(config.swipe_left),
        swipe_right_index: swipe_action_to_index(config.swipe_right),
        config,
        workspace_layout,
    }
}

/// A settings command given by id: `reset` yields the default configuration to
/// store; any other id is an error that names it.
pub fn action(id: &str) -> (r: Result<PieMenuConfig, String>)
    ensures
        id@ == "reset"@ ==> r == Ok::<PieMenuConfig, String>(default_config()),
        id@ != "reset"@ ==> (r matches Err(msg) && msg@ == "Unknown action: "@ + id@),
{
    if str_equal(id, "reset") {
        Ok(PieMenuConfig::default())
    } else {
        let mut msg = String::from_str("Unknown action: ");
        msg.append(id);
        Err(msg)
    }
}

/// Changes made on the settings page. Slider values arrive already rounded to
/// the setting's integer type.
#[derive(Debug, Clone, Copy, PartialEq, Eq, Structural)]
pub enum Message {
    FingerCountChanged(usize),
    TapDurationChanged(u64),
    MovementThresholdChanged(i32),
    SwipeThresholdChanged(i32),
    SwipeUpChanged(usize),
    SwipeDownChanged(usize),
    SwipeLeftChanged(usize),
    SwipeRightChanged(usize),
    ShowBackgroundToggled(bool),
    IconOnlyHighlightToggled(bool),
    ResetDefaults,
}

/// The action at a dropdown index; `Nothing` past the end.
pub open spec fn action_at(index: usize) -> SwipeAction {
    if index < all_actions().len() { all_actions()[index as int] } else { SwipeAction::Nothing }
}

/// The page after `m`: the first dropdown entry means three fingers, any other
/// four; swipe dropdowns select by index; a reset shows the defaults.
pub open spec fn updated(s: State, m: Message) -> State {
    match m {
        Message::FingerCountChanged(i) => State {
            finger_index: i,
            config: PieMenuConfig { finger_count: if i == 0 { 3 } else { 4 }, ..s.config },
            ..s
        },
        Message::TapDurationChanged(v) => State {
            config: PieMenuConfig { tap_duration_ms: v, ..s.config },
            ..s
        },
        Message::MovementThresholdChanged(v) => State {
            config: PieMenuConfig { tap_movement: v, ..s.config },
            ..s
        },
        Message::SwipeThresholdChanged(v) => State {
            config: PieMenuConfig { swipe_threshold: v, ..s.config },
            ..s
        },
        Message::SwipeUpChanged(i) => State {
            swipe_up_index: i,
            config: PieMenuConfig { swipe_up: action_at(i), ..s.config },
            ..s
        },
        Message::SwipeDownChanged(i) => State {
            swipe_down_index: i,
            config: PieMenuConfig { swipe_down: action_at(i), ..s.config },
            ..s
        },
        Message::SwipeLeftChanged(i) => State {
            swipe_left_index: i,
            config: PieMenuConfig { swipe_left: action_at(i), ..s.config },
            ..s
        },
        Message::SwipeRightChanged(i) => State {
            swipe_right_index: i,
            config: PieMenuConfig { swipe_right: action_at(i), ..s.config },
            ..s
        },
        Message::ShowBackgroundToggled(b) => State {
            config: PieMenuConfig { show_background: b, ..s.config },
            ..s
        },
        Message::IconOnlyHighlightToggled(b) => State {
            config: PieMenuConfig { icon_only_highlight: b, ..s.config },
            ..s
        },
        Message::ResetDefaults => state_for(default_config(), s.workspace_layout),
    }
}

/// Applies a change of the settings page. The caller stores `state.config`
/// afterwards.
pub fn update(state: &mut State, message: Message)
    ensures
        *final(state) == updated(*old(state), message),
{
    match message {
        Message::FingerCountChanged(index) => {
            state.finger_index = index;
            state.config.finger_count = if index == 0 {
                3
            } else {
                4
            };
        },
        Message::TapDurationChanged(value) => {
            state.config.tap_duration_ms = value;
        },
        Message::MovementThresholdChanged(value) => {
            state.config.tap_movement = value;
        },
        Message::SwipeThresholdChanged(value) => {
            state.config.swipe_threshold = value;
        },
        Message::SwipeUpChanged(index) => {
            state.swipe_up_index = index;
            state.config.swipe_up = index_to_swipe_action(index);
        },
        Message::SwipeDownChanged(index) => {
            state.swipe_down_index = index;
            state.config.swipe_down = index_to_swipe_action(index);
        },
        Message::SwipeLeftChanged(index) => {
            state.swipe_left_index = index;
            state.config.swipe_left = index_to_swipe_action(index);
        },
        Message::SwipeRightChanged(index) => {
            state.swipe_right_index = index;
            state.config.swipe_right = index_to_swipe_action(index);
        },
        Message::ShowBackgroundToggled(enabled) => {
            state.config.show_background = enabled;
        },
        Message::IconOnlyHighlightToggled(enabled) => {
            state.config.icon_only_highlight = enabled;
        },
        Message::ResetDefaults => {
            *state = init(PieMenuConfig::default(), state.workspace_layout);
        },
    }
}

/// The kind of value a setting takes on the command line.
#[derive(Debug, Clone, Copy, PartialEq, Eq, Structural)]
pub enum SettingKind {
    /// A JSON string.
    Text,
    /// A JSON number.
    Number,
    /// A JSON boolean.
    Flag,
}

/// A decoded command-line value. A number is given as its truncations to the
/// integer types that settings use.
#[derive(Debug, Clone, PartialEq, Eq)]
pub enum SettingValue {
    Text(String),
    Number { as_u64: u64, as_i32: i32 },
    Flag(bool),
}

/// The settings that can be set, with the kind of value each takes.
pub open spec fn kind_of(key: Seq<char>) -> Option<SettingKind> {
    if key == "finger_count"@ || key == "swipe_up"@ || key == "swipe_down"@ || key == "swipe_left"@
        || key == "swipe_right"@ {
        Some(SettingKind::Text)
    } else if key == "tap_duration_ms"@ || key == "tap_movement"@ || key == "swipe_threshold"@ {
        Some(SettingKind::Number)
    } else if key == "show_background"@ || key == "icon_only_highlight"@ {
        Some(SettingKind::Flag)
    } else {
        None
    }
}

/// The kind of value that setting `key` takes; `None` for an unknown key.
pub fn setting_kind(key: &str) -> (r: Option<SettingKind>)
    ensures
        r == kind_of(key@),
{
    if str_equal(key, "finger_count") || str_equal(key, "swipe_up") || str_equal(key, "swipe_down")
        || str_equal(key, "swipe_left") || str_equal(key, "swipe_right") {
        Some(SettingKind::Text)
    } else if str_equal(key, "tap_duration_ms") || str_equal(key, "tap_movement") || str_equal(
        key,
        "swipe_threshold",
    ) {
        Some(SettingKind::Number)
    } else if str_equal(key, "show_background") || str_equal(key, "icon_only_highlight") {
        Some(SettingKind::Flag)
    } else {
        None
    }
}

/// The action named `name`, if any.
pub open spec fn action_named(name: Seq<char>) -> Option<SwipeAction> {
    if name == "None"@ {
        Some(SwipeAction::Nothing)
    } else if name == "AppLibrary"@ {
        Some(SwipeAction::AppLibrary)
    } else if name == "Launcher"@ {
        Some(SwipeAction::Launcher)
    } else if name == "Workspaces"@ {
        Some(SwipeAction::Workspaces)
    } else if name == "PieMenu"@ {
        Some(SwipeAction::PieMenu)
    } else {
        None
    }
}

/// Each action is found again by its name, and a name finds only its action.
pub proof fn lemma_action_named(a: SwipeAction, name: Seq<char>)
    ensures
        action_named(action_name(a)) == Some(a),
        action_named(name) matches Some(b) ==> action_name(b) == name,
{
    reveal_strlit("None");
    reveal_strlit("AppLibrary");
    reveal_strlit("Launcher");
    reveal_strlit("Workspaces");
    reveal_strlit("PieMenu");
    assert("AppLibrary"@[0] != "Workspaces"@[0]);
    assert("None"@.len() != "AppLibrary"@.len());
    assert("None"@.len() != "Launcher"@.len());
    assert("None"@.len() != "Workspaces"@.len());
    assert("AppLibrary"@.len() != "Launcher"@.len());
    assert("Launcher"@.len() != "Workspaces"@.len());
    assert("PieMenu"@.len() != "None"@.len());
    assert("PieMenu"@.len() != "AppLibrary"@.len());
    assert("PieMenu"@.len() != "Launcher"@.len());
    assert("PieMenu"@.len() != "Workspaces"@.len());
}

/// Whether `v` is a value of kind `k`.
pub open spec fn value_of_kind(v: SettingValue, k: SettingKind) -> bool {
    match v {
        SettingValue::Text(_) => k == SettingKind::Text,
        SettingValue::Number { .. } => k == SettingKind::Number,
        SettingValue::Flag(_) => k == SettingKind::Flag,
    }
}

/// Outcome of setting `k` to `v` in `c`: the new configuration, or the error.
/// Errors: an unknown key; a value of the wrong kind; a finger count other than
/// "3" or "4"; an unknown swipe action name. Numbers are stored truncated.
pub open spec fn set_result(c: PieMenuConfig, k: Seq<char>, v: SettingValue) -> Result<
    PieMenuConfig,
    Seq<char>,
> {
    match kind_of(k) {
        None => Err("Unknown key: "@ + k),
        Some(kind) => if !value_of_kind(v, kind) {
            Err("Invalid value for "@ + k)
        } else {
            match v {
                SettingValue::Text(t) => if k == "finger_count"@ {
                    if t@ == "3"@ {
                        Ok(PieMenuConfig { finger_count: 3, ..c })
                    } else if t@ == "4"@ {
                        Ok(PieMenuConfig { finger_count: 4, ..c })
                    } else {
                        Err("Finger count must be 3 or 4"@)
                    }
                } else {
                    match action_named(t@) {
                        None => Err("Unknown swipe action: "@ + t@),
                        Some(a) => Ok(
                            if k == "swipe_up"@ {
                                PieMenuConfig { swipe_up: a, ..c }
                            } else if k == "swipe_down"@ {
                                PieMenuConfig { swipe_down: a, ..c }
                            } else if k == "swipe_left"@ {
                                PieMenuConfig { swipe_left: a, ..c }
                            } else {
                                PieMenuConfig { swipe_right: a, ..c }
                            },
                        ),
                    }
                },
                SettingValue::Number { as_u64, as_i32 } => Ok(
                    if k == "tap_duration_ms"@ {
                        PieMenuConfig { tap_duration_ms: as_u64, ..c }
                    } else if k == "tap_movement"@ {
                        PieMenuConfig { tap_movement: as_i32, ..c }
                    } else {
                        PieMenuConfig { swipe_threshold: as_i32, ..c }
                    },
                ),
                SettingValue::Flag(b) => Ok(
                    if k == "show_background"@ {
                        PieMenuConfig { show_background: b, ..c }
                    } else {
                        PieMenuConfig { icon_only_highlight: b, ..c }
                    },
                ),
            }
        },
    }
}

/// Sets `key` to `value` in `config` (see [`set_result`]) and returns a
/// confirmation; on an error `config` is unchanged.
pub fn set(config: &mut PieMenuConfig, key: &str, value: &SettingValue) -> (r: Result<
    &'static str,
    String,
>)
    ensures
        match set_result(*old(config), key@, *value) {
            Ok(c) => r is Ok && *final(config) == c,
            Err(e) => (r matches Err(m) && m@ == e) && *final(config) == *old(config),
        },
{
    let kind = match setting_kind(key) {
        Some(k) => k,
        None => {
            let mut e = String::from_str("Unknown key: ");
            e.append(key);
            return Err(e);
        },
    };
    match value {
        SettingValue::Text(t) => {
            if kind != SettingKind::Text {
                let mut e = String::from_str("Invalid value for ");
                e.append(key);
                return Err(e);
            }
            if str_equal(key, "finger_count") {
                proof {
                    reveal_strlit("3");
                    reveal_strlit("4");
                }
                if str_equal(t.as_str(), "3") {
                    config.finger_count = 3;
                    return Ok("Updated finger count");
                } else if str_equal(t.as_str(), "4") {
                    config.finger_count = 4;
                    return Ok("Updated finger count");
                } else {
                    return Err(String::from_str("Finger count must be 3 or 4"));
                }
            }
            let action = match str_to_swipe(t.as_str()) {
                Ok(a) => a,
                Err(e) => {
                    proof {
                        lemma_action_named(SwipeAction::Nothing, t@);
                    }
                    return Err(e);
                },
            };
            proof {
                lemma_action_named(action, t@);
            }
            if str_equal(key, "swipe_up") {
                config.swipe_up = action;
                Ok("Updated swipe up")
            } else if str_equal(key, "swipe_down") {
                config.swipe_down = action;
                Ok("Updated swipe down")
            } else if str_equal(key, "swipe_left") {
                config.swipe_left = action;
                Ok("Updated swipe left")
            } else {
                config.swipe_right = action;
                Ok("Updated swipe right")
            }
        },
        SettingValue::Number { as_u64, as_i32 } => {
            if kind != SettingKind::Number {
                let mut e = String::from_str("Invalid value for ");
                e.append(key);
                return Err(e);
            }
            if str_equal(key, "tap_duration_ms") {
                config.tap_duration_ms = *as_u64;
                Ok("Updated tap duration")
            } else if str_equal(key, "tap_movement") {
                config.tap_movement = *as_i32;
                Ok("Updated tap movement")
            } else {
                config.swipe_threshold = *as_i32;
                Ok("Updated swipe threshold")
            }
        },
        SettingValue::Flag(b) => {
            if kind != SettingKind::Flag {
                let mut e = String::from_str("Invalid value for ");
                e.append(key);
                return Err(e);
            }
            if str_equal(key, "show_background") {
                config.show_background = *b;
                Ok("Updated show background")
            } else {
                config.icon_only_highlight = *b;
                Ok("Updated icon-only highlight")
            }
        },
    }
}

/// A swipe setting shown in the settings description: key, label and current action.
pub struct SwipeSetting {
    pub key: &'static str,
    pub label: &'static str,
    pub action: SwipeAction,
}

/// The swipe settings that the description offers: only the directions that
/// workspace switching leaves free (up and down for horizontal workspaces,
/// left and right for vertical ones).
pub fn visible_swipe_settings(config: &PieMenuConfig, layout: WorkspaceLayout) -> (r: Vec<SwipeSetting>)
    ensures
        r@.len() == 2,
        layout == WorkspaceLayout::Horizontal ==> {
            &&& r@[0].key@ == "swipe_up"@ && r@[0].label@ == "Swipe Up"@
            &&& r@[0].action == config.swipe_up
            &&& r@[1].key@ == "swipe_down"@ && r@[1].label@ == "Swipe Down"@
            &&& r@[1].action == config.swipe_down
        },
        layout == WorkspaceLayout::Vertical ==> {
            &&& r@[0].key@ == "swipe_left"@ && r@[0].label@ == "Swipe Left"@
            &&& r@[0].action == config.swipe_left
            &&& r@[1].key@ == "swipe_right"@ && r@[1].label@ == "Swipe Right"@
            &&& r@[1].action == config.swipe_right
        },
{
    match layout {
        WorkspaceLayout::Horizontal => vec![
            SwipeSetting { key: "swipe_up", label: "Swipe Up", action: config.swipe_up },
            SwipeSetting { key: "swipe_down", label: "Swipe Down", action: config.swipe_down },
        ],
        WorkspaceLayout::Vertical => vec![
            SwipeSetting { key: "swipe_left", label: "Swipe Left", action: config.swipe_left },
            SwipeSetting { key: "swipe_right", label: "Swipe Right", action: config.swipe_right },
        ],
    }
}

} // verus!
