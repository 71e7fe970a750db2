//! The controller monitor: which game controller is listened to, and how
//! its events change the published state.

use vstd::prelude::*;
use crate::state::JoystickState;

verus! {

/// A game controller as the system lists it.
#[derive(Debug, PartialEq, Eq)]
pub struct GamepadInfo {
    pub id: usize,
    pub name: String,
}

/// The axes that a controller reports.
#[derive(Clone, Copy, Debug, PartialEq, Eq, Structural)]
pub enum ControllerAxis {
    LeftStickX,
    LeftStickY,
    LeftZ,
    RightStickX,
    RightStickY,
    RightZ,
    DPadX,
    DPadY,
    Unknown,
}

/// What a controller reports.
#[derive(Clone, Copy, Debug, PartialEq, Eq, Structural)]
pub enum ControllerEvent {
    /// A controller was plugged in.
    Connected { id: usize },
    /// A controller went away.
    Disconnected { id: usize },
    /// An axis of a controller moved to a new position.
    AxisChanged { id: usize, axis: ControllerAxis, value: i32 },
    /// Anything else: buttons and the like.
    Other { id: usize },
}

/// What the caller is to do after an event.
#[derive(Clone, Copy, Debug, PartialEq, Eq, Structural)]
pub enum MonitorAction {
    /// Nothing changed.
    Ignore,
    /// List the controllers and select one anew.
    SelectGamepad,
    /// Publish the new state.
    Publish { state: JoystickState },
}

/// Monitors input from a game controller, and reports state changes.
pub struct ControllerMonitor {
    pub name_matches: String,
    pub selected_gamepad: Option<usize>,
    pub state: JoystickState,
}

/// Whether `pattern` stands in `text` at the offset `at`.
pub open spec fn occurs_at(text: Seq<char>, pattern: Seq<char>, at: int) -> bool {
    0 <= at && at + pattern.len() <= text.len() && text.subrange(at, at + pattern.len())
        == pattern
}

/// Whether `pattern` stands somewhere in `text`.
pub open spec fn contains_text(text: Seq<char>, pattern: Seq<char>) -> bool {
    exists|at: int| occurs_at(text, pattern, at)
}

/// Whether the controller at `index` is the first whose name holds the
/// pattern.
pub open spec fn is_first_match(gamepads: Seq<GamepadInfo>, pattern: Seq<char>, index: int) -> bool {
    &&& 0 <= index < gamepads.len()
    &&& contains_text(gamepads[index].name@, pattern)
    &&& forall|earlier: int|
        0 <= earlier < index ==> !contains_text(#[trigger] gamepads[earlier].name@, pattern)
}

/// The state after an axis of the selected controller moved: the two axes of
/// the left stick pan and tilt; either trigger axis, the horizontal axis of
/// the right stick and an axis of unknown kind zoom; the others change
/// nothing.
pub open spec fn state_after_axis(state: JoystickState, axis: ControllerAxis, value: i32) -> JoystickState {
    match axis {
        ControllerAxis::LeftStickX => JoystickState {
            axis_x: value,
            axis_y: state.axis_y,
            axis_z: state.axis_z,
        },
        ControllerAxis::LeftStickY => JoystickState {
            axis_x: state.axis_x,
            axis_y: value,
            axis_z: state.axis_z,
        },
        ControllerAxis::LeftZ | ControllerAxis::RightZ | ControllerAxis::RightStickX
        | ControllerAxis::Unknown => JoystickState {
            axis_x: state.axis_x,
            axis_y: state.axis_y,
            axis_z: value,
        },
        _ => state,
    }
}

/// Whether the axis is one that the monitor reads.
pub open spec fn axis_is_read(axis: ControllerAxis) -> bool {
    !(axis is RightStickY || axis is DPadX || axis is DPadY)
}

/// `str::contains` with a string as the pattern: whether the pattern matches
/// a sub-slice of the text, that is, stands somewhere in it.
#[verifier::external_body]
fn text_contains(text: &str, pattern: &str) -> (found: bool)
    ensures
        found == contains_text(text@, pattern@),
{
    text.contains(pattern)
}

impl ControllerMonitor {
    /// A monitor with no controller selected and all axes at rest. Only a
    /// controller whose name holds `name_matches` will be listened to.
    pub fn new(name_matches: &str) -> (monitor: Self)
        ensures
            monitor.name_matches@ == name_matches@,
            monitor.selected_gamepad is None,
            monitor.state == (JoystickState { axis_x: 0, axis_y: 0, axis_z: 0 }),
    {
        ControllerMonitor {
            name_matches: name_matches.to_string(),
            selected_gamepad: None,
            state: JoystickState { axis_x: 0, axis_y: 0, axis_z: 0 },
        }
    }

    /// Selects the first of the listed controllers whose name holds the
    /// pattern, or none where no name does.
    pub fn select_gamepad(&mut self, gamepads: &Vec<GamepadInfo>)
        ensures
            final(self).name_matches == old(self).name_matches,
            final(self).state == old(self).state,
            match final(self).selected_gamepad {
                Some(id) => exists|index: int|
                    is_first_match(gamepads@, old(self).name_matches@, index)
                        && #[trigger] gamepads@[index].id == id,
                None => forall|index: int|
                    0 <= index < gamepads@.len() ==> !contains_text(
                        #[trigger] gamepads@[index].name@,
                        old(self).name_matches@,
                    ),
            },
    {
        let mut selected: Option<usize> = None;
        let mut index: usize = 0;
        while index < gamepads.len() && selected.is_none()
            invariant
                index <= gamepads@.len(),
                self.name_matches == old(self).name_matches,
                match selected {
                    Some(id) => index > 0 && is_first_match(
                        gamepads@,
                        self.name_matches@,
                        index - 1,
                    ) && gamepads@[index - 1].id == id,
                    None => forall|earlier: int|
                        0 <= earlier < index ==> !contains_text(
                            #[trigger] gamepads@[earlier].name@,
                            self.name_matches@,
                        ),
                },
            decreases gamepads@.len() - index + if selected is None { 1int } else { 0int },
        {
            if text_contains(gamepads[index].name.as_str(), self.name_matches.as_str()) {
                selected = Some(gamepads[index].id);
            }
            index = index + 1;
        }
        self.selected_gamepad = selected;
    }

    /// Takes one event of a controller and says what to do about it. A
    /// controller that comes or goes asks for a new selection; a move of an
    /// axis that the monitor reads, on the selected controller, changes the
    /// state and asks for its publication; anything else is ignored.
    pub fn run(&mut self, event: ControllerEvent) -> (action: MonitorAction)
        ensures
            final(self).name_matches == old(self).name_matches,
            final(self).selected_gamepad == old(self).selected_gamepad,
            match event {
                ControllerEvent::Connected { .. } | ControllerEvent::Disconnected { .. } => {
                    action is SelectGamepad && final(self).state == old(self).state
                },
                ControllerEvent::AxisChanged { id, axis, value } => {
                    if old(self).selected_gamepad == Some(id) && axis_is_read(axis) {
                        final(self).state == state_after_axis(old(self).state, axis, value)
                            && action == (MonitorAction::Publish { state: final(self).state })
                    } else {
                        action is Ignore && final(self).state == old(self).state
                    }
                },
                ControllerEvent::Other { .. } => {
                    action is Ignore && final(self).state == old(self).state
                },
            },
    {
        match event {
            ControllerEvent::Connected { .. } | ControllerEvent::Disconnected { .. } => {
                MonitorAction::SelectGamepad
            },
            ControllerEvent::AxisChanged { id, axis, value } => {
                let listening = match self.selected_gamepad {
                    Some(selected) => selected == id,
                    None => false,
                };
                if !listening {
                    return MonitorAction::Ignore;
                }
                match axis {
                    ControllerAxis::LeftStickX => {
                        self.state.axis_x = value;
                    },
                    ControllerAxis::LeftStickY => {
                        self.state.axis_y = value;
                    },
                    ControllerAxis::LeftZ
                    | ControllerAxis::RightZ
                    | ControllerAxis::RightStickX
                    | ControllerAxis::Unknown => {
                        self.state.axis_z = value;
                    },
                    _ => {
                        return MonitorAction::Ignore;
                    },
                }
                MonitorAction::Publish { state: self.state }
            },
            ControllerEvent::Other { .. } => MonitorAction::Ignore,
        }
    }
}

} // verus!
