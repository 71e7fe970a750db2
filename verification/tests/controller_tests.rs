use camera_bridge::controller::{
    ControllerAxis, ControllerEvent, ControllerMonitor, GamepadInfo, MonitorAction,
};
use camera_bridge::state::JoystickState;

fn pad(id: usize, name: &str) -> GamepadInfo {
    GamepadInfo { id, name: name.to_string() }
}

#[test]
fn new_monitor_has_nothing_selected() {
    let monitor = ControllerMonitor::new("Stick");
    assert_eq!(monitor.name_matches, "Stick");
    assert_eq!(monitor.selected_gamepad, None);
    assert_eq!(monitor.state, JoystickState { axis_x: 0, axis_y: 0, axis_z: 0 });
}

#[test]
fn first_matching_gamepad_is_selected() {
    let mut monitor = ControllerMonitor::new("Stick");
    let pads = vec![pad(4, "Wheel"), pad(7, "Flight Stick A"), pad(9, "Stick B")];
    monitor.select_gamepad(&pads);
    assert_eq!(monitor.selected_gamepad, Some(7));
    monitor.select_gamepad(&vec![pad(9, "Stick B"), pad(7, "Flight Stick A")]);
    assert_eq!(monitor.selected_gamepad, Some(9));
}

#[test]
fn no_matching_gamepad_clears_the_selection() {
    let mut monitor = ControllerMonitor::new("Stick");
    monitor.select_gamepad(&vec![pad(1, "Stick")]);
    assert_eq!(monitor.selected_gamepad, Some(1));
    monitor.select_gamepad(&vec![pad(1, "stick"), pad(2, "Stic"), pad(3, "")]);
    assert_eq!(monitor.selected_gamepad, None);
    monitor.select_gamepad(&vec![pad(1, "Stick")]);
    monitor.select_gamepad(&Vec::new());
    assert_eq!(monitor.selected_gamepad, None);
}

#[test]
fn empty_pattern_selects_the_first_gamepad() {
    let mut monitor = ControllerMonitor::new("");
    monitor.select_gamepad(&vec![pad(3, ""), pad(5, "Pad")]);
    assert_eq!(monitor.selected_gamepad, Some(3));
}

#[test]
fn coming_and_going_asks_for_a_new_selection() {
    let mut monitor = ControllerMonitor::new("Stick");
    assert_eq!(monitor.run(ControllerEvent::Connected { id: 3 }), MonitorAction::SelectGamepad);
    assert_eq!(
        monitor.run(ControllerEvent::Disconnected { id: 3 }),
        MonitorAction::SelectGamepad
    );
    assert_eq!(monitor.selected_gamepad, None);
}

#[test]
fn axes_of_the_selected_gamepad_change_the_state() {
    let mut monitor = ControllerMonitor::new("Stick");
    monitor.select_gamepad(&vec![pad(2, "Stick")]);
    let moved = |axis, value| ControllerEvent::AxisChanged { id: 2, axis, value };
    assert_eq!(
        monitor.run(moved(ControllerAxis::LeftStickX, 10)),
        MonitorAction::Publish { state: JoystickState { axis_x: 10, axis_y: 0, axis_z: 0 } }
    );
    assert_eq!(
        monitor.run(moved(ControllerAxis::LeftStickY, -20)),
        MonitorAction::Publish { state: JoystickState { axis_x: 10, axis_y: -20, axis_z: 0 } }
    );
    assert_eq!(
        monitor.run(moved(ControllerAxis::LeftZ, 30)),
        MonitorAction::Publish { state: JoystickState { axis_x: 10, axis_y: -20, axis_z: 30 } }
    );
    assert_eq!(
        monitor.run(moved(ControllerAxis::RightZ, 31)),
        MonitorAction::Publish { state: JoystickState { axis_x: 10, axis_y: -20, axis_z: 31 } }
    );
    assert_eq!(
        monitor.run(moved(ControllerAxis::RightStickX, 32)),
        MonitorAction::Publish { state: JoystickState { axis_x: 10, axis_y: -20, axis_z: 32 } }
    );
    assert_eq!(
        monitor.run(moved(ControllerAxis::Unknown, 33)),
        MonitorAction::Publish { state: JoystickState { axis_x: 10, axis_y: -20, axis_z: 33 } }
    );
    assert_eq!(monitor.run(moved(ControllerAxis::RightStickY, 99)), MonitorAction::Ignore);
    assert_eq!(monitor.run(moved(ControllerAxis::DPadX, 99)), MonitorAction::Ignore);
    assert_eq!(monitor.run(moved(ControllerAxis::DPadY, 99)), MonitorAction::Ignore);
    assert_eq!(monitor.state, JoystickState { axis_x: 10, axis_y: -20, axis_z: 33 });
}

#[test]
fn other_gamepads_and_other_events_are_ignored() {
    let mut monitor = ControllerMonitor::new("Stick");
    let event = ControllerEvent::AxisChanged { id: 2, axis: ControllerAxis::LeftStickX, value: 5 };
    assert_eq!(monitor.run(event), MonitorAction::Ignore);
    monitor.select_gamepad(&vec![pad(1, "Stick"), pad(2, "Stick")]);
    assert_eq!(monitor.run(event), MonitorAction::Ignore);
    assert_eq!(monitor.run(ControllerEvent::Other { id: 1 }), MonitorAction::Ignore);
    assert_eq!(monitor.state, JoystickState { axis_x: 0, axis_y: 0, axis_z: 0 });
}
