use camera_bridge::bridge::{
    unsigned_magnitude, BridgeAction, BridgeEvent, CameraBridge, ConnectionState, PanTiltCommand,
    Phase,
    DEFAULT_UPDATE_INTERVAL_MS, RECONNECT_DELAY_MS,
};
use camera_bridge::direction::PanTiltDirection;
use camera_bridge::state::JoystickState;

fn connected_bridge(invert_z_axis: bool) -> CameraBridge {
    let mut bridge = CameraBridge::new(250_000, 24, 20, invert_z_axis);
    assert_eq!(bridge.run(BridgeEvent::Started), Some(BridgeAction::Connect));
    assert_eq!(bridge.run(BridgeEvent::Connected), Some(BridgeAction::WaitForState));
    bridge
}

fn update(x: i32, y: i32, z: i32) -> BridgeEvent {
    BridgeEvent::StateUpdate { state: JoystickState { axis_x: x, axis_y: y, axis_z: z } }
}

#[test]
fn new_bridge_is_at_rest() {
    let bridge = CameraBridge::new(250_000, 16, 16, true);
    assert!(bridge.is_valid());
    assert_eq!(bridge.config.pan_tilt_threshold, 250_000);
    assert_eq!(bridge.config.pan_max_speed, 16);
    assert_eq!(bridge.config.tilt_max_speed, 16);
    assert!(bridge.config.invert_z_axis);
    assert_eq!(bridge.config.min_update_interval_ms, DEFAULT_UPDATE_INTERVAL_MS);
    assert_eq!(bridge.config.min_update_interval_ms, 50);
    assert_eq!(bridge.state.pan_tilt_direction, PanTiltDirection::Stop);
    assert_eq!(bridge.state.pan_speed, 0);
    assert_eq!(bridge.state.tilt_speed, 0);
    assert_eq!(bridge.state.last_zoom_position, None);
    assert_eq!(bridge.phase, Phase::Disconnected);
}

#[test]
fn new_bridge_lowers_speeds_to_the_limits() {
    let bridge = CameraBridge::new(250_000, 200, 200, false);
    assert_eq!(bridge.config.pan_max_speed, 24);
    assert_eq!(bridge.config.tilt_max_speed, 20);
    let bridge = CameraBridge::new(250_000, 24, 20, false);
    assert_eq!(bridge.config.pan_max_speed, 24);
    assert_eq!(bridge.config.tilt_max_speed, 20);
}

#[test]
fn default_state_is_at_rest() {
    assert_eq!(JoystickState::default(), JoystickState { axis_x: 0, axis_y: 0, axis_z: 0 });
}

#[test]
fn magnitude_of_signed_speeds() {
    assert_eq!(unsigned_magnitude(0), 0);
    assert_eq!(unsigned_magnitude(24), 24);
    assert_eq!(unsigned_magnitude(-24), 24);
    assert_eq!(unsigned_magnitude(i8::MIN), 128);
    assert_eq!(unsigned_magnitude(i8::MAX), 127);
}

#[test]
fn pan_tilt_change_is_detected_once() {
    let mut bridge = CameraBridge::new(250_000, 24, 20, false);
    let state = JoystickState { axis_x: 1_000_000, axis_y: -625_000, axis_z: 0 };
    assert!(bridge.handle_pan_tilt(&state));
    assert_eq!(bridge.state.pan_tilt_direction, PanTiltDirection::UpRight);
    assert_eq!(bridge.state.pan_speed, 24);
    assert_eq!(bridge.state.tilt_speed, 10);
    assert_eq!(bridge.state.last_zoom_position, None);
    assert_eq!(
        bridge.pan_tilt_command(),
        PanTiltCommand { direction: PanTiltDirection::UpRight, pan_speed: 24, tilt_speed: 10 }
    );
    assert!(!bridge.handle_pan_tilt(&state));
    assert!(bridge.is_valid());
    let slower = JoystickState { axis_x: 1_000_000, axis_y: -600_000, axis_z: 0 };
    assert!(bridge.handle_pan_tilt(&slower));
    assert_eq!(bridge.state.tilt_speed, 9);
    assert_eq!(bridge.state.pan_tilt_direction, PanTiltDirection::UpRight);
}

#[test]
fn pan_tilt_inside_the_dead_zone_changes_nothing() {
    let mut bridge = CameraBridge::new(250_000, 24, 20, false);
    let state = JoystickState { axis_x: 249_999, axis_y: -249_999, axis_z: 0 };
    assert!(!bridge.handle_pan_tilt(&state));
    assert_eq!(bridge.state.pan_tilt_direction, PanTiltDirection::Stop);
}

#[test]
fn zoom_change_is_detected_once() {
    let mut bridge = CameraBridge::new(250_000, 24, 20, false);
    let state = JoystickState { axis_x: 0, axis_y: 0, axis_z: 0 };
    assert!(bridge.handle_zoom(&state));
    assert_eq!(bridge.state.last_zoom_position, Some(8250));
    assert!(!bridge.handle_zoom(&state));
    assert_eq!(bridge.state.last_zoom_position, Some(8250));
    assert_eq!(bridge.state.pan_tilt_direction, PanTiltDirection::Stop);
}

#[test]
fn zoom_follows_the_inverted_axis() {
    let mut bridge = CameraBridge::new(250_000, 24, 20, true);
    assert!(bridge.handle_zoom(&JoystickState { axis_x: 0, axis_y: 0, axis_z: 1_000_000 }));
    assert_eq!(bridge.state.last_zoom_position, Some(0));
    assert!(bridge.handle_zoom(&JoystickState { axis_x: 0, axis_y: 0, axis_z: -500_000 }));
    assert_eq!(bridge.state.last_zoom_position, Some(12375));
    assert!(bridge.handle_zoom(&JoystickState { axis_x: 0, axis_y: 0, axis_z: i32::MIN }));
    assert_eq!(bridge.state.last_zoom_position, Some(16500));
    assert!(bridge.handle_zoom(&JoystickState { axis_x: 0, axis_y: 0, axis_z: i32::MAX }));
    assert_eq!(bridge.state.last_zoom_position, Some(0));
}

#[test]
fn full_zoom_is_sent_once() {
    let mut bridge = connected_bridge(false);
    assert_eq!(
        bridge.run(update(0, 0, 1_000_000)),
        Some(BridgeAction::SendZoom { position: 16500 })
    );
    assert_eq!(bridge.run(BridgeEvent::CommandSent), Some(BridgeAction::Sleep { millis: 50 }));
    assert_eq!(bridge.run(BridgeEvent::DelayElapsed), Some(BridgeAction::WaitForState));
    assert_eq!(bridge.run(update(0, 0, 1_000_000)), Some(BridgeAction::WaitForState));
    assert_eq!(bridge.phase, Phase::Waiting);
    assert_eq!(bridge.state.last_zoom_position, Some(16500));
}

#[test]
fn update_sends_pan_tilt_then_zoom_then_pauses() {
    let mut bridge = connected_bridge(false);
    let state = JoystickState { axis_x: -1_000_000, axis_y: 1_000_000, axis_z: 0 };
    assert_eq!(
        bridge.run(BridgeEvent::StateUpdate { state }),
        Some(BridgeAction::SendPanTilt {
            command: PanTiltCommand {
                direction: PanTiltDirection::DownLeft,
                pan_speed: 24,
                tilt_speed: 20,
            },
        })
    );
    assert_eq!(bridge.phase, Phase::SendingPanTilt { state });
    assert_eq!(bridge.state.last_zoom_position, None);
    assert_eq!(
        bridge.run(BridgeEvent::CommandSent),
        Some(BridgeAction::SendZoom { position: 8250 })
    );
    assert_eq!(bridge.phase, Phase::SendingZoom);
    assert_eq!(
        bridge.run(BridgeEvent::CommandSent),
        Some(BridgeAction::Sleep { millis: DEFAULT_UPDATE_INTERVAL_MS })
    );
    assert_eq!(bridge.phase, Phase::Pausing);
    assert_eq!(bridge.run(BridgeEvent::DelayElapsed), Some(BridgeAction::WaitForState));
    assert_eq!(bridge.phase, Phase::Waiting);
}

#[test]
fn pan_tilt_alone_pauses_after_delivery() {
    let mut bridge = connected_bridge(false);
    assert_eq!(bridge.run(update(0, 0, 0)), Some(BridgeAction::SendZoom { position: 8250 }));
    assert_eq!(bridge.run(BridgeEvent::CommandSent), Some(BridgeAction::Sleep { millis: 50 }));
    assert_eq!(bridge.run(BridgeEvent::DelayElapsed), Some(BridgeAction::WaitForState));
    assert_eq!(
        bridge.run(update(1_000_000, 0, 0)),
        Some(BridgeAction::SendPanTilt {
            command: PanTiltCommand {
                direction: PanTiltDirection::Right,
                pan_speed: 24,
                tilt_speed: 0,
            },
        })
    );
    assert_eq!(bridge.run(BridgeEvent::CommandSent), Some(BridgeAction::Sleep { millis: 50 }));
    assert_eq!(bridge.run(update(0, 0, 0)), None);
    assert_eq!(bridge.phase, Phase::Pausing);
    assert_eq!(bridge.run(BridgeEvent::DelayElapsed), Some(BridgeAction::WaitForState));
}

#[test]
fn unchanged_intent_sends_nothing_and_does_not_pause() {
    let mut bridge = connected_bridge(false);
    assert_eq!(bridge.run(update(0, 0, 0)), Some(BridgeAction::SendZoom { position: 8250 }));
    assert_eq!(bridge.run(BridgeEvent::CommandSent), Some(BridgeAction::Sleep { millis: 50 }));
    assert_eq!(bridge.run(BridgeEvent::DelayElapsed), Some(BridgeAction::WaitForState));
    let before = bridge;
    assert_eq!(bridge.run(update(100_000, -100_000, 0)), Some(BridgeAction::WaitForState));
    assert_eq!(bridge, before);
    assert_eq!(bridge.run(update(100_000, -100_000, 60)), Some(BridgeAction::WaitForState));
    assert_eq!(bridge, before);
}

#[test]
fn failed_send_is_not_replayed_after_reconnect() {
    let mut bridge = connected_bridge(false);
    assert_eq!(bridge.run(update(0, 0, 0)), Some(BridgeAction::SendZoom { position: 8250 }));
    assert_eq!(bridge.run(BridgeEvent::CommandSent), Some(BridgeAction::Sleep { millis: 50 }));
    assert_eq!(bridge.run(BridgeEvent::DelayElapsed), Some(BridgeAction::WaitForState));
    let moved = update(1_000_000, 0, 0);
    assert_eq!(
        bridge.run(moved),
        Some(BridgeAction::SendPanTilt {
            command: PanTiltCommand {
                direction: PanTiltDirection::Right,
                pan_speed: 24,
                tilt_speed: 0,
            },
        })
    );
    assert_eq!(bridge.run(BridgeEvent::SendFailed), Some(BridgeAction::Connect));
    assert_eq!(bridge.phase, Phase::Connecting);
    assert_eq!(bridge.state.pan_speed, 24);
    assert_eq!(bridge.state.pan_tilt_direction, PanTiltDirection::Right);
    assert_eq!(bridge.run(BridgeEvent::Connected), Some(BridgeAction::WaitForState));
    assert_eq!(bridge.run(moved), Some(BridgeAction::WaitForState));
    assert_eq!(bridge.phase, Phase::Waiting);
    assert_eq!(
        bridge.run(update(0, 0, 0)),
        Some(BridgeAction::SendPanTilt {
            command: PanTiltCommand {
                direction: PanTiltDirection::Stop,
                pan_speed: 0,
                tilt_speed: 0,
            },
        })
    );
}

#[test]
fn failed_pan_tilt_send_leaves_the_zoom_untouched() {
    let mut bridge = connected_bridge(false);
    assert!(matches!(
        bridge.run(update(1_000_000, 0, 300_000)),
        Some(BridgeAction::SendPanTilt { .. })
    ));
    assert_eq!(bridge.run(BridgeEvent::SendFailed), Some(BridgeAction::Connect));
    assert_eq!(bridge.state.last_zoom_position, None);
    assert_eq!(bridge.run(BridgeEvent::Connected), Some(BridgeAction::WaitForState));
    assert_eq!(
        bridge.run(update(1_000_000, 0, 300_000)),
        Some(BridgeAction::SendZoom { position: 10725 })
    );
    assert_eq!(bridge.run(BridgeEvent::SendFailed), Some(BridgeAction::Connect));
    assert_eq!(bridge.state.last_zoom_position, Some(10725));
}

#[test]
fn failed_connect_is_retried_after_the_delay() {
    let mut bridge = CameraBridge::new(250_000, 24, 20, false);
    assert_eq!(bridge.run(BridgeEvent::Started), Some(BridgeAction::Connect));
    for _ in 0..5 {
        assert_eq!(
            bridge.run(BridgeEvent::ConnectFailed),
            Some(BridgeAction::Sleep { millis: RECONNECT_DELAY_MS })
        );
        assert_eq!(bridge.phase, Phase::BackingOff);
        assert_eq!(bridge.run(BridgeEvent::DelayElapsed), Some(BridgeAction::Connect));
        assert_eq!(bridge.phase, Phase::Connecting);
    }
    assert_eq!(RECONNECT_DELAY_MS, 5000);
    assert_eq!(bridge.run(BridgeEvent::Connected), Some(BridgeAction::WaitForState));
}

#[test]
fn unexpected_events_change_nothing() {
    let mut bridge = CameraBridge::new(250_000, 24, 20, false);
    let before = bridge;
    assert_eq!(bridge.run(BridgeEvent::Connected), None);
    assert_eq!(bridge.run(update(1_000_000, 0, 0)), None);
    assert_eq!(bridge.run(BridgeEvent::CommandSent), None);
    assert_eq!(bridge.run(BridgeEvent::DelayElapsed), None);
    assert_eq!(bridge, before);
    let mut bridge = connected_bridge(false);
    let before = bridge;
    assert_eq!(bridge.run(BridgeEvent::Started), None);
    assert_eq!(bridge.run(BridgeEvent::SendFailed), None);
    assert_eq!(bridge.run(BridgeEvent::ConnectFailed), None);
    assert_eq!(bridge, before);
}

#[test]
fn commands_never_outnumber_updates() {
    let mut bridge = connected_bridge(true);
    let mut pan_tilt = 0;
    let mut zoom = 0;
    let mut updates = 0;
    let mut seed: i64 = 12345;
    for _ in 0..2000 {
        seed = (seed * 1103515245 + 12345) % 2147483648;
        let x = ((seed % 5) - 2) as i32 * 400_000;
        let z = ((seed / 7 % 3) - 1) as i32 * 600_000;
        let event = match seed % 6 {
            0 => BridgeEvent::CommandSent,
            1 => BridgeEvent::DelayElapsed,
            2 => BridgeEvent::SendFailed,
            3 => BridgeEvent::Connected,
            _ => update(x, -x, z),
        };
        let waiting = bridge.phase == Phase::Waiting;
        match bridge.run(event) {
            Some(BridgeAction::SendPanTilt { .. }) => pan_tilt += 1,
            Some(BridgeAction::SendZoom { .. }) => zoom += 1,
            _ => {}
        }
        if waiting && matches!(event, BridgeEvent::StateUpdate { .. }) {
            updates += 1;
        }
        assert!(bridge.is_valid());
        assert!(pan_tilt <= updates);
        assert!(zoom <= updates);
    }
    assert!(pan_tilt > 0 && zoom > 0);
}

#[test]
fn connection_follows_the_phase() {
    let mut bridge = CameraBridge::new(250_000, 24, 20, false);
    assert_eq!(bridge.connection_state(), ConnectionState::Disconnected);
    bridge.run(BridgeEvent::Started);
    assert_eq!(bridge.connection_state(), ConnectionState::Disconnected);
    bridge.run(BridgeEvent::ConnectFailed);
    assert_eq!(bridge.connection_state(), ConnectionState::Disconnected);
    bridge.run(BridgeEvent::DelayElapsed);
    bridge.run(BridgeEvent::Connected);
    assert_eq!(bridge.connection_state(), ConnectionState::Connected);
    bridge.run(update(1_000_000, 0, 0));
    assert_eq!(bridge.connection_state(), ConnectionState::Connected);
    bridge.run(BridgeEvent::CommandSent);
    assert_eq!(bridge.connection_state(), ConnectionState::Connected);
    bridge.run(BridgeEvent::SendFailed);
    assert_eq!(bridge.connection_state(), ConnectionState::Disconnected);
}

#[test]
fn inconsistent_intent_is_not_valid() {
    let mut bridge = CameraBridge::new(250_000, 24, 20, false);
    assert!(bridge.is_valid());
    bridge.state.pan_speed = 3;
    assert!(!bridge.is_valid());
    bridge.state.pan_tilt_direction = PanTiltDirection::Left;
    assert!(bridge.is_valid());
    bridge.state.tilt_speed = 21;
    assert!(!bridge.is_valid());
    bridge.state.tilt_speed = 0;
    bridge.state.last_zoom_position = Some(16501);
    assert!(!bridge.is_valid());
    bridge.state.last_zoom_position = Some(16500);
    assert!(bridge.is_valid());
    bridge.config.pan_max_speed = 25;
    assert!(!bridge.is_valid());
}

#[test]
fn speeds_stay_within_the_configured_ceilings() {
    let mut bridge = CameraBridge::new(250_000, 16, 12, false);
    let state = JoystickState { axis_x: -1_000_000, axis_y: 1_000_000, axis_z: 0 };
    assert!(bridge.handle_pan_tilt(&state));
    assert_eq!(bridge.state.pan_speed, 16);
    assert_eq!(bridge.state.tilt_speed, 12);
    assert_eq!(bridge.state.pan_tilt_direction, PanTiltDirection::DownLeft);
    let half = JoystickState { axis_x: 625_000, axis_y: -625_000, axis_z: 0 };
    assert!(bridge.handle_pan_tilt(&half));
    assert_eq!(bridge.state.pan_speed, 8);
    assert_eq!(bridge.state.tilt_speed, 6);
    assert_eq!(bridge.state.pan_tilt_direction, PanTiltDirection::UpRight);
}
