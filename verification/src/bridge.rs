//! The command bridge: what the camera was last told, how a new controller
//! state changes that, and what the control cycle does next.

use vstd::prelude::*;
use crate::axis::{
    axis_speed, interpret_axis_speed, interpret_zoom_level, magnitude, zoom_level, MAX_ZOOM_LEVEL,
};
use crate::direction::{classify_direction, direction_of, PanTiltDirection};
use crate::state::JoystickState;

verus! {

/// The fastest pan that a camera accepts.
pub const PAN_SPEED_LIMIT: u8 = 24;

/// The fastest tilt that a camera accepts.
pub const TILT_SPEED_LIMIT: u8 = 20;

/// The pause after a command, in milliseconds, that a new bridge starts with.
pub const DEFAULT_UPDATE_INTERVAL_MS: u64 = 50;

/// The wait before another attempt to connect, in milliseconds.
pub const RECONNECT_DELAY_MS: u64 = 5000;

/// What the operator configured.
#[derive(Clone, Copy, Debug, PartialEq, Eq, Structural)]
pub struct BridgeConfig {
    pub min_update_interval_ms: u64,
    pub pan_tilt_threshold: i32,
    pub pan_max_speed: u8,
    pub tilt_max_speed: u8,
    pub invert_z_axis: bool,
}

/// A combined pan-tilt command: the direction and both speeds together.
#[derive(Clone, Copy, Debug, PartialEq, Eq, Structural)]
pub struct PanTiltCommand {
    pub direction: PanTiltDirection,
    pub pan_speed: u8,
    pub tilt_speed: u8,
}

/// The intent that the bridge last handed to the camera.
#[derive(Clone, Copy, Debug, PartialEq, Eq)]
pub struct BridgeState {
    pub pan_tilt_direction: PanTiltDirection,
    pub pan_speed: u8,
    pub tilt_speed: u8,
    pub last_zoom_position: Option<u16>,
}

/// Where the control cycle stands: what the bridge is waiting for.
#[derive(Clone, Copy, Debug, PartialEq, Eq, Structural)]
pub enum Phase {
    /// Not started yet.
    Disconnected,
    /// An attempt to connect is under way.
    Connecting,
    /// The last attempt failed; the wait before the next one is running.
    BackingOff,
    /// Connected, and waiting for the next controller state.
    Waiting,
    /// A pan-tilt command is on its way; the state that caused it is kept
    /// for the zoom.
    SendingPanTilt { state: JoystickState },
    /// A zoom command is on its way.
    SendingZoom,
    /// A command went out; the pause after it is running.
    Pausing,
}

/// What happened outside the bridge since its last action.
#[derive(Clone, Copy, Debug, PartialEq, Eq, Structural)]
pub enum BridgeEvent {
    /// The cycle begins.
    Started,
    /// The attempt to connect succeeded.
    Connected,
    /// The attempt to connect failed.
    ConnectFailed,
    /// The controller published a state.
    StateUpdate { state: JoystickState },
    /// The transport delivered the command.
    CommandSent,
    /// The transport failed on the command.
    SendFailed,
    /// The sleep that was asked for is over.
    DelayElapsed,
}

/// What the caller is to do next; its outcome is the next event.
#[derive(Clone, Copy, Debug, PartialEq, Eq, Structural)]
pub enum BridgeAction {
    /// Open the transport to the camera.
    Connect,
    /// Block until the controller publishes a state.
    WaitForState,
    /// Send a combined pan-tilt command.
    SendPanTilt { command: PanTiltCommand },
    /// Send an absolute zoom command.
    SendZoom { position: u16 },
    /// Sleep for so many milliseconds.
    Sleep { millis: u64 },
}

/// The two states of the connection.
#[derive(Clone, Copy, Debug, PartialEq, Eq, Structural)]
pub enum ConnectionState {
    Disconnected,
    Connected,
}

/// Sends commands to a camera as the controller's state changes.
#[derive(Clone, Copy, Debug, PartialEq, Eq)]
pub struct CameraBridge {
    pub config: BridgeConfig,
    pub state: BridgeState,
    pub phase: Phase,
}

impl BridgeConfig {
    /// The speed ceilings respect the camera's limits.
    pub open spec fn wf(self) -> bool {
        self.pan_max_speed <= PAN_SPEED_LIMIT && self.tilt_max_speed <= TILT_SPEED_LIMIT
    }

    /// The z position as the zoom reads it: mirrored where the axis is
    /// inverted.
    pub open spec fn zoom_input(self, state: JoystickState) -> int {
        if self.invert_z_axis {
            -(state.axis_z as int)
        } else {
            state.axis_z as int
        }
    }

    /// The signed pan speed that a controller state asks for.
    pub open spec fn x_speed(self, state: JoystickState) -> int {
        axis_speed(
            state.axis_x as int,
            self.pan_max_speed as int,
            self.pan_tilt_threshold as int,
        )
    }

    /// The signed tilt speed that a controller state asks for.
    pub open spec fn y_speed(self, state: JoystickState) -> int {
        axis_speed(
            state.axis_y as int,
            self.tilt_max_speed as int,
            self.pan_tilt_threshold as int,
        )
    }

    /// The pan-tilt command that a controller state asks for.
    pub open spec fn pan_tilt_intent(self, state: JoystickState) -> PanTiltCommand {
        PanTiltCommand {
            direction: direction_of(self.x_speed(state), self.y_speed(state)),
            pan_speed: magnitude(self.x_speed(state)) as u8,
            tilt_speed: magnitude(self.y_speed(state)) as u8,
        }
    }

    /// The zoom position that a controller state asks for.
    pub open spec fn zoom_intent(self, state: JoystickState) -> u16 {
        zoom_level(self.zoom_input(state)) as u16
    }
}

impl PanTiltCommand {
    /// The speeds respect the limits, and the direction moves exactly the
    /// axes whose speed is not zero.
    pub open spec fn wf(self) -> bool {
        &&& self.pan_speed <= PAN_SPEED_LIMIT
        &&& self.tilt_speed <= TILT_SPEED_LIMIT
        &&& (self.direction.pans() <==> self.pan_speed != 0)
        &&& (self.direction.tilts() <==> self.tilt_speed != 0)
    }
}

impl BridgeState {
    /// The pan-tilt part of the intent.
    pub open spec fn pan_tilt(self) -> PanTiltCommand {
        PanTiltCommand {
            direction: self.pan_tilt_direction,
            pan_speed: self.pan_speed,
            tilt_speed: self.tilt_speed,
        }
    }

    /// Direction and speeds are consistent, and a zoom position lies within
    /// the camera's range.
    pub open spec fn wf(self) -> bool {
        &&& self.pan_tilt().wf()
        &&& match self.last_zoom_position {
            Some(position) => position <= MAX_ZOOM_LEVEL,
            None => true,
        }
    }

    /// The state with its pan-tilt part replaced.
    pub open spec fn with_pan_tilt(self, command: PanTiltCommand) -> BridgeState {
        BridgeState {
            pan_tilt_direction: command.direction,
            pan_speed: command.pan_speed,
            tilt_speed: command.tilt_speed,
            last_zoom_position: self.last_zoom_position,
        }
    }

    /// The state with its zoom position replaced.
    pub open spec fn with_zoom(self, position: u16) -> BridgeState {
        BridgeState {
            pan_tilt_direction: self.pan_tilt_direction,
            pan_speed: self.pan_speed,
            tilt_speed: self.tilt_speed,
            last_zoom_position: Some(position),
        }
    }
}

impl Phase {
    /// The state of the connection in this phase.
    pub open spec fn connection(self) -> ConnectionState {
        match self {
            Phase::Disconnected | Phase::Connecting | Phase::BackingOff => {
                ConnectionState::Disconnected
            },
            _ => ConnectionState::Connected,
        }
    }

    /// Whether the event is one that this phase waits for.
    pub open spec fn accepts(self, event: BridgeEvent) -> bool {
        match self {
            Phase::Disconnected => event is Started,
            Phase::Connecting => event is Connected || event is ConnectFailed,
            Phase::BackingOff | Phase::Pausing => event is DelayElapsed,
            Phase::Waiting => event is StateUpdate,
            Phase::SendingPanTilt { .. } | Phase::SendingZoom => {
                event is CommandSent || event is SendFailed
            },
        }
    }
}

/// `PanSpeed::new` of grafton_visca, with the speed it accepted read back as
/// a number: the camera's protocol takes pan speeds up to 24 and keeps their
/// value; a larger one is refused.
#[verifier::external_body]
fn accepted_pan_speed(value: u8) -> (accepted: Option<u8>)
    ensures
        accepted == if value <= PAN_SPEED_LIMIT {
            Some(value)
        } else {
            None
        },
{
    grafton_visca::command::pan_tilt::PanSpeed::new(value).ok().map(u8::from)
}

/// `TiltSpeed::new` of grafton_visca, with the speed it accepted read back
/// as a number: the camera's protocol takes tilt speeds up to 20 and keeps
/// their value; a larger one is refused.
#[verifier::external_body]
fn accepted_tilt_speed(value: u8) -> (accepted: Option<u8>)
    ensures
        accepted == if value <= TILT_SPEED_LIMIT {
            Some(value)
        } else {
            None
        },
{
    grafton_visca::command::pan_tilt::TiltSpeed::new(value).ok().map(u8::from)
}

/// The magnitude of a signed speed.
pub fn unsigned_magnitude(speed: i8) -> (result: u8)
    ensures
        result as int == magnitude(speed as int),
{
    if speed < 0 {
        (-(speed as i16)) as u8
    } else {
        speed as u8
    }
}

impl CameraBridge {
    /// Configuration and intent are both well formed.
    pub open spec fn wf(self) -> bool {
        self.config.wf() && self.state.wf()
    }

    /// Whether a controller state asks for another pan-tilt command than the
    /// last one.
    pub open spec fn pan_tilt_changes(self, state: JoystickState) -> bool {
        self.state.pan_tilt() != self.config.pan_tilt_intent(state)
    }

    /// Whether a controller state asks for another zoom position than the
    /// last one. Before the first zoom command every state does.
    pub open spec fn zoom_changes(self, state: JoystickState) -> bool {
        self.state.last_zoom_position != Some(self.config.zoom_intent(state))
    }

    /// The bridge in another phase.
    pub open spec fn in_phase(self, phase: Phase) -> CameraBridge {
        CameraBridge { config: self.config, state: self.state, phase }
    }

    /// The zoom part of a state update: a zoom command where the position
    /// changes; else the pause, where a pan-tilt command went out for this
    /// update, or at once the wait for the next state.
    pub open spec fn zoom_step(self, state: JoystickState, sent: bool) -> (
        CameraBridge,
        BridgeAction,
    ) {
        if self.zoom_changes(state) {
            let position = self.config.zoom_intent(state);
            (
                CameraBridge {
                    config: self.config,
                    state: self.state.with_zoom(position),
                    phase: Phase::SendingZoom,
                },
                BridgeAction::SendZoom { position },
            )
        } else if sent {
            (
                self.in_phase(Phase::Pausing),
                BridgeAction::Sleep { millis: self.config.min_update_interval_ms },
            )
        } else {
            (self.in_phase(Phase::Waiting), BridgeAction::WaitForState)
        }
    }

    /// The bridge after an event that its phase accepts, and the action it
    /// asks for. (On any other event: the bridge as it is.)
    pub open spec fn step(self, event: BridgeEvent) -> (CameraBridge, BridgeAction) {
        match (self.phase, event) {
            (Phase::Disconnected, BridgeEvent::Started) => (
                self.in_phase(Phase::Connecting),
                BridgeAction::Connect,
            ),
            (Phase::Connecting, BridgeEvent::Connected) => (
                self.in_phase(Phase::Waiting),
                BridgeAction::WaitForState,
            ),
            (Phase::Connecting, BridgeEvent::ConnectFailed) => (
                self.in_phase(Phase::BackingOff),
                BridgeAction::Sleep { millis: RECONNECT_DELAY_MS },
            ),
            (Phase::BackingOff, BridgeEvent::DelayElapsed) => (
                self.in_phase(Phase::Connecting),
                BridgeAction::Connect,
            ),
            (Phase::Waiting, BridgeEvent::StateUpdate { state }) => {
                if self.pan_tilt_changes(state) {
                    let command = self.config.pan_tilt_intent(state);
                    (
                        CameraBridge {
                            config: self.config,
                            state: self.state.with_pan_tilt(command),
                            phase: Phase::SendingPanTilt { state },
                        },
                        BridgeAction::SendPanTilt { command },
                    )
                } else {
                    self.zoom_step(state, false)
                }
            },
            (Phase::SendingPanTilt { state }, BridgeEvent::CommandSent) => self.zoom_step(
                state,
                true,
            ),
            (Phase::SendingZoom, BridgeEvent::CommandSent) => (
                self.in_phase(Phase::Pausing),
                BridgeAction::Sleep { millis: self.config.min_update_interval_ms },
            ),
            (Phase::Pausing, BridgeEvent::DelayElapsed) => (
                self.in_phase(Phase::Waiting),
                BridgeAction::WaitForState,
            ),
            (Phase::SendingPanTilt { .. }, BridgeEvent::SendFailed) => (
                self.in_phase(Phase::Connecting),
                BridgeAction::Connect,
            ),
            (Phase::SendingZoom, BridgeEvent::SendFailed) => (
                self.in_phase(Phase::Connecting),
                BridgeAction::Connect,
            ),
            _ => (self, BridgeAction::WaitForState),
        }
    }

    /// A bridge at rest: everything stopped, no zoom commanded yet, not
    /// connected. Speed ceilings above the camera's limits are lowered to
    /// them.
    pub fn new(
        pan_tilt_threshold: i32,
        pan_max_speed: u8,
        tilt_max_speed: u8,
        invert_z_axis: bool,
    ) -> (bridge: Self)
        ensures
            bridge.wf(),
            bridge.config == (BridgeConfig {
                min_update_interval_ms: DEFAULT_UPDATE_INTERVAL_MS,
                pan_tilt_threshold,
                pan_max_speed: if pan_max_speed <= PAN_SPEED_LIMIT {
                    pan_max_speed
                } else {
                    PAN_SPEED_LIMIT
                },
                tilt_max_speed: if tilt_max_speed <= TILT_SPEED_LIMIT {
                    tilt_max_speed
                } else {
                    TILT_SPEED_LIMIT
                },
                invert_z_axis,
            }),
            bridge.state == (BridgeState {
                pan_tilt_direction: PanTiltDirection::Stop,
                pan_speed: 0,
                tilt_speed: 0,
                last_zoom_position: None,
            }),
            bridge.phase == Phase::Disconnected,
    {
        CameraBridge {
            config: BridgeConfig {
                min_update_interval_ms: DEFAULT_UPDATE_INTERVAL_MS,
                pan_tilt_threshold,
                pan_max_speed: if pan_max_speed <= PAN_SPEED_LIMIT {
                    pan_max_speed
                } else {
                    PAN_SPEED_LIMIT
                },
                tilt_max_speed: if tilt_max_speed <= TILT_SPEED_LIMIT {
                    tilt_max_speed
                } else {
                    TILT_SPEED_LIMIT
                },
                invert_z_axis,
            },
            state: BridgeState {
                pan_tilt_direction: PanTiltDirection::Stop,
                pan_speed: 0,
                tilt_speed: 0,
                last_zoom_position: None,
            },
            phase: Phase::Disconnected,
        }
    }

    /// Whether configuration and intent are well formed.
    pub fn is_valid(&self) -> (valid: bool)
        ensures
            valid == self.wf(),
    {
        let zoom_ok = match self.state.last_zoom_position {
            Some(position) => position <= MAX_ZOOM_LEVEL,
            None => true,
        };
        let pans = match self.state.pan_tilt_direction {
            PanTiltDirection::Stop | PanTiltDirection::Up | PanTiltDirection::Down => false,
            _ => true,
        };
        let tilts = match self.state.pan_tilt_direction {
            PanTiltDirection::Stop | PanTiltDirection::Left | PanTiltDirection::Right => false,
            _ => true,
        };
        let limits_ok = self.config.pan_max_speed <= PAN_SPEED_LIMIT && self.config.tilt_max_speed
            <= TILT_SPEED_LIMIT && self.state.pan_speed <= PAN_SPEED_LIMIT
            && self.state.tilt_speed <= TILT_SPEED_LIMIT;
        let direction_ok = pans == (self.state.pan_speed != 0) && tilts == (self.state.tilt_speed
            != 0);
        limits_ok && direction_ok && zoom_ok
    }

    /// The state of the connection.
    pub fn connection_state(&self) -> (connection: ConnectionState)
        ensures
            connection == self.phase.connection(),
    {
        match self.phase {
            Phase::Disconnected | Phase::Connecting | Phase::BackingOff => {
                ConnectionState::Disconnected
            },
            _ => ConnectionState::Connected,
        }
    }

    /// The pan-tilt command that stands for the current intent.
    pub fn pan_tilt_command(&self) -> (command: PanTiltCommand)
        ensures
            command == self.state.pan_tilt(),
    {
        PanTiltCommand {
            direction: self.state.pan_tilt_direction,
            pan_speed: self.state.pan_speed,
            tilt_speed: self.state.tilt_speed,
        }
    }

    /// Derives the pan-tilt intent from a controller state and makes it the
    /// current one. Returns whether direction or either speed changed.
    pub fn handle_pan_tilt(&mut self, state: &JoystickState) -> (changed: bool)
        requires
            old(self).wf(),
        ensures
            final(self).wf(),
            changed == old(self).pan_tilt_changes(*state),
            final(self).state == old(self).state.with_pan_tilt(
                old(self).config.pan_tilt_intent(*state),
            ),
            !changed ==> final(self).state == old(self).state,
            final(self).config == old(self).config,
            final(self).phase == old(self).phase,
    {
        let x_speed: i8 = interpret_axis_speed(
            state.axis_x,
            self.config.pan_max_speed,
            self.config.pan_tilt_threshold,
        );
        let y_speed: i8 = interpret_axis_speed(
            state.axis_y,
            self.config.tilt_max_speed,
            self.config.pan_tilt_threshold,
        );
        let pan_speed: u8 = accepted_pan_speed(unsigned_magnitude(x_speed)).unwrap();
        let tilt_speed: u8 = accepted_tilt_speed(unsigned_magnitude(y_speed)).unwrap();
        let direction = classify_direction(x_speed, y_speed);
        proof {
            crate::direction::lemma_direction_matches_speeds(x_speed as int, y_speed as int);
        }
        let mut changed = false;
        if direction != self.state.pan_tilt_direction {
            self.state.pan_tilt_direction = direction;
            changed = true;
        }
        if pan_speed != self.state.pan_speed {
            self.state.pan_speed = pan_speed;
            changed = true;
        }
        if tilt_speed != self.state.tilt_speed {
            self.state.tilt_speed = tilt_speed;
            changed = true;
        }
        changed
    }

    /// Derives the zoom position from a controller state and makes it the
    /// current one. Returns whether it changed.
    pub fn handle_zoom(&mut self, state: &JoystickState) -> (changed: bool)
        requires
            old(self).wf(),
        ensures
            final(self).wf(),
            changed == old(self).zoom_changes(*state),
            final(self).state == old(self).state.with_zoom(old(self).config.zoom_intent(*state)),
            !changed ==> final(self).state == old(self).state,
            final(self).config == old(self).config,
            final(self).phase == old(self).phase,
    {
        let input: i32 = if self.config.invert_z_axis {
            if state.axis_z == i32::MIN {
                i32::MAX
            } else {
                -state.axis_z
            }
        } else {
            state.axis_z
        };
        let zoom_level: u16 = interpret_zoom_level(input);
        let changed = match self.state.last_zoom_position {
            Some(position) => position != zoom_level,
            None => true,
        };
        self.state.last_zoom_position = Some(zoom_level);
        changed
    }

    /// The zoom part of a state update.
    fn run_zoom(&mut self, state: &JoystickState, sent: bool) -> (action: BridgeAction)
        requires
            old(self).wf(),
        ensures
            final(self).wf(),
            *final(self) == old(self).zoom_step(*state, sent).0,
            action == old(self).zoom_step(*state, sent).1,
    {
        if self.handle_zoom(state) {
            self.phase = Phase::SendingZoom;
            match self.state.last_zoom_position {
                Some(position) => BridgeAction::SendZoom { position },
                None => BridgeAction::WaitForState,
            }
        } else if sent {
            self.phase = Phase::Pausing;
            BridgeAction::Sleep { millis: self.config.min_update_interval_ms }
        } else {
            self.phase = Phase::Waiting;
            BridgeAction::WaitForState
        }
    }

    /// Takes the control cycle one event further and says what to do next.
    /// An event that the current phase does not wait for changes nothing and
    /// gets no action.
    pub fn run(&mut self, event: BridgeEvent) -> (action: Option<BridgeAction>)
        requires
            old(self).wf(),
        ensures
            final(self).wf(),
            old(self).phase.accepts(event) ==> *final(self) == old(self).step(event).0 && action
                == Some(old(self).step(event).1),
            !old(self).phase.accepts(event) ==> *final(self) == *old(self) && action is None,
    {
        match (self.phase, event) {
            (Phase::Disconnected, BridgeEvent::Started) => {
                self.phase = Phase::Connecting;
                Some(BridgeAction::Connect)
            },
            (Phase::Connecting, BridgeEvent::Connected) => {
                self.phase = Phase::Waiting;
                Some(BridgeAction::WaitForState)
            },
            (Phase::Connecting, BridgeEvent::ConnectFailed) => {
                self.phase = Phase::BackingOff;
                Some(BridgeAction::Sleep { millis: RECONNECT_DELAY_MS })
            },
            (Phase::BackingOff, BridgeEvent::DelayElapsed) => {
                self.phase = Phase::Connecting;
                Some(BridgeAction::Connect)
            },
            (Phase::Waiting, BridgeEvent::StateUpdate { state }) => {
                if self.handle_pan_tilt(&state) {
                    self.phase = Phase::SendingPanTilt { state };
                    Some(BridgeAction::SendPanTilt { command: self.pan_tilt_command() })
                } else {
                    Some(self.run_zoom(&state, false))
                }
            },
            (Phase::SendingPanTilt { state }, BridgeEvent::CommandSent) => {
                Some(self.run_zoom(&state, true))
            },
            (Phase::SendingPanTilt { .. }, BridgeEvent::SendFailed) => {
                self.phase = Phase::Connecting;
                Some(BridgeAction::Connect)
            },
            (Phase::SendingZoom, BridgeEvent::CommandSent) => {
                self.phase = Phase::Pausing;
                Some(BridgeAction::Sleep { millis: self.config.min_update_interval_ms })
            },
            (Phase::SendingZoom, BridgeEvent::SendFailed) => {
                self.phase = Phase::Connecting;
                Some(BridgeAction::Connect)
            },
            (Phase::Pausing, BridgeEvent::DelayElapsed) => {
                self.phase = Phase::Waiting;
                Some(BridgeAction::WaitForState)
            },
            _ => None,
        }
    }
}

/// How many of the events are state updates.
pub open spec fn updates(events: Seq<BridgeEvent>) -> nat
    decreases events.len(),
{
    if events.len() == 0 {
        0
    } else {
        let rest = updates(events.drop_first());
        if events[0] is StateUpdate {
            rest + 1
        } else {
            rest
        }
    }
}

impl CameraBridge {
    /// The bridge after an event, accepted or not.
    pub open spec fn after(self, event: BridgeEvent) -> CameraBridge {
        if self.phase.accepts(event) {
            self.step(event).0
        } else {
            self
        }
    }

    /// Whether the event makes the bridge send a pan-tilt command.
    pub open spec fn sends_pan_tilt(self, event: BridgeEvent) -> bool {
        self.phase.accepts(event) && self.step(event).1 is SendPanTilt
    }

    /// Whether the event makes the bridge send a zoom command.
    pub open spec fn sends_zoom(self, event: BridgeEvent) -> bool {
        self.phase.accepts(event) && self.step(event).1 is SendZoom
    }

    /// How many pan-tilt commands the bridge sends over a run of events.
    pub open spec fn pan_tilt_sends(self, events: Seq<BridgeEvent>) -> nat
        decreases events.len(),
    {
        if events.len() == 0 {
            0
        } else {
            let rest = self.after(events[0]).pan_tilt_sends(events.drop_first());
            if self.sends_pan_tilt(events[0]) {
                rest + 1
            } else {
                rest
            }
        }
    }

    /// How many zoom commands the bridge sends over a run of events.
    pub open spec fn zoom_sends(self, events: Seq<BridgeEvent>) -> nat
        decreases events.len(),
    {
        if events.len() == 0 {
            0
        } else {
            let rest = self.after(events[0]).zoom_sends(events.drop_first());
            if self.sends_zoom(events[0]) {
                rest + 1
            } else {
                rest
            }
        }
    }

    /// The zoom commands that the bridge still owes to an update it has
    /// already taken: one while the pan-tilt command of that update is on
    /// its way.
    pub open spec fn zoom_owed(self) -> nat {
        if self.phase is SendingPanTilt {
            1
        } else {
            0
        }
    }
}

/// Over any run of events the bridge sends at most one pan-tilt command and
/// at most one zoom command for each state update (the zoom command of an
/// update taken before the run may still follow).
pub proof fn lemma_commands_per_update(bridge: CameraBridge, events: Seq<BridgeEvent>)
    ensures
        bridge.pan_tilt_sends(events) <= updates(events),
        bridge.zoom_sends(events) <= updates(events) + bridge.zoom_owed(),
    decreases events.len(),
{
    if events.len() > 0 {
        lemma_commands_per_update(bridge.after(events[0]), events.drop_first());
    }
}

/// A pan-tilt command is only ever the answer to a state update, and a zoom
/// command the answer to one or to the delivery of its pan-tilt command.
pub proof fn lemma_commands_answer_updates(bridge: CameraBridge, event: BridgeEvent)
    ensures
        bridge.sends_pan_tilt(event) ==> bridge.phase is Waiting && event is StateUpdate,
        bridge.sends_zoom(event) ==> (bridge.phase is Waiting && event is StateUpdate) || (
        bridge.phase is SendingPanTilt && event is CommandSent),
{
}

/// A state update that asks for the intent that the bridge already holds
/// sends nothing: the bridge stays as it is and waits for the next state.
pub proof fn lemma_same_intent_sends_nothing(bridge: CameraBridge, state: JoystickState)
    requires
        bridge.phase is Waiting,
        !bridge.pan_tilt_changes(state),
        !bridge.zoom_changes(state),
    ensures
        bridge.step(BridgeEvent::StateUpdate { state }) == (bridge, BridgeAction::WaitForState),
{
}

/// A state update that changes the intent makes it the bridge's own at
/// once, whatever becomes of the command: once both parts of the intent of
/// a state are taken, the same state asks for no change.
pub proof fn lemma_intent_is_kept(bridge: CameraBridge, state: JoystickState)
    ensures
        ({
            let kept = CameraBridge {
                config: bridge.config,
                state: bridge.state.with_pan_tilt(bridge.config.pan_tilt_intent(state)).with_zoom(
                    bridge.config.zoom_intent(state),
                ),
                phase: bridge.phase,
            };
            !kept.pan_tilt_changes(state) && !kept.zoom_changes(state)
        }),
{
}

/// After a delivered command the bridge either sends the zoom command of
/// the same update or pauses for the configured interval; while it pauses
/// it takes no state update, and only the end of the pause brings it back
/// to waiting for one.
pub proof fn lemma_pause_after_command(bridge: CameraBridge, event: BridgeEvent)
    ensures
        (bridge.phase is SendingPanTilt || bridge.phase is SendingZoom) && event is CommandSent
            ==> {
            ||| (bridge.step(event).1 is SendZoom && bridge.step(event).0.phase is SendingZoom
                && bridge.phase is SendingPanTilt)
            ||| (bridge.step(event).1 == (BridgeAction::Sleep {
                millis: bridge.config.min_update_interval_ms,
            }) && bridge.step(event).0.phase is Pausing)
        },
        bridge.phase is Pausing ==> (bridge.phase.accepts(event) <==> event is DelayElapsed),
        bridge.phase is Pausing && event is DelayElapsed ==> bridge.step(event) == (
            bridge.in_phase(Phase::Waiting),
            BridgeAction::WaitForState,
        ),
        event is StateUpdate && bridge.phase.accepts(event) ==> bridge.phase is Waiting,
        bridge.phase.accepts(event) && bridge.step(event).0.phase is Waiting ==> {
            ||| (bridge.phase is Connecting && event is Connected)
            ||| (bridge.phase is Pausing && event is DelayElapsed)
            ||| (bridge.phase is Waiting && bridge.step(event).0 == bridge)
        },
{
}

/// The connection is lost exactly by a failed send and won exactly by a
/// successful attempt to connect; no other event changes it, and the intent
/// survives both. A failed attempt is followed by the fixed delay and then
/// by another attempt, without end.
pub proof fn lemma_connection_changes(bridge: CameraBridge, event: BridgeEvent)
    requires
        bridge.phase.accepts(event),
    ensures
        bridge.step(event).0.config == bridge.config,
        bridge.phase.connection() is Connected && bridge.step(event).0.phase.connection()
            is Disconnected <==> event is SendFailed,
        bridge.phase.connection() is Disconnected && bridge.step(event).0.phase.connection()
            is Connected <==> event is Connected,
        event is SendFailed || event is Connected || event is ConnectFailed ==> bridge.step(
            event,
        ).0.state == bridge.state,
        event is SendFailed ==> bridge.step(event).1 is Connect,
        event is ConnectFailed ==> bridge.step(event).1 == (BridgeAction::Sleep {
            millis: RECONNECT_DELAY_MS,
        }),
        bridge.phase is BackingOff ==> bridge.step(event) == (
            bridge.in_phase(Phase::Connecting),
            BridgeAction::Connect,
        ),
{
}

/// The intent that a controller state asks for is always one that the
/// camera accepts: speeds within the configured ceilings, a direction that
/// moves exactly the axes with a speed, a zoom position within the range.
pub proof fn lemma_intent_is_well_formed(config: BridgeConfig, state: JoystickState)
    requires
        config.wf(),
    ensures
        config.pan_tilt_intent(state).wf(),
        config.pan_tilt_intent(state).pan_speed <= config.pan_max_speed,
        config.pan_tilt_intent(state).tilt_speed <= config.tilt_max_speed,
        config.zoom_intent(state) <= MAX_ZOOM_LEVEL,
        (config.pan_tilt_intent(state).direction is Stop) <==> (config.pan_tilt_intent(
            state,
        ).pan_speed == 0 && config.pan_tilt_intent(state).tilt_speed == 0),
{
    crate::axis::lemma_speed_sign_and_bound(
        state.axis_x as int,
        config.pan_max_speed as int,
        config.pan_tilt_threshold as int,
    );
    crate::axis::lemma_speed_sign_and_bound(
        state.axis_y as int,
        config.tilt_max_speed as int,
        config.pan_tilt_threshold as int,
    );
    crate::direction::lemma_direction_matches_speeds(config.x_speed(state), config.y_speed(state));
    crate::axis::lemma_zoom_in_range(config.zoom_input(state));
}

/// Every accepted event leaves a well-formed bridge well formed and its
/// configuration as it was, and a zoom position, once commanded, is never
/// forgotten.
pub proof fn lemma_step_keeps_invariant(bridge: CameraBridge, event: BridgeEvent)
    requires
        bridge.wf(),
        bridge.phase.accepts(event),
    ensures
        bridge.step(event).0.wf(),
        bridge.step(event).0.config == bridge.config,
        bridge.state.last_zoom_position is Some ==> bridge.step(
            event,
        ).0.state.last_zoom_position is Some,
        bridge.step(event).1 is SendZoom ==> bridge.step(event).0.state.last_zoom_position
            == Some(bridge.step(event).1->position),
        bridge.step(event).1 is SendPanTilt ==> bridge.step(event).0.state.pan_tilt()
            == bridge.step(event).1->command && bridge.step(event).1->command.wf(),
{
    match (bridge.phase, event) {
        (Phase::Waiting, BridgeEvent::StateUpdate { state }) => {
            lemma_intent_is_well_formed(bridge.config, state);
        },
        (Phase::SendingPanTilt { state }, BridgeEvent::CommandSent) => {
            lemma_intent_is_well_formed(bridge.config, state);
        },
        _ => {},
    }
}

} // verus!
