//! The nine directions of a pan-tilt move, and how a pair of signed speeds
//! selects one.

use vstd::prelude::*;

verus! {

/// The direction of a pan-tilt move.
#[derive(Clone, Copy, Debug, PartialEq, Eq, Structural)]
pub enum PanTiltDirection {
    Stop,
    Up,
    Down,
    Left,
    Right,
    UpLeft,
    UpRight,
    DownLeft,
    DownRight,
}

/// The direction that a pair of signed speeds selects. A positive vertical
/// speed points down, a positive horizontal speed to the right.
pub open spec fn direction_of(x_speed: int, y_speed: int) -> PanTiltDirection {
    if x_speed == 0 {
        if y_speed == 0 {
            PanTiltDirection::Stop
        } else if y_speed > 0 {
            PanTiltDirection::Down
        } else {
            PanTiltDirection::Up
        }
    } else if x_speed > 0 {
        if y_speed == 0 {
            PanTiltDirection::Right
        } else if y_speed > 0 {
            PanTiltDirection::DownRight
        } else {
            PanTiltDirection::UpRight
        }
    } else {
        if y_speed == 0 {
            PanTiltDirection::Left
        } else if y_speed > 0 {
            PanTiltDirection::DownLeft
        } else {
            PanTiltDirection::UpLeft
        }
    }
}

impl PanTiltDirection {
    /// Whether a move in this direction changes the pan.
    pub open spec fn pans(self) -> bool {
        !(self is Stop || self is Up || self is Down)
    }

    /// Whether a move in this direction changes the tilt.
    pub open spec fn tilts(self) -> bool {
        !(self is Stop || self is Left || self is Right)
    }
}

/// Selects the direction of a move from its two signed speeds.
pub fn classify_direction(x_speed: i8, y_speed: i8) -> (direction: PanTiltDirection)
    ensures
        direction == direction_of(x_speed as int, y_speed as int),
{
    if x_speed == 0 {
        if y_speed == 0 {
            PanTiltDirection::Stop
        } else if y_speed > 0 {
            PanTiltDirection::Down
        } else {
            PanTiltDirection::Up
        }
    } else if x_speed > 0 {
        if y_speed == 0 {
            PanTiltDirection::Right
        } else if y_speed > 0 {
            PanTiltDirection::DownRight
        } else {
            PanTiltDirection::UpRight
        }
    } else {
        if y_speed == 0 {
            PanTiltDirection::Left
        } else if y_speed > 0 {
            PanTiltDirection::DownLeft
        } else {
            PanTiltDirection::UpLeft
        }
    }
}

/// The classification as a table: each of the nine sign patterns of the two
/// speeds has its own direction, and every pair of speeds has one of them.
pub proof fn lemma_direction_table(x_speed: int, y_speed: int)
    ensures
        (x_speed == 0 && y_speed == 0) <==> direction_of(x_speed, y_speed) is Stop,
        (x_speed == 0 && y_speed > 0) <==> direction_of(x_speed, y_speed) is Down,
        (x_speed == 0 && y_speed < 0) <==> direction_of(x_speed, y_speed) is Up,
        (x_speed > 0 && y_speed == 0) <==> direction_of(x_speed, y_speed) is Right,
        (x_speed > 0 && y_speed > 0) <==> direction_of(x_speed, y_speed) is DownRight,
        (x_speed > 0 && y_speed < 0) <==> direction_of(x_speed, y_speed) is UpRight,
        (x_speed < 0 && y_speed == 0) <==> direction_of(x_speed, y_speed) is Left,
        (x_speed < 0 && y_speed > 0) <==> direction_of(x_speed, y_speed) is DownLeft,
        (x_speed < 0 && y_speed < 0) <==> direction_of(x_speed, y_speed) is UpLeft,
{
}

/// A direction pans exactly when the horizontal speed is not zero, and tilts
/// exactly when the vertical speed is not zero.
pub proof fn lemma_direction_matches_speeds(x_speed: int, y_speed: int)
    ensures
        direction_of(x_speed, y_speed).pans() <==> x_speed != 0,
        direction_of(x_speed, y_speed).tilts() <==> y_speed != 0,
{
}

} // verus!
