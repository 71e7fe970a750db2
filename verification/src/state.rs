//! The snapshot of the controller that the bridge consumes.

use vstd::prelude::*;

verus! {

/// The positions of the three axes of a controller, each in fixed-point
/// units (`AXIS_UNIT` to one full deflection). A producer need not have
/// clamped them.
#[derive(Clone, Copy, Debug, PartialEq, Eq, Structural)]
pub struct JoystickState {
    pub axis_x: i32,
    pub axis_y: i32,
    pub axis_z: i32,
}

impl Default for JoystickState {
    /// All three axes at rest.
    fn default() -> (state: Self)
        ensures
            state == (JoystickState { axis_x: 0, axis_y: 0, axis_z: 0 }),
    {
        JoystickState { axis_x: 0, axis_y: 0, axis_z: 0 }
    }
}

} // verus!
