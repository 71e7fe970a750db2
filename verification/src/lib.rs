//! Command bridge between a game controller and a pan-tilt-zoom camera.
//!
//! Axis positions are held as fixed-point integers, `axis::AXIS_UNIT` to one
//! full deflection; `encoding` reads them from the bits of single-precision
//! numbers. The modules derive camera commands from them, detect changes of
//! intent, and decide what the control cycle does next. Devices, sockets,
//! clocks and threads stay with the caller: `bridge` and `controller` take
//! what happened as an event and answer with what to do.

pub mod axis;
pub mod direction;
pub mod state;
pub mod bridge;
pub mod controller;
pub mod encoding;
