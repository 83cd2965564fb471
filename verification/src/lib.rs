//! Decision logic of a small pixel-physics sandbox and of an animated
//! triangle: what the keyboard asks of the bodies, when a collision puts a
//! body down on a floor, which way the triangle drifts, and what the event
//! loop does with each window event.  The arithmetic on positions,
//! velocities and colours is floating point and stays with the caller.

pub mod collision;
pub mod controls;
pub mod frame;
pub mod oscillation;
