//! A verified rotation-animation engine for a wireframe cube.
//!
//! The engine keeps all quantities (coordinates, angles, angular velocities)
//! as fixed-point integers with `SCALE` fractional units per whole unit, so
//! every state transition has an exact arithmetic specification.

use vstd::prelude::*;

pub mod fixed;
pub mod trig;
pub mod geometry;
pub mod engine;
pub mod render;
pub mod laws;

verus! {

/// Fixed-point fractional units per whole unit (coordinate, radian, ...).
pub const SCALE: i64 = 10_000_000_000;

/// Ticks per second of the host timer; angular velocities are divided by
/// this to obtain the per-frame rotation angle.
pub const FRAME_RATE: i64 = 200;

/// Ten degrees in radians (0.1745329255), scaled: the initial angular
/// velocity about each axis.
pub const TEN_DEGREE_FX: i64 = 1_745_329_255;

/// Fifty degrees in radians (0.8726646275), scaled: the base acceleration
/// impulse added by one user acceleration command.
pub const ACCELERATE_BY_FX: i64 = 8_726_646_275;

/// Damping multiplies each velocity component by
/// `DAMPEN_NUM / DAMPEN_DEN = 0.9955 = 1 - 0.9 / FRAME_RATE` once per tick.
pub const DAMPEN_NUM: i64 = 9_955;
pub const DAMPEN_DEN: i64 = 10_000;

/// Pi, scaled (truncated).
pub const PI_FX: i64 = 31_415_926_535;

/// Two pi, scaled (truncated): the period used for angle range reduction.
pub const TWO_PI_FX: i64 = 62_831_853_071;

/// Half the side of the cube (100 object units), scaled.
pub const HALF_SIDE_FX: i64 = 1_000_000_000_000;

/// The drawing-surface center (300 drawing units on each axis), scaled.
pub const VIEW_CENTER_FX: i64 = 3_000_000_000_000;

/// Coordinates saturate at this magnitude (10^8 object units, scaled), far
/// beyond anything the drawing surface can show; rotation keeps every
/// coordinate within it.
pub const COORD_LIMIT: i64 = 1_000_000_000_000_000_000;

/// Angular-velocity components saturate at this magnitude
/// (9 * 10^4 radians per second, scaled).
pub const VEL_LIMIT: i64 = 900_000_000_000_000;

/// The velocity multiplier is the power of two with this largest exponent
/// magnitude; scaling commands saturate at the bounds.
pub const VEL_EXP_LIMIT: i64 = 60;

} // verus!
