//! Orbit camera state: a radius and two angles around a fixed target.
//!
//! All fields are fixed-point values (see [`crate::fixed`]). The camera is
//! created once with fixed defaults, mutated each frame by
//! [`crate::key_mapping::apply_input`], and restored to the defaults by the
//! reset command. Angles are deliberately left unbounded: nothing wraps them
//! to one turn and nothing stops the radius from crossing zero.

use crate::fixed::{div_scale, div_scale_sq, lemma_tdiv_bound, tdiv, SCALE};
use vstd::prelude::*;

verus! {

/// Angular step added per frame while an arrow key is held (0.1 in fixed
/// point), and also the sensitivity factor of a pointer drag.
pub const MOVE_SPEED: i64 = 100;

/// Startup distance from the target (40.0 in fixed point).
pub const RADIUS: i64 = 40_000;

/// Startup yaw angle in fixed-point radians.
pub const YAW: i64 = 0;

/// Startup pitch angle in fixed-point radians (-10.0, so the camera starts
/// raised above the target).
pub const PITCH: i64 = -10_000;

/// Fixed-point change of the radius per wheel tick (1.0).
pub const ZOOM_STEP: i64 = 1000;

/// Magnitude limit on the camera fields under which one frame of updates
/// provably stays inside `i64`.
pub const FIELD_LIMIT: i64 = 1_000_000_000_000_000;

/// Magnitude limit on pointer coordinates.
pub const COORD_LIMIT: i64 = 1_000_000_000;

/// Upper limit on the elapsed time of one frame (10 000 seconds in fixed
/// point).
pub const FRAME_TIME_LIMIT: i64 = 10_000_000;

/// Magnitude limit on the radius and the target coordinates under which the
/// derived eye position provably stays inside `i64`.
pub const GEOM_LIMIT: i64 = 1_000_000_000_000;

/// Orbit parameters of the camera, in fixed point.
pub struct CameraState {
    /// Angular step for discrete key input; constant after construction.
    pub move_speed: i64,
    /// Distance from the target; unbounded, may go negative.
    pub radius: i64,
    /// Azimuth angle in fixed-point radians; never wrapped.
    pub yaw: i64,
    /// Elevation angle in fixed-point radians; never wrapped.
    pub pitch: i64,
    /// Pointer position seen on the previous frame, used for drag deltas.
    pub last_pointer: (i64, i64),
}

/// Mathematical value of a [`CameraState`]: the same fields over unbounded
/// integers.
pub ghost struct CameraModel {
    pub move_speed: int,
    pub radius: int,
    pub yaw: int,
    pub pitch: int,
    pub last_pointer: (int, int),
}

impl CameraState {
    /// The mathematical value this state holds.
    pub open spec fn model(self) -> CameraModel {
        CameraModel {
            move_speed: self.move_speed as int,
            radius: self.radius as int,
            yaw: self.yaw as int,
            pitch: self.pitch as int,
            last_pointer: (self.last_pointer.0 as int, self.last_pointer.1 as int),
        }
    }

    /// Bounds under which one frame of updates cannot overflow `i64`.
    pub open spec fn in_bounds(self) -> bool {
        &&& -FIELD_LIMIT <= self.move_speed <= FIELD_LIMIT
        &&& -FIELD_LIMIT <= self.radius <= FIELD_LIMIT
        &&& -FIELD_LIMIT <= self.yaw <= FIELD_LIMIT
        &&& -FIELD_LIMIT <= self.pitch <= FIELD_LIMIT
        &&& -COORD_LIMIT <= self.last_pointer.0 <= COORD_LIMIT
        &&& -COORD_LIMIT <= self.last_pointer.1 <= COORD_LIMIT
    }

    /// A fresh camera: the startup defaults, remembering the given pointer
    /// position for the first drag delta.
    pub fn new(pointer: (i64, i64)) -> (c: CameraState)
        ensures
            c.move_speed == MOVE_SPEED,
            c.radius == RADIUS,
            c.yaw == YAW,
            c.pitch == PITCH,
            c.last_pointer == pointer,
    {
        CameraState {
            move_speed: MOVE_SPEED,
            radius: RADIUS,
            yaw: YAW,
            pitch: PITCH,
            last_pointer: pointer,
        }
    }

    /// Eye position of the orbit camera, from fixed-point samples of the
    /// trigonometric functions of yaw and pitch (each in `[-SCALE, SCALE]`).
    ///
    /// Spherical to Cartesian around the target:
    /// `x = target.x + radius * cos(yaw) * cos(pitch)`,
    /// `y = target.y + radius * sin(pitch)`,
    /// `z = target.z + radius * sin(yaw) * cos(pitch)`,
    /// each product brought back to fixed point by truncating division.
    pub fn eye_position(
        &self,
        yaw_cos: i64,
        yaw_sin: i64,
        pitch_cos: i64,
        pitch_sin: i64,
        target: (i64, i64, i64),
    ) -> (eye: (i64, i64, i64))
        requires
            -GEOM_LIMIT <= self.radius <= GEOM_LIMIT,
            -SCALE <= yaw_cos <= SCALE,
            -SCALE <= yaw_sin <= SCALE,
            -SCALE <= pitch_cos <= SCALE,
            -SCALE <= pitch_sin <= SCALE,
            -GEOM_LIMIT <= target.0 <= GEOM_LIMIT,
            -GEOM_LIMIT <= target.1 <= GEOM_LIMIT,
            -GEOM_LIMIT <= target.2 <= GEOM_LIMIT,
        ensures
            eye.0 == target.0 + tdiv(self.radius * yaw_cos * pitch_cos, SCALE * SCALE),
            eye.1 == target.1 + tdiv(self.radius * pitch_sin, SCALE as int),
            eye.2 == target.2 + tdiv(self.radius * yaw_sin * pitch_cos, SCALE * SCALE),
    {
        proof {
            lemma_product_bound(self.radius as int, yaw_cos as int, GEOM_LIMIT as int, SCALE as int);
            lemma_product_bound(self.radius * yaw_cos, pitch_cos as int, (GEOM_LIMIT * SCALE) as int, SCALE as int);
            lemma_product_bound(self.radius as int, yaw_sin as int, GEOM_LIMIT as int, SCALE as int);
            lemma_product_bound(self.radius * yaw_sin, pitch_cos as int, (GEOM_LIMIT * SCALE) as int, SCALE as int);
            lemma_product_bound(self.radius as int, pitch_sin as int, GEOM_LIMIT as int, SCALE as int);
            lemma_tdiv_bound(self.radius * yaw_cos * pitch_cos, SCALE * SCALE, GEOM_LIMIT * SCALE * SCALE);
            lemma_tdiv_bound(self.radius * yaw_sin * pitch_cos, SCALE * SCALE, GEOM_LIMIT * SCALE * SCALE);
            lemma_tdiv_bound(self.radius * pitch_sin, SCALE as int, GEOM_LIMIT * SCALE);
        }
        let x: i64 = target.0 + div_scale_sq(self.radius * yaw_cos * pitch_cos);
        let y: i64 = target.1 + div_scale(self.radius * pitch_sin);
        let z: i64 = target.2 + div_scale_sq(self.radius * yaw_sin * pitch_cos);
        (x, y, z)
    }
}

/// The product of two bounded factors is bounded by the product of the
/// bounds.
pub proof fn lemma_product_bound(x: int, y: int, x_limit: int, y_limit: int)
    by (nonlinear_arith)
    requires
        0 <= x_limit,
        0 <= y_limit,
        -x_limit <= x <= x_limit,
        -y_limit <= y <= y_limit,
    ensures
        -(x_limit * y_limit) <= x * y <= x_limit * y_limit,
{
}

} // verus!
