//! Per-frame input handling: one frame's worth of polled commands, and the
//! exact effect of applying them to the camera and the settings.
//!
//! The host loop polls the input device once per frame and hands the result
//! over as a [`FrameInput`] of plain values. [`apply_input`] then performs
//! the whole update; [`camera_step`] and [`settings_step`] state it field by
//! field over the mathematical models.

use crate::camera::{
    lemma_product_bound, CameraModel, CameraState, COORD_LIMIT, FRAME_TIME_LIMIT, MOVE_SPEED,
    PITCH, RADIUS, YAW, ZOOM_STEP,
};
use crate::fixed::{div_scale_sq, lemma_tdiv_bound, tdiv, SCALE};
use crate::settings::{
    with_debug_toggled, with_display_keymapping_toggled, with_display_settings_toggled,
    with_grid_decreased, with_grid_increased, with_theme_switched, Settings, SettingsModel,
    GRID_STEP,
};
use vstd::prelude::*;

verus! {

/// The commands and pointer state polled on one frame.
///
/// Key commands come in two flavours, matching how the host polls them: a
/// `*_held` flag is true on every frame the key is down (so the command
/// repeats), a `*_pressed` flag only on the frame of the press-down edge (so
/// the command fires once).
#[derive(Clone, Copy)]
pub struct FrameInput {
    /// Arrow up is held: raise the pitch.
    pub up_held: bool,
    /// Arrow down is held: lower the pitch.
    pub down_held: bool,
    /// Arrow left is held: lower the yaw.
    pub left_held: bool,
    /// Arrow right is held: raise the yaw.
    pub right_held: bool,
    /// The primary pointer button is held: the pointer motion drags the
    /// camera.
    pub primary_held: bool,
    /// Pointer position this frame, in fixed-point screen units.
    pub pointer: (i64, i64),
    /// Time the frame took, in fixed-point seconds; never negative.
    pub frame_time: i64,
    /// Wheel movement this frame; only its sign matters.
    pub wheel: i64,
    /// Reset the camera to the startup defaults.
    pub reset_pressed: bool,
    /// Show or hide the settings panel.
    pub settings_pressed: bool,
    /// Show or hide the keybinding help window.
    pub keymapping_pressed: bool,
    /// Switch the debug overlay.
    pub debug_pressed: bool,
    /// Switch the colour scheme.
    pub theme_pressed: bool,
    /// A shift key is held; grid resizing needs it.
    pub shift_held: bool,
    /// The "increase grid" key is held.
    pub increase_held: bool,
    /// The "decrease grid" key is held.
    pub decrease_held: bool,
}

/// Bounds under which one frame of camera updates cannot overflow `i64`.
pub open spec fn input_in_bounds(input: FrameInput) -> bool {
    &&& -COORD_LIMIT <= input.pointer.0 <= COORD_LIMIT
    &&& -COORD_LIMIT <= input.pointer.1 <= COORD_LIMIT
    &&& 0 <= input.frame_time <= FRAME_TIME_LIMIT
}

/// Angular contribution of a pointer drag: the pointer delta times the frame
/// time times the sensitivity constant, brought back to fixed point.
pub open spec fn drag_step(delta: int, frame_time: int) -> int {
    tdiv(delta * frame_time * MOVE_SPEED, SCALE * SCALE)
}

/// The camera after one frame of input.
///
/// Held arrows add or take `move_speed`; a drag adds the pointer-delta
/// contribution on top; a wheel tick moves the radius one whole unit, zooming
/// in on a positive tick; the reset command, applied last, restores radius,
/// yaw and pitch to the startup defaults whatever else the frame carried.
/// The remembered pointer position always becomes this frame's.
pub open spec fn camera_step(c: CameraModel, input: FrameInput) -> CameraModel {
    let pitch_keys = c.pitch + (if input.up_held {
        c.move_speed
    } else {
        0
    }) - (if input.down_held {
        c.move_speed
    } else {
        0
    });
    let yaw_keys = c.yaw - (if input.left_held {
        c.move_speed
    } else {
        0
    }) + (if input.right_held {
        c.move_speed
    } else {
        0
    });
    let delta_x = input.pointer.0 - c.last_pointer.0;
    let delta_y = input.pointer.1 - c.last_pointer.1;
    let yaw_dragged = if input.primary_held {
        yaw_keys + drag_step(delta_x, input.frame_time as int)
    } else {
        yaw_keys
    };
    let pitch_dragged = if input.primary_held {
        pitch_keys - drag_step(delta_y, input.frame_time as int)
    } else {
        pitch_keys
    };
    let radius_zoomed = if input.wheel > 0 {
        c.radius - ZOOM_STEP
    } else if input.wheel < 0 {
        c.radius + ZOOM_STEP
    } else {
        c.radius
    };
    if input.reset_pressed {
        CameraModel {
            move_speed: c.move_speed,
            radius: RADIUS as int,
            yaw: YAW as int,
            pitch: PITCH as int,
            last_pointer: (input.pointer.0 as int, input.pointer.1 as int),
        }
    } else {
        CameraModel {
            move_speed: c.move_speed,
            radius: radius_zoomed,
            yaw: yaw_dragged,
            pitch: pitch_dragged,
            last_pointer: (input.pointer.0 as int, input.pointer.1 as int),
        }
    }
}

/// The settings after one frame of input: each pressed command flips its
/// flag, and a held shift with a resize key moves the grid one unit, both
/// directions in the same frame cancelling out.
pub open spec fn settings_step(m: SettingsModel, input: FrameInput) -> SettingsModel {
    let m1 = if input.settings_pressed {
        with_display_settings_toggled(m)
    } else {
        m
    };
    let m2 = if input.keymapping_pressed {
        with_display_keymapping_toggled(m1)
    } else {
        m1
    };
    let m3 = if input.debug_pressed {
        with_debug_toggled(m2)
    } else {
        m2
    };
    let m4 = if input.theme_pressed {
        with_theme_switched(m3)
    } else {
        m3
    };
    let m5 = if input.shift_held && input.increase_held {
        with_grid_increased(m4)
    } else {
        m4
    };
    if input.shift_held && input.decrease_held {
        with_grid_decreased(m5)
    } else {
        m5
    }
}

/// Applies one frame of polled input to the camera and the settings; the
/// result is exactly [`camera_step`] and [`settings_step`] of the previous
/// states.
pub fn apply_input(camera: &mut CameraState, settings: &mut Settings, input: &FrameInput)
    requires
        old(camera).in_bounds(),
        input_in_bounds(*input),
        old(settings).grid.slices + GRID_STEP <= i64::MAX,
        old(settings).grid.slices - GRID_STEP >= i64::MIN,
    ensures
        final(camera).model() == camera_step(old(camera).model(), *input),
        final(settings).model() == settings_step(old(settings).model(), *input),
{
    apply_camera_input(camera, input);
    apply_settings_input(settings, input);
}

/// The camera half of [`apply_input`].
pub fn apply_camera_input(camera: &mut CameraState, input: &FrameInput)
    requires
        old(camera).in_bounds(),
        input_in_bounds(*input),
    ensures
        final(camera).model() == camera_step(old(camera).model(), *input),
{
    // Camera control: held arrows first.
    if input.up_held {
        camera.pitch = camera.pitch + camera.move_speed;
    }
    if input.down_held {
        camera.pitch = camera.pitch - camera.move_speed;
    }
    if input.left_held {
        camera.yaw = camera.yaw - camera.move_speed;
    }
    if input.right_held {
        camera.yaw = camera.yaw + camera.move_speed;
    }

    // Pointer drag against the previous frame's position.
    let delta_x: i64 = input.pointer.0 - camera.last_pointer.0;
    let delta_y: i64 = input.pointer.1 - camera.last_pointer.1;
    camera.last_pointer = input.pointer;
    if input.primary_held {
        proof {
            lemma_product_bound(
                delta_x as int,
                input.frame_time as int,
                2_000_000_000,
                10_000_000,
            );
            lemma_product_bound(
                delta_x * input.frame_time,
                MOVE_SPEED as int,
                20_000_000_000_000_000,
                100,
            );
            lemma_tdiv_bound(
                delta_x * input.frame_time * MOVE_SPEED,
                SCALE * SCALE,
                2_000_000_000_000_000_000,
            );
            lemma_product_bound(
                delta_y as int,
                input.frame_time as int,
                2_000_000_000,
                10_000_000,
            );
            lemma_product_bound(
                delta_y * input.frame_time,
                MOVE_SPEED as int,
                20_000_000_000_000_000,
                100,
            );
            lemma_tdiv_bound(
                delta_y * input.frame_time * MOVE_SPEED,
                SCALE * SCALE,
                2_000_000_000_000_000_000,
            );
        }
        camera.yaw = camera.yaw + div_scale_sq(delta_x * input.frame_time * MOVE_SPEED);
        camera.pitch = camera.pitch - div_scale_sq(delta_y * input.frame_time * MOVE_SPEED);
    }

    // Wheel zoom.
    if input.wheel > 0 {
        camera.radius = camera.radius - ZOOM_STEP;
    } else if input.wheel < 0 {
        camera.radius = camera.radius + ZOOM_STEP;
    }

    // Camera reset, applied last.
    if input.reset_pressed {
        camera.radius = RADIUS;
        camera.yaw = YAW;
        camera.pitch = PITCH;
    }
}

/// The settings half of [`apply_input`].
pub fn apply_settings_input(settings: &mut Settings, input: &FrameInput)
    requires
        old(settings).grid.slices + GRID_STEP <= i64::MAX,
        old(settings).grid.slices - GRID_STEP >= i64::MIN,
    ensures
        final(settings).model() == settings_step(old(settings).model(), *input),
{
    // Settings commands.
    if input.settings_pressed {
        settings.toggle_display_settings();
    }
    if input.keymapping_pressed {
        settings.toggle_display_keymapping();
    }
    if input.debug_pressed {
        settings.toggle_debug();
    }
    if input.theme_pressed {
        settings.switch_theme();
    }

    // Grid resizing: held shift with a resize key, each direction each frame.
    if input.shift_held && input.increase_held {
        settings.increase_grid_size();
    }
    if input.shift_held && input.decrease_held {
        settings.decrease_grid_size();
    }
}

/// The camera after a whole run of frames, applied in order.
pub open spec fn camera_after_frames(c: CameraModel, inputs: Seq<FrameInput>) -> CameraModel
    decreases inputs.len(),
{
    if inputs.len() == 0 {
        c
    } else {
        camera_after_frames(camera_step(c, inputs[0]), inputs.drop_first())
    }
}

/// One frame that carries the reset command leaves radius, yaw and pitch at
/// the startup defaults, whatever else the frame carried and whatever state
/// the camera was in; the movement speed is untouched.
pub proof fn lemma_reset_restores_defaults(c: CameraModel, input: FrameInput)
    requires
        input.reset_pressed,
    ensures
        camera_step(c, input).radius == RADIUS,
        camera_step(c, input).yaw == YAW,
        camera_step(c, input).pitch == PITCH,
        camera_step(c, input).move_speed == c.move_speed,
{
}

/// Any non-empty run of frames that all carry the reset command leaves
/// radius, yaw and pitch at the startup defaults exactly, from any starting
/// state; the movement speed is untouched.
pub proof fn lemma_reset_run_restores_defaults(c: CameraModel, inputs: Seq<FrameInput>)
    requires
        inputs.len() > 0,
        forall|i: int| 0 <= i < inputs.len() ==> inputs[i].reset_pressed,
    ensures
        camera_after_frames(c, inputs).radius == RADIUS,
        camera_after_frames(c, inputs).yaw == YAW,
        camera_after_frames(c, inputs).pitch == PITCH,
        camera_after_frames(c, inputs).move_speed == c.move_speed,
    decreases inputs.len(),
{
    let after_first = camera_step(c, inputs[0]);
    let rest = inputs.drop_first();
    assert(camera_after_frames(c, inputs) == camera_after_frames(after_first, rest));
    if inputs.len() == 1 {
        assert(rest.len() == 0);
        assert(camera_after_frames(after_first, rest) == after_first);
    } else {
        assert forall|i: int| 0 <= i < rest.len() implies rest[i].reset_pressed by {
            assert(rest[i] == inputs[i + 1]);
        }
        lemma_reset_run_restores_defaults(after_first, rest);
    }
}

} // verus!
