//! Local keyboard control of the emulated camera: the keys held down each
//! frame become a pan/tilt command and a zoom command.

use vstd::prelude::*;
use crate::protocol::{
    pan_speed_for, pan_speed_of, tilt_speed_for, tilt_speed_of, zoom_speed_for, zoom_speed_of,
};
use crate::ptz_camera::{update_of, AxisVelocity, VelocityUpdate};
use crate::visca::{
    Command, PanTilt, PanTiltDirection, SpeedLevel, Zoom, PAN_SPEED_MAX, TILT_SPEED_MAX,
    ZOOM_SPEED_MAX,
};

verus! {

/// The control keys held down: the arrows (or W, A, S, D), the speed
/// modifiers (Shift for fast, Control for slow) and the zoom keys (Q or
/// Page Down to widen, E or Page Up to narrow).
#[derive(Clone, Copy, Debug, Default, PartialEq, Eq, Structural)]
pub struct KeyState {
    pub up: bool,
    pub down: bool,
    pub left: bool,
    pub right: bool,
    pub fast: bool,
    pub slow: bool,
    pub zoom_out: bool,
    pub zoom_in: bool,
}

/// The direction the arrow keys point to. One vertical key and at most one
/// horizontal key, or one horizontal key alone, give a direction; any other
/// combination, opposite keys among them, stops.
pub open spec fn direction_of_keys(up: bool, down: bool, left: bool, right: bool) -> PanTiltDirection {
    if up && !down && left && !right {
        PanTiltDirection::UpLeft
    } else if up && !down && !left && right {
        PanTiltDirection::UpRight
    } else if up && !down && !left && !right {
        PanTiltDirection::Up
    } else if !up && down && left && !right {
        PanTiltDirection::DownLeft
    } else if !up && down && !left && right {
        PanTiltDirection::DownRight
    } else if !up && down && !left && !right {
        PanTiltDirection::Down
    } else if !up && !down && left && !right {
        PanTiltDirection::Left
    } else if !up && !down && !left && right {
        PanTiltDirection::Right
    } else {
        PanTiltDirection::Stop
    }
}

/// The speed level the modifiers select: fast wins over slow; with neither,
/// medium.
pub open spec fn speed_of_keys(fast: bool, slow: bool) -> SpeedLevel {
    if fast {
        SpeedLevel::Fast
    } else if slow {
        SpeedLevel::Slow
    } else {
        SpeedLevel::Medium
    }
}

/// The pan/tilt command of the keys: a move in their direction at the pan
/// and tilt speeds of their speed level.
pub open spec fn move_of_keys(keys: KeyState) -> Command {
    let speed = speed_of_keys(keys.fast, keys.slow);
    Command::PanTilt(
        PanTilt::Move {
            direction: direction_of_keys(keys.up, keys.down, keys.left, keys.right),
            pan_speed: pan_speed_of(speed),
            tilt_speed: tilt_speed_of(speed),
        },
    )
}

/// The zoom command of the keys: widening wins over narrowing; with
/// neither, stop.
pub open spec fn zoom_of_keys(keys: KeyState) -> Command {
    let speed = zoom_speed_of(speed_of_keys(keys.fast, keys.slow));
    if keys.zoom_out {
        Command::Zoom(Zoom::WideVariable(speed))
    } else if keys.zoom_in {
        Command::Zoom(Zoom::TeleVariable(speed))
    } else {
        Command::Zoom(Zoom::Stop)
    }
}

/// The direction the arrow keys point to (see [`direction_of_keys`]).
pub fn keyboard_direction(up: bool, down: bool, left: bool, right: bool) -> (direction:
    PanTiltDirection)
    ensures
        direction == direction_of_keys(up, down, left, right),
{
    match (up, down, left, right) {
        (true, false, true, false) => PanTiltDirection::UpLeft,
        (true, false, false, true) => PanTiltDirection::UpRight,
        (true, false, false, false) => PanTiltDirection::Up,
        (false, true, true, false) => PanTiltDirection::DownLeft,
        (false, true, false, true) => PanTiltDirection::DownRight,
        (false, true, false, false) => PanTiltDirection::Down,
        (false, false, true, false) => PanTiltDirection::Left,
        (false, false, false, true) => PanTiltDirection::Right,
        _ => PanTiltDirection::Stop,
    }
}

/// The speed level the modifier keys select (see [`speed_of_keys`]).
pub fn keyboard_speed(fast: bool, slow: bool) -> (speed: SpeedLevel)
    ensures
        speed == speed_of_keys(fast, slow),
{
    if fast {
        SpeedLevel::Fast
    } else if slow {
        SpeedLevel::Slow
    } else {
        SpeedLevel::Medium
    }
}

/// The two commands sent for the keys held down: first the pan/tilt move,
/// then the zoom.
pub fn keyboard_commands(keys: KeyState) -> (commands: (Command, Command))
    ensures
        commands.0 == move_of_keys(keys),
        commands.1 == zoom_of_keys(keys),
        commands.0.well_formed(),
        commands.1.well_formed(),
{
    let speed = keyboard_speed(keys.fast, keys.slow);
    let direction = keyboard_direction(keys.up, keys.down, keys.left, keys.right);
    let movement = Command::PanTilt(
        PanTilt::Move {
            direction,
            pan_speed: pan_speed_for(speed),
            tilt_speed: tilt_speed_for(speed),
        },
    );
    let zoom = if keys.zoom_out {
        Command::Zoom(Zoom::WideVariable(zoom_speed_for(speed)))
    } else if keys.zoom_in {
        Command::Zoom(Zoom::TeleVariable(zoom_speed_for(speed)))
    } else {
        Command::Zoom(Zoom::Stop)
    };
    (movement, zoom)
}

/// The velocity along one axis when `positive` or `negative` is pressed
/// (and not both), at `speed` within `0..=max`.
pub open spec fn axis_of_keys(positive: bool, negative: bool, speed: u8, max: u8) -> AxisVelocity {
    if positive && !negative {
        AxisVelocity::Moving { negative: false, offset: speed, span: max }
    } else if negative && !positive {
        AxisVelocity::Moving { negative: true, offset: speed, span: max }
    } else {
        AxisVelocity::Zero
    }
}

/// The camera turns the way the arrow keys point, at the speed the
/// modifiers select: up tilts positively and down negatively, left pans
/// positively and right negatively. Holding both keys of an axis stops that
/// axis, and holding both keys of one axis stops the other axis too.
pub proof fn lemma_keys_steer_camera(keys: KeyState)
    ensures
        ({
            let speed = speed_of_keys(keys.fast, keys.slow);
            let vertical_clash = keys.up && keys.down;
            let horizontal_clash = keys.left && keys.right;
            update_of(move_of_keys(keys)) == VelocityUpdate::PanTilt {
                pan: if vertical_clash {
                    AxisVelocity::Zero
                } else {
                    axis_of_keys(keys.left, keys.right, pan_speed_of(speed), PAN_SPEED_MAX)
                },
                tilt: if horizontal_clash {
                    AxisVelocity::Zero
                } else {
                    axis_of_keys(keys.up, keys.down, tilt_speed_of(speed), TILT_SPEED_MAX)
                },
            }
        }),
{
}

/// The zoom keys widen (negative zoom velocity) or narrow (positive zoom
/// velocity) at the zoom speed the modifiers select; widening wins when both
/// are held, and with neither the zoom stops.
pub proof fn lemma_keys_drive_zoom(keys: KeyState)
    ensures
        ({
            let speed = zoom_speed_of(speed_of_keys(keys.fast, keys.slow));
            update_of(zoom_of_keys(keys)) == VelocityUpdate::Zoom(
                if keys.zoom_out {
                    AxisVelocity::Moving { negative: true, offset: speed, span: ZOOM_SPEED_MAX }
                } else if keys.zoom_in {
                    AxisVelocity::Moving { negative: false, offset: speed, span: ZOOM_SPEED_MAX }
                } else {
                    AxisVelocity::Zero
                },
            )
        }),
{
}

/// The keys' commands run at pan speed 18, tilt speed 15 and zoom speed 6
/// when the fast modifier is held; at 6, 5 and 2 when only the slow one is;
/// and at 12, 10 and 4 otherwise. An arrow key held alone moves in its own
/// direction.
pub proof fn lemma_key_speeds_and_directions(keys: KeyState)
    ensures
        ({
            let speeds: (u8, u8, u8) = if keys.fast {
                (18, 15, 6)
            } else if keys.slow {
                (6, 5, 2)
            } else {
                (12, 10, 4)
            };
            &&& move_of_keys(keys) matches Command::PanTilt(
                PanTilt::Move { pan_speed, tilt_speed, .. },
            ) && pan_speed == speeds.0 && tilt_speed == speeds.1
            &&& keys.zoom_out ==> zoom_of_keys(keys) == Command::Zoom(Zoom::WideVariable(speeds.2))
            &&& !keys.zoom_out && keys.zoom_in ==> zoom_of_keys(keys) == Command::Zoom(
                Zoom::TeleVariable(speeds.2),
            )
            &&& !keys.zoom_out && !keys.zoom_in ==> zoom_of_keys(keys) == Command::Zoom(Zoom::Stop)
        }),
        direction_of_keys(true, false, false, false) == PanTiltDirection::Up,
        direction_of_keys(false, true, false, false) == PanTiltDirection::Down,
        direction_of_keys(false, false, true, false) == PanTiltDirection::Left,
        direction_of_keys(false, false, false, true) == PanTiltDirection::Right,
        direction_of_keys(false, false, false, false) == PanTiltDirection::Stop,
{
}

} // verus!
