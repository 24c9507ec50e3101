//! How the emulated PTZ camera answers the commands it receives: each
//! command sets the velocity of some of its axes.

use vstd::prelude::*;
use crate::protocol::{
    pan_speed_bounds, tilt_speed_bounds, zoom_speed_bounds, zoom_speed_for, zoom_speed_of,
};
use crate::visca::{
    Command, PanTilt, PanTiltDirection, SpeedLevel, Zoom, PAN_SPEED_MAX, TILT_SPEED_MAX,
    ZOOM_SPEED_MAX,
};

verus! {

/// A velocity along one axis of the camera, in units of its full speed.
///
/// `Moving { negative, offset, span }` stands for the velocity
/// `±2 * offset / span`: a speed `offset` steps above the lowest of a range
/// of `span` steps, scaled up to at most twice the unit, with the sign given
/// by `negative`.
#[derive(Clone, Copy, Debug, PartialEq, Eq, Structural)]
pub enum AxisVelocity {
    Zero,
    Moving { negative: bool, offset: u8, span: u8 },
}

/// The change a command makes to a camera's velocity.
#[derive(Clone, Copy, Debug, PartialEq, Eq, Structural)]
pub enum VelocityUpdate {
    /// Set the pan and tilt velocities; zoom is left as it is.
    PanTilt { pan: AxisVelocity, tilt: AxisVelocity },
    /// Set the zoom velocity; pan and tilt are left as they are.
    Zoom(AxisVelocity),
    /// A command the camera does not carry out; nothing changes.
    Unsupported,
}

/// The velocity of a speed `value` within `min..=max`, signed.
pub open spec fn scaled(value: u8, min: u8, max: u8, negative: bool) -> AxisVelocity {
    AxisVelocity::Moving { negative, offset: (value - min) as u8, span: (max - min) as u8 }
}

/// The velocity of a speed `value` within `min..=max`.
pub fn scaled_u8(value: u8, min: u8, max: u8, negative: bool) -> (velocity: AxisVelocity)
    requires
        min <= value,
        min <= max,
    ensures
        velocity == scaled(value, min, max, negative),
{
    AxisVelocity::Moving { negative, offset: value - min, span: max - min }
}

/// Whether a command makes the camera carry out a move it cannot perform:
/// returning home or resetting.
pub open spec fn is_position_command(command: Command) -> bool {
    command == Command::PanTilt(PanTilt::Home) || command == Command::PanTilt(PanTilt::Reset)
}

/// The tilt velocity of a move: up is positive, down negative.
pub open spec fn tilt_of(direction: PanTiltDirection, tilt_speed: u8) -> AxisVelocity {
    match direction {
        PanTiltDirection::Up | PanTiltDirection::UpLeft | PanTiltDirection::UpRight => scaled(
            tilt_speed,
            0,
            TILT_SPEED_MAX,
            false,
        ),
        PanTiltDirection::Down | PanTiltDirection::DownLeft | PanTiltDirection::DownRight => scaled(
            tilt_speed,
            0,
            TILT_SPEED_MAX,
            true,
        ),
        _ => AxisVelocity::Zero,
    }
}

/// The pan velocity of a move: left is positive, right negative.
pub open spec fn pan_of(direction: PanTiltDirection, pan_speed: u8) -> AxisVelocity {
    match direction {
        PanTiltDirection::Left | PanTiltDirection::UpLeft | PanTiltDirection::DownLeft => scaled(
            pan_speed,
            0,
            PAN_SPEED_MAX,
            false,
        ),
        PanTiltDirection::Right | PanTiltDirection::UpRight | PanTiltDirection::DownRight => scaled(
            pan_speed,
            0,
            PAN_SPEED_MAX,
            true,
        ),
        _ => AxisVelocity::Zero,
    }
}

/// The change a command makes to the camera's velocity. Telephoto zoom is
/// positive, wide zoom negative; the standard zoom speed is the medium one.
pub open spec fn update_of(command: Command) -> VelocityUpdate {
    match command {
        Command::PanTilt(PanTilt::Move { direction, pan_speed, tilt_speed }) => VelocityUpdate::PanTilt {
            pan: pan_of(direction, pan_speed),
            tilt: tilt_of(direction, tilt_speed),
        },
        Command::PanTilt(_) => VelocityUpdate::Unsupported,
        Command::Zoom(Zoom::Stop) => VelocityUpdate::Zoom(AxisVelocity::Zero),
        Command::Zoom(Zoom::TeleStd) => VelocityUpdate::Zoom(
            scaled(zoom_speed_of(SpeedLevel::Medium), 0, ZOOM_SPEED_MAX, false),
        ),
        Command::Zoom(Zoom::WideStd) => VelocityUpdate::Zoom(
            scaled(zoom_speed_of(SpeedLevel::Medium), 0, ZOOM_SPEED_MAX, true),
        ),
        Command::Zoom(Zoom::TeleVariable(speed)) => VelocityUpdate::Zoom(
            scaled(speed, 0, ZOOM_SPEED_MAX, false),
        ),
        Command::Zoom(Zoom::WideVariable(speed)) => VelocityUpdate::Zoom(
            scaled(speed, 0, ZOOM_SPEED_MAX, true),
        ),
        Command::Zoom(Zoom::Position(_)) => VelocityUpdate::Unsupported,
    }
}

/// The change a command makes to the velocity of every camera. Returning
/// home and resetting are not carried out, and callers must not pass them.
pub fn interpret_command(command: &Command) -> (update: VelocityUpdate)
    requires
        !is_position_command(*command),
    ensures
        update == update_of(*command),
{
    match command {
        Command::PanTilt(pan_tilt) => match pan_tilt {
            PanTilt::Move { direction, pan_speed, tilt_speed } => {
                let (tilt_min, tilt_max) = tilt_speed_bounds();
                let (pan_min, pan_max) = pan_speed_bounds();
                let tilt_velocity = match direction {
                    PanTiltDirection::Up | PanTiltDirection::UpLeft | PanTiltDirection::UpRight => {
                        scaled_u8(*tilt_speed, tilt_min, tilt_max, false)
                    },
                    PanTiltDirection::Down
                    | PanTiltDirection::DownLeft
                    | PanTiltDirection::DownRight => scaled_u8(*tilt_speed, tilt_min, tilt_max, true),
                    _ => AxisVelocity::Zero,
                };
                let pan_velocity = match direction {
                    PanTiltDirection::Left
                    | PanTiltDirection::UpLeft
                    | PanTiltDirection::DownLeft => scaled_u8(*pan_speed, pan_min, pan_max, false),
                    PanTiltDirection::Right
                    | PanTiltDirection::UpRight
                    | PanTiltDirection::DownRight => scaled_u8(*pan_speed, pan_min, pan_max, true),
                    _ => AxisVelocity::Zero,
                };
                VelocityUpdate::PanTilt { pan: pan_velocity, tilt: tilt_velocity }
            },
            _ => VelocityUpdate::Unsupported,
        },
        Command::Zoom(zoom) => {
            let (zoom_min, zoom_max) = zoom_speed_bounds();
            match zoom {
                Zoom::Stop => VelocityUpdate::Zoom(AxisVelocity::Zero),
                Zoom::TeleStd => VelocityUpdate::Zoom(
                    scaled_u8(zoom_speed_for(SpeedLevel::Medium), zoom_min, zoom_max, false),
                ),
                Zoom::WideStd => VelocityUpdate::Zoom(
                    scaled_u8(zoom_speed_for(SpeedLevel::Medium), zoom_min, zoom_max, true),
                ),
                Zoom::TeleVariable(speed) => VelocityUpdate::Zoom(
                    scaled_u8(*speed, zoom_min, zoom_max, false),
                ),
                Zoom::WideVariable(speed) => VelocityUpdate::Zoom(
                    scaled_u8(*speed, zoom_min, zoom_max, true),
                ),
                Zoom::Position(_) => VelocityUpdate::Unsupported,
            }
        },
    }
}

/// The velocities of one camera along its three axes.
#[derive(Clone, Copy, Debug, PartialEq, Eq, Structural)]
pub struct CameraVelocity {
    pub pan: AxisVelocity,
    pub tilt: AxisVelocity,
    pub zoom: AxisVelocity,
}

/// The velocities after an update: the axes it sets change, the others stay.
pub open spec fn applied(velocity: CameraVelocity, update: VelocityUpdate) -> CameraVelocity {
    match update {
        VelocityUpdate::PanTilt { pan, tilt } => CameraVelocity { pan, tilt, ..velocity },
        VelocityUpdate::Zoom(zoom) => CameraVelocity { zoom, ..velocity },
        VelocityUpdate::Unsupported => velocity,
    }
}

/// The velocities after the commands, taken in order.
pub open spec fn applied_all(velocity: CameraVelocity, commands: Seq<Command>) -> CameraVelocity
    decreases commands.len(),
{
    if commands.len() == 0 {
        velocity
    } else {
        applied(applied_all(velocity, commands.drop_last()), update_of(commands.last()))
    }
}

/// Applies an update to a camera's velocities.
pub fn apply_update(velocity: &mut CameraVelocity, update: VelocityUpdate)
    ensures
        *final(velocity) == applied(*old(velocity), update),
{
    match update {
        VelocityUpdate::PanTilt { pan, tilt } => {
            velocity.tilt = tilt;
            velocity.pan = pan;
        },
        VelocityUpdate::Zoom(zoom) => velocity.zoom = zoom,
        VelocityUpdate::Unsupported => {},
    }
}

/// Applies each command, in order, to every camera. Returning home and
/// resetting are not carried out: callers must not pass them while there
/// is a camera.
pub fn interpret_visca_commands(commands: &[Command], cameras: &mut Vec<CameraVelocity>)
    requires
        old(cameras)@.len() > 0 ==> forall|i: int|
            0 <= i < commands@.len() ==> !is_position_command(#[trigger] commands@[i]),
    ensures
        final(cameras)@.len() == old(cameras)@.len(),
        forall|j: int|
            0 <= j < old(cameras)@.len() ==> #[trigger] final(cameras)@[j] == applied_all(
                old(cameras)@[j],
                commands@,
            ),
{
    let ghost initial = cameras@;
    let mut k: usize = 0;
    while k < commands.len()
        invariant
            k <= commands@.len(),
            cameras@.len() == initial.len(),
            initial.len() > 0 ==> forall|i: int|
                0 <= i < commands@.len() ==> !is_position_command(#[trigger] commands@[i]),
            forall|j: int|
                0 <= j < initial.len() ==> #[trigger] cameras@[j] == applied_all(
                    initial[j],
                    commands@.take(k as int),
                ),
        decreases commands@.len() - k,
    {
        let command = &commands[k];
        let mut c: usize = 0;
        while c < cameras.len()
            invariant
                k < commands@.len(),
                *command == commands@[k as int],
                c <= cameras@.len(),
                cameras@.len() == initial.len(),
                initial.len() > 0 ==> !is_position_command(commands@[k as int]),
                forall|j: int|
                    0 <= j < c ==> #[trigger] cameras@[j] == applied_all(
                        initial[j],
                        commands@.take(k + 1),
                    ),
                forall|j: int|
                    c <= j < initial.len() ==> #[trigger] cameras@[j] == applied_all(
                        initial[j],
                        commands@.take(k as int),
                    ),
            decreases cameras@.len() - c,
        {
            let update = interpret_command(command);
            let mut velocity = cameras[c];
            apply_update(&mut velocity, update);
            proof {
                assert(commands@.take(k + 1).drop_last() =~= commands@.take(k as int));
                assert(commands@.take(k + 1).last() == commands@[k as int]);
            }
            cameras.set(c, velocity);
            c = c + 1;
        }
        k = k + 1;
    }
    proof {
        assert(commands@.take(commands@.len() as int) =~= commands@);
    }
}

/// Whether a command sets the pan and tilt velocities.
pub open spec fn sets_pan_tilt(command: Command) -> bool {
    update_of(command) is PanTilt
}

/// Whether a command sets the zoom velocity.
pub open spec fn sets_zoom(command: Command) -> bool {
    update_of(command) is Zoom
}

/// After a sequence of commands, the pan and tilt velocities are those set
/// by the last command that sets them.
pub proof fn lemma_last_pan_tilt_command_wins(
    velocity: CameraVelocity,
    commands: Seq<Command>,
    last: int,
)
    requires
        0 <= last < commands.len(),
        sets_pan_tilt(commands[last]),
        forall|j: int| last < j < commands.len() ==> !sets_pan_tilt(#[trigger] commands[j]),
    ensures
        update_of(commands[last]) == (VelocityUpdate::PanTilt {
            pan: applied_all(velocity, commands).pan,
            tilt: applied_all(velocity, commands).tilt,
        }),
    decreases commands.len(),
{
    let n = commands.len() - 1;
    if last < n {
        let rest = commands.drop_last();
        assert(!sets_pan_tilt(commands[n]));
        assert forall|j: int| last < j < rest.len() implies !sets_pan_tilt(#[trigger] rest[j]) by {
            assert(rest[j] == commands[j]);
        }
        lemma_last_pan_tilt_command_wins(velocity, rest, last);
    }
}

/// After a sequence of commands none of which sets the pan and tilt
/// velocities, they are unchanged.
pub proof fn lemma_pan_tilt_kept_when_unset(velocity: CameraVelocity, commands: Seq<Command>)
    requires
        forall|j: int| 0 <= j < commands.len() ==> !sets_pan_tilt(#[trigger] commands[j]),
    ensures
        applied_all(velocity, commands).pan == velocity.pan,
        applied_all(velocity, commands).tilt == velocity.tilt,
    decreases commands.len(),
{
    if commands.len() > 0 {
        let rest = commands.drop_last();
        assert(!sets_pan_tilt(commands[commands.len() - 1]));
        assert forall|j: int| 0 <= j < rest.len() implies !sets_pan_tilt(#[trigger] rest[j]) by {
            assert(rest[j] == commands[j]);
        }
        lemma_pan_tilt_kept_when_unset(velocity, rest);
    }
}

/// After a sequence of commands, the zoom velocity is the one set by the
/// last command that sets it.
pub proof fn lemma_last_zoom_command_wins(velocity: CameraVelocity, commands: Seq<Command>, last: int)
    requires
        0 <= last < commands.len(),
        sets_zoom(commands[last]),
        forall|j: int| last < j < commands.len() ==> !sets_zoom(#[trigger] commands[j]),
    ensures
        update_of(commands[last]) == VelocityUpdate::Zoom(applied_all(velocity, commands).zoom),
    decreases commands.len(),
{
    let n = commands.len() - 1;
    if last < n {
        let rest = commands.drop_last();
        assert(!sets_zoom(commands[n]));
        assert forall|j: int| last < j < rest.len() implies !sets_zoom(#[trigger] rest[j]) by {
            assert(rest[j] == commands[j]);
        }
        lemma_last_zoom_command_wins(velocity, rest, last);
    }
}

/// After a sequence of commands none of which sets the zoom velocity, it is
/// unchanged.
pub proof fn lemma_zoom_kept_when_unset(velocity: CameraVelocity, commands: Seq<Command>)
    requires
        forall|j: int| 0 <= j < commands.len() ==> !sets_zoom(#[trigger] commands[j]),
    ensures
        applied_all(velocity, commands).zoom == velocity.zoom,
    decreases commands.len(),
{
    if commands.len() > 0 {
        let rest = commands.drop_last();
        assert(!sets_zoom(commands[commands.len() - 1]));
        assert forall|j: int| 0 <= j < rest.len() implies !sets_zoom(#[trigger] rest[j]) by {
            assert(rest[j] == commands[j]);
        }
        lemma_zoom_kept_when_unset(velocity, rest);
    }
}

/// A move sets both pan and tilt. Its pan velocity depends only on the
/// horizontal part of its direction: leftward moves pan positively at
/// `2 * pan_speed / 0x18`, rightward moves pan at the opposite velocity, and
/// moves without a horizontal part do not pan. Likewise its tilt velocity
/// depends only on the vertical part: upward tilts positively at
/// `2 * tilt_speed / 0x14`, downward at the opposite, otherwise not at all.
/// This holds for every speed.
pub proof fn lemma_move_velocities(direction: PanTiltDirection, pan_speed: u8, tilt_speed: u8)
    ensures
        ({
            let update = update_of(
                Command::PanTilt(PanTilt::Move { direction, pan_speed, tilt_speed }),
            );
            let leftward = direction == PanTiltDirection::Left || direction
                == PanTiltDirection::UpLeft || direction == PanTiltDirection::DownLeft;
            let rightward = direction == PanTiltDirection::Right || direction
                == PanTiltDirection::UpRight || direction == PanTiltDirection::DownRight;
            let upward = direction == PanTiltDirection::Up || direction == PanTiltDirection::UpLeft
                || direction == PanTiltDirection::UpRight;
            let downward = direction == PanTiltDirection::Down || direction
                == PanTiltDirection::DownLeft || direction == PanTiltDirection::DownRight;
            &&& update matches VelocityUpdate::PanTilt { pan, tilt }
            &&& leftward ==> pan == AxisVelocity::Moving {
                negative: false,
                offset: pan_speed,
                span: 0x18,
            }
            &&& rightward ==> pan == AxisVelocity::Moving {
                negative: true,
                offset: pan_speed,
                span: 0x18,
            }
            &&& !leftward && !rightward ==> pan == AxisVelocity::Zero
            &&& upward ==> tilt == AxisVelocity::Moving {
                negative: false,
                offset: tilt_speed,
                span: 0x14,
            }
            &&& downward ==> tilt == AxisVelocity::Moving {
                negative: true,
                offset: tilt_speed,
                span: 0x14,
            }
            &&& !upward && !downward ==> tilt == AxisVelocity::Zero
        }),
{
}

/// Zoom commands set only the zoom velocity: telephoto is positive and wide
/// negative, at `2 * speed / 7` for a variable speed and at the medium speed
/// `4` for the standard ones; stop sets it to zero. A zoom to a position and
/// every pan/tilt command other than a move change nothing.
pub proof fn lemma_zoom_and_other_velocities(speed: u8, position: u16, command: PanTilt)
    requires
        !(command is Move),
    ensures
        update_of(Command::Zoom(Zoom::TeleVariable(speed))) == VelocityUpdate::Zoom(
            AxisVelocity::Moving { negative: false, offset: speed, span: 7 },
        ),
        update_of(Command::Zoom(Zoom::WideVariable(speed))) == VelocityUpdate::Zoom(
            AxisVelocity::Moving { negative: true, offset: speed, span: 7 },
        ),
        update_of(Command::Zoom(Zoom::TeleStd)) == VelocityUpdate::Zoom(
            AxisVelocity::Moving { negative: false, offset: 4, span: 7 },
        ),
        update_of(Command::Zoom(Zoom::WideStd)) == VelocityUpdate::Zoom(
            AxisVelocity::Moving { negative: true, offset: 4, span: 7 },
        ),
        update_of(Command::Zoom(Zoom::Stop)) == VelocityUpdate::Zoom(AxisVelocity::Zero),
        update_of(Command::Zoom(Zoom::Position(position))) == VelocityUpdate::Unsupported,
        update_of(Command::PanTilt(command)) == VelocityUpdate::Unsupported,
{
}

} // verus!
