use virtual_visca::capture::CaptureConfig;
use virtual_visca::controls::{keyboard_commands, keyboard_direction, keyboard_speed, KeyState};
use virtual_visca::ptz_camera::{interpret_command, scaled_u8, AxisVelocity, VelocityUpdate};
use virtual_visca::visca::{
    packet_payload, Command, PanTilt, PanTiltDirection, SpeedLevel, ViscaDriverConfig, Zoom,
};

#[test]
fn payload_of_datagram() {
    let mut buf = [0u8; 24];
    buf[8] = 0x81;
    buf[9] = 0x01;
    buf[10] = 0x06;
    buf[11] = 0x04;
    buf[12] = 0xFF;
    buf[13] = 0x07;
    assert_eq!(packet_payload(&buf), vec![0x01, 0x06, 0x04]);
}

#[test]
fn payload_of_short_or_empty_datagram() {
    assert_eq!(packet_payload(&[0u8; 8]), Vec::<u8>::new());
    assert_eq!(packet_payload(&[]), Vec::<u8>::new());
    let mut buf = [0u8; 12];
    buf[8] = 0x81;
    buf[9] = 0xFF;
    assert_eq!(packet_payload(&buf), Vec::<u8>::new());
}

#[test]
fn payload_runs_to_end_without_terminator() {
    let buf = [0, 0, 0, 0, 0, 0, 0, 0, 0x81, 0x01, 0x02];
    assert_eq!(packet_payload(&buf), vec![0x01, 0x02]);
}

#[test]
fn driver_config_default() {
    assert_eq!(ViscaDriverConfig::default(), ViscaDriverConfig {});
}

#[test]
fn interpret_move_up_left() {
    let command = Command::PanTilt(PanTilt::Move {
        direction: PanTiltDirection::UpLeft,
        pan_speed: 12,
        tilt_speed: 10,
    });
    assert_eq!(
        interpret_command(&command),
        VelocityUpdate::PanTilt {
            pan: AxisVelocity::Moving { negative: false, offset: 12, span: 0x18 },
            tilt: AxisVelocity::Moving { negative: false, offset: 10, span: 0x14 },
        }
    );
}

#[test]
fn interpret_move_down_right_and_stop() {
    let command = Command::PanTilt(PanTilt::Move {
        direction: PanTiltDirection::DownRight,
        pan_speed: 1,
        tilt_speed: 2,
    });
    assert_eq!(
        interpret_command(&command),
        VelocityUpdate::PanTilt {
            pan: AxisVelocity::Moving { negative: true, offset: 1, span: 0x18 },
            tilt: AxisVelocity::Moving { negative: true, offset: 2, span: 0x14 },
        }
    );
    let stop = Command::PanTilt(PanTilt::Move {
        direction: PanTiltDirection::Stop,
        pan_speed: 5,
        tilt_speed: 5,
    });
    assert_eq!(
        interpret_command(&stop),
        VelocityUpdate::PanTilt { pan: AxisVelocity::Zero, tilt: AxisVelocity::Zero }
    );
}

#[test]
fn interpret_zoom_commands() {
    assert_eq!(
        interpret_command(&Command::Zoom(Zoom::Stop)),
        VelocityUpdate::Zoom(AxisVelocity::Zero)
    );
    assert_eq!(
        interpret_command(&Command::Zoom(Zoom::TeleStd)),
        VelocityUpdate::Zoom(AxisVelocity::Moving { negative: false, offset: 4, span: 7 })
    );
    assert_eq!(
        interpret_command(&Command::Zoom(Zoom::WideStd)),
        VelocityUpdate::Zoom(AxisVelocity::Moving { negative: true, offset: 4, span: 7 })
    );
    assert_eq!(
        interpret_command(&Command::Zoom(Zoom::TeleVariable(3))),
        VelocityUpdate::Zoom(AxisVelocity::Moving { negative: false, offset: 3, span: 7 })
    );
    assert_eq!(
        interpret_command(&Command::Zoom(Zoom::WideVariable(6))),
        VelocityUpdate::Zoom(AxisVelocity::Moving { negative: true, offset: 6, span: 7 })
    );
    assert_eq!(
        interpret_command(&Command::Zoom(Zoom::Position(0x1000))),
        VelocityUpdate::Unsupported
    );
}

#[test]
fn scaled_speed_offsets_from_minimum() {
    assert_eq!(
        scaled_u8(9, 2, 12, true),
        AxisVelocity::Moving { negative: true, offset: 7, span: 10 }
    );
}

#[test]
fn keyboard_directions() {
    assert_eq!(keyboard_direction(true, false, false, false), PanTiltDirection::Up);
    assert_eq!(keyboard_direction(false, true, false, true), PanTiltDirection::DownRight);
    assert_eq!(keyboard_direction(false, false, true, false), PanTiltDirection::Left);
    assert_eq!(keyboard_direction(true, true, false, false), PanTiltDirection::Stop);
    assert_eq!(keyboard_direction(true, false, true, true), PanTiltDirection::Stop);
    assert_eq!(keyboard_direction(false, false, false, false), PanTiltDirection::Stop);
}

#[test]
fn keyboard_speeds() {
    assert_eq!(keyboard_speed(true, true), SpeedLevel::Fast);
    assert_eq!(keyboard_speed(false, true), SpeedLevel::Slow);
    assert_eq!(keyboard_speed(false, false), SpeedLevel::Medium);
}

#[test]
fn keyboard_fast_up_right_zoom_out() {
    let keys = KeyState { up: true, right: true, fast: true, zoom_out: true, zoom_in: true, ..KeyState::default() };
    let (movement, zoom) = keyboard_commands(keys);
    assert_eq!(
        movement,
        Command::PanTilt(PanTilt::Move {
            direction: PanTiltDirection::UpRight,
            pan_speed: 18,
            tilt_speed: 15,
        })
    );
    assert_eq!(zoom, Command::Zoom(Zoom::WideVariable(6)));
}

#[test]
fn keyboard_slow_and_medium_speeds() {
    let slow = KeyState { down: true, slow: true, zoom_in: true, ..KeyState::default() };
    let (movement, zoom) = keyboard_commands(slow);
    assert_eq!(
        movement,
        Command::PanTilt(PanTilt::Move { direction: PanTiltDirection::Down, pan_speed: 6, tilt_speed: 5 })
    );
    assert_eq!(zoom, Command::Zoom(Zoom::TeleVariable(2)));
    let idle = KeyState::default();
    let (movement, zoom) = keyboard_commands(idle);
    assert_eq!(
        movement,
        Command::PanTilt(PanTilt::Move { direction: PanTiltDirection::Stop, pan_speed: 12, tilt_speed: 10 })
    );
    assert_eq!(zoom, Command::Zoom(Zoom::Stop));
}

#[test]
fn keys_steer_camera_scenario() {
    let keys = KeyState { left: true, up: true, down: true, ..KeyState::default() };
    let (movement, _) = keyboard_commands(keys);
    assert_eq!(
        interpret_command(&movement),
        VelocityUpdate::PanTilt { pan: AxisVelocity::Zero, tilt: AxisVelocity::Zero }
    );
    let keys = KeyState { left: true, ..KeyState::default() };
    let (movement, zoom) = keyboard_commands(keys);
    assert_eq!(
        interpret_command(&movement),
        VelocityUpdate::PanTilt {
            pan: AxisVelocity::Moving { negative: false, offset: 12, span: 0x18 },
            tilt: AxisVelocity::Zero,
        }
    );
    assert_eq!(interpret_command(&zoom), VelocityUpdate::Zoom(AxisVelocity::Zero));
}

#[test]
fn capture_presets() {
    let config = CaptureConfig::res_1080p30();
    assert_eq!(config, CaptureConfig { width: 1080, height: 720, fps: 30 });
    assert_eq!(CaptureConfig::default(), config);
}

use virtual_visca::decode::DecodeError;
use virtual_visca::ptz_camera::{apply_update, interpret_visca_commands, CameraVelocity};
use virtual_visca::visca::{datagram_command, terminator_index, PanTiltLimitCorner};

fn datagram(message: &[u8]) -> [u8; 24] {
    let mut buf = [0u8; 24];
    buf[8..8 + message.len()].copy_from_slice(message);
    buf
}

#[test]
fn datagram_carries_home_command() {
    let buf = datagram(&[0x81, 0x01, 0x06, 0x04, 0xFF]);
    assert_eq!(datagram_command(&buf), Some(Ok(Command::PanTilt(PanTilt::Home))));
}

#[test]
fn datagram_without_payload_carries_nothing() {
    assert_eq!(datagram_command(&datagram(&[0x81, 0xFF])), None);
    assert_eq!(datagram_command(&[0u8; 9]), None);
}

#[test]
fn datagram_with_bad_message_reports_error() {
    let buf = datagram(&[0x81, 0x02, 0x06, 0x04, 0xFF]);
    assert!(matches!(datagram_command(&buf), Some(Err(DecodeError::UnrecognizedCategory(_)))));
    let unterminated = [0, 0, 0, 0, 0, 0, 0, 0, 0x81, 0x01, 0x06];
    assert_eq!(datagram_command(&unterminated), Some(Err(DecodeError::NoTerminator)));
}

#[test]
fn terminator_positions() {
    assert_eq!(terminator_index(&[1, 2, 0xFF, 4], 0), 2);
    assert_eq!(terminator_index(&[1, 2, 0xFF, 4], 3), 4);
}

#[test]
fn other_pan_tilt_commands_are_unsupported() {
    let limit = Command::PanTilt(PanTilt::LimitClear { corner: PanTiltLimitCorner::UpRight });
    assert_eq!(interpret_command(&limit), VelocityUpdate::Unsupported);
    let absolute = Command::PanTilt(PanTilt::AbsolutePosition { pan: 10, tilt: -5, pan_speed: 3, tilt_speed: 3 });
    assert_eq!(interpret_command(&absolute), VelocityUpdate::Unsupported);
}

fn still() -> CameraVelocity {
    CameraVelocity { pan: AxisVelocity::Zero, tilt: AxisVelocity::Zero, zoom: AxisVelocity::Zero }
}

#[test]
fn apply_zoom_update_keeps_pan_and_tilt() {
    let mut velocity = CameraVelocity {
        pan: AxisVelocity::Moving { negative: false, offset: 1, span: 24 },
        tilt: AxisVelocity::Zero,
        zoom: AxisVelocity::Zero,
    };
    apply_update(&mut velocity, VelocityUpdate::Zoom(AxisVelocity::Moving { negative: true, offset: 2, span: 7 }));
    assert_eq!(velocity.pan, AxisVelocity::Moving { negative: false, offset: 1, span: 24 });
    assert_eq!(velocity.zoom, AxisVelocity::Moving { negative: true, offset: 2, span: 7 });
}

#[test]
fn last_command_setting_an_axis_wins() {
    let commands = [
        Command::PanTilt(PanTilt::Move { direction: PanTiltDirection::Up, pan_speed: 4, tilt_speed: 4 }),
        Command::Zoom(Zoom::TeleVariable(5)),
        Command::PanTilt(PanTilt::Move { direction: PanTiltDirection::Left, pan_speed: 6, tilt_speed: 2 }),
        Command::Zoom(Zoom::Position(100)),
    ];
    let mut cameras = vec![still(), still()];
    interpret_visca_commands(&commands, &mut cameras);
    for camera in &cameras {
        assert_eq!(camera.pan, AxisVelocity::Moving { negative: false, offset: 6, span: 0x18 });
        assert_eq!(camera.tilt, AxisVelocity::Zero);
        assert_eq!(camera.zoom, AxisVelocity::Moving { negative: false, offset: 5, span: 7 });
    }
}

#[test]
fn no_cameras_accept_any_command() {
    let commands = [Command::PanTilt(PanTilt::Home)];
    let mut cameras: Vec<CameraVelocity> = vec![];
    interpret_visca_commands(&commands, &mut cameras);
    assert!(cameras.is_empty());
}
