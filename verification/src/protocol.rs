//! What the camera protocol crate decides: the accepted speed ranges, the
//! speeds behind each coarse level, and the bytes of the fixed pan/tilt
//! commands.

use vstd::prelude::*;
use grafton_visca::command::{PanTilt as ProtocolPanTilt, ViscaCommand};
use grafton_visca::types::{PanSpeed, SpeedLevel as ProtocolSpeedLevel, TiltSpeed, ZoomSpeed};
use grafton_visca::CameraId;
use crate::visca::{SpeedLevel, PAN_SPEED_MAX, TILT_SPEED_MAX, ZOOM_SPEED_MAX};

verus! {

/// The bytes of the home (`reset == false`) or reset (`reset == true`)
/// pan/tilt command addressed to camera 1.
pub open spec fn preset_command_bytes(reset: bool) -> Seq<u8> {
    if reset {
        seq![0x81u8, 0x01u8, 0x06u8, 0x05u8, 0xFFu8]
    } else {
        seq![0x81u8, 0x01u8, 0x06u8, 0x04u8, 0xFFu8]
    }
}

/// Pan speed of a coarse speed level.
pub open spec fn pan_speed_of(level: SpeedLevel) -> u8 {
    match level {
        SpeedLevel::Slowest => 1,
        SpeedLevel::Slow => 6,
        SpeedLevel::Medium => 12,
        SpeedLevel::Fast => 18,
        SpeedLevel::Fastest => 24,
    }
}

/// Tilt speed of a coarse speed level.
pub open spec fn tilt_speed_of(level: SpeedLevel) -> u8 {
    match level {
        SpeedLevel::Slowest => 1,
        SpeedLevel::Slow => 5,
        SpeedLevel::Medium => 10,
        SpeedLevel::Fast => 15,
        SpeedLevel::Fastest => 20,
    }
}

/// Zoom speed of a coarse speed level.
pub open spec fn zoom_speed_of(level: SpeedLevel) -> u8 {
    match level {
        SpeedLevel::Slowest => 0,
        SpeedLevel::Slow => 2,
        SpeedLevel::Medium => 4,
        SpeedLevel::Fast => 6,
        SpeedLevel::Fastest => 7,
    }
}

/// `PanSpeed::new` of grafton_visca: it accepts exactly the values
/// `PanSpeed::MIN..=PanSpeed::MAX`, that is `0x00..=0x18`.
#[verifier::external_body]
pub(crate) fn pan_speed_accepted(value: u8) -> (accepted: bool)
    ensures
        accepted == (value <= PAN_SPEED_MAX),
{
    PanSpeed::new(value).is_ok()
}

/// `TiltSpeed::new` of grafton_visca: it accepts exactly the values
/// `TiltSpeed::MIN..=TiltSpeed::MAX`, that is `0x00..=0x14`.
#[verifier::external_body]
pub(crate) fn tilt_speed_accepted(value: u8) -> (accepted: bool)
    ensures
        accepted == (value <= TILT_SPEED_MAX),
{
    TiltSpeed::new(value).is_ok()
}

/// `PanSpeed::MIN` and `PanSpeed::MAX` of grafton_visca, as raw values.
#[verifier::external_body]
pub(crate) fn pan_speed_bounds() -> (bounds: (u8, u8))
    ensures
        bounds == (0u8, PAN_SPEED_MAX),
{
    (PanSpeed::MIN.value(), PanSpeed::MAX.value())
}

/// `TiltSpeed::MIN` and `TiltSpeed::MAX` of grafton_visca, as raw values.
#[verifier::external_body]
pub(crate) fn tilt_speed_bounds() -> (bounds: (u8, u8))
    ensures
        bounds == (0u8, TILT_SPEED_MAX),
{
    (TiltSpeed::MIN.value(), TiltSpeed::MAX.value())
}

/// `ZoomSpeed::MIN` and `ZoomSpeed::MAX` of grafton_visca, as raw values.
#[verifier::external_body]
pub(crate) fn zoom_speed_bounds() -> (bounds: (u8, u8))
    ensures
        bounds == (0u8, ZOOM_SPEED_MAX),
{
    (ZoomSpeed::MIN.value(), ZoomSpeed::MAX.value())
}

/// `PanSpeed::from(SpeedLevel)` of grafton_visca, as a raw value: the pan
/// column of the crate's speed table.
#[verifier::external_body]
pub(crate) fn pan_speed_for(level: SpeedLevel) -> (speed: u8)
    ensures
        speed == pan_speed_of(level),
{
    let level = match level {
        SpeedLevel::Slowest => ProtocolSpeedLevel::Slowest,
        SpeedLevel::Slow => ProtocolSpeedLevel::Slow,
        SpeedLevel::Medium => ProtocolSpeedLevel::Medium,
        SpeedLevel::Fast => ProtocolSpeedLevel::Fast,
        SpeedLevel::Fastest => ProtocolSpeedLevel::Fastest,
    };
    PanSpeed::from(level).value()
}

/// `TiltSpeed::from(SpeedLevel)` of grafton_visca, as a raw value: the tilt
/// column of the crate's speed table.
#[verifier::external_body]
pub(crate) fn tilt_speed_for(level: SpeedLevel) -> (speed: u8)
    ensures
        speed == tilt_speed_of(level),
{
    let level = match level {
        SpeedLevel::Slowest => ProtocolSpeedLevel::Slowest,
        SpeedLevel::Slow => ProtocolSpeedLevel::Slow,
        SpeedLevel::Medium => ProtocolSpeedLevel::Medium,
        SpeedLevel::Fast => ProtocolSpeedLevel::Fast,
        SpeedLevel::Fastest => ProtocolSpeedLevel::Fastest,
    };
    TiltSpeed::from(level).value()
}

/// `ZoomSpeed::from(SpeedLevel)` of grafton_visca, as a raw value: the zoom
/// column of the crate's speed table.
#[verifier::external_body]
pub(crate) fn zoom_speed_for(level: SpeedLevel) -> (speed: u8)
    ensures
        speed == zoom_speed_of(level),
{
    let level = match level {
        SpeedLevel::Slowest => ProtocolSpeedLevel::Slowest,
        SpeedLevel::Slow => ProtocolSpeedLevel::Slow,
        SpeedLevel::Medium => ProtocolSpeedLevel::Medium,
        SpeedLevel::Fast => ProtocolSpeedLevel::Fast,
        SpeedLevel::Fastest => ProtocolSpeedLevel::Fastest,
    };
    ZoomSpeed::from(level).value()
}

/// `ViscaCommand::write_into` of grafton_visca on `PanTilt::Home`
/// (`reset == false`) or `PanTilt::Reset` (`reset == true`) for camera 1,
/// into a buffer large enough for it: the crate writes the five bytes of
/// [`preset_command_bytes`] and reports their number.
#[verifier::external_body]
pub(crate) fn preset_command(reset: bool) -> (bytes: Vec<u8>)
    ensures
        bytes@ == preset_command_bytes(reset),
{
    let command = if reset { ProtocolPanTilt::Reset } else { ProtocolPanTilt::Home };
    let mut buffer = [0u8; 16];
    match command.write_into(CameraId::CAMERA_1, &mut buffer) {
        Ok(len) => buffer[..len].to_vec(),
        Err(_) => Vec::new(),
    }
}

} // verus!
