//! Decoding and interpretation of VISCA pan/tilt/zoom camera commands.

pub mod visca;
pub mod protocol;
pub mod decode;
pub mod ptz_camera;
pub mod controls;
pub mod capture;

use vstd::prelude::*;
use vstd::pervasive::unreached;
use vstd::slice::slice_to_vec;
use crate::visca::PanTilt;

verus! {

/// Why a packet was not decoded by [`decode`](crate::decode()).
#[derive(Clone, Debug, PartialEq, Eq)]
pub enum DecodeError {
    /// The category byte is unknown; it stands first, the rest is zero.
    Unrecognized([u8; 4]),
    Unimplemented(String),
    /// The packet is too short; it holds the whole packet.
    BadlyFormed(Vec<u8>),
}

/// Checks a packet's address and category bytes. No category is decoded:
/// packets shorter than two bytes are badly formed, unknown categories are
/// reported; the command (`0x01`) and inquiry (`0x09`) categories are not
/// handled, and callers must not pass them.
pub fn decode(buf: &[u8]) -> (res: Result<(), DecodeError>)
    requires
        buf@.len() < 2 || (buf@[1] != 0x01 && buf@[1] != 0x09),
    ensures
        match res {
            Ok(_) => false,
            Err(DecodeError::BadlyFormed(bytes)) => buf@.len() < 2 && bytes@ == buf@,
            Err(DecodeError::Unrecognized(code)) => buf@.len() >= 2 && code@ == seq![
                buf@[1],
                0u8,
                0u8,
                0u8,
            ],
            Err(DecodeError::Unimplemented(_)) => false,
        },
{
    if buf.len() < 1 {
        return Err(DecodeError::BadlyFormed(slice_to_vec(buf)));
    }
    let _id = buf[0];
    if buf.len() < 2 {
        return Err(DecodeError::BadlyFormed(slice_to_vec(buf)));
    }
    let category = buf[1];
    let code: [u8; 4] = [category, 0x00, 0x00, 0x00];
    assert(code@ =~= seq![category, 0u8, 0u8, 0u8]);
    Err(DecodeError::Unrecognized(code))
}

/// Types that can be read back from the bytes of a VISCA packet.
pub trait DecodeVisca: Sized {
    /// The packets on which [`DecodeVisca::try_decode`] returns.
    spec fn accepts(buf: Seq<u8>) -> bool;

    /// The value a packet decodes to, if any.
    spec fn decoded(buf: Seq<u8>) -> Option<Self>;

    fn try_decode(buf: &[u8]) -> (res: Result<Self, DecodeError>)
        requires
            Self::accepts(buf@),
        ensures
            match res {
                Ok(value) => Self::decoded(buf@) == Some(value),
                Err(_) => Self::decoded(buf@) is None,
            },
    ;

    /// Decodes a packet that is known to decode.
    fn decode_from(buf: &[u8]) -> (res: Self)
        requires
            Self::accepts(buf@),
            Self::decoded(buf@) is Some,
        ensures
            Self::decoded(buf@) == Some(res),
    {
        Self::try_decode(buf).unwrap()
    }
}

impl DecodeVisca for PanTilt {
    /// The home command is tried first, then the reset command; nothing else
    /// is decoded, and a packet shorter than the commands is not read.
    open spec fn accepts(buf: Seq<u8>) -> bool {
        crate::decode::is_preset_packet(buf)
    }

    open spec fn decoded(buf: Seq<u8>) -> Option<PanTilt> {
        <PanTilt as crate::decode::DecodeVisca>::decoded(buf)
    }

    fn try_decode(buf: &[u8]) -> (res: Result<PanTilt, DecodeError>) {
        match <PanTilt as crate::decode::DecodeVisca>::try_decode(buf) {
            Ok(value) => Ok(value),
            Err(_) => unreached(),
        }
    }
}

} // verus!
