//! Decoding of VISCA command packets into [`Command`]s.
//!
//! A packet is an address byte, a category byte, a command byte, a
//! subcommand byte, the subcommand's parameters and the terminator `0xFF`.

use vstd::prelude::*;
use vstd::pervasive::unreached;
use vstd::slice::{slice_subrange, slice_to_vec};
use itertools::Itertools;
use crate::protocol::{
    pan_speed_accepted, preset_command, preset_command_bytes, tilt_speed_accepted,
};
use crate::visca::{Command, PanTilt, PanTiltDirection};

verus! {

/// The category byte of a packet.
#[derive(Clone, Copy, Debug, PartialEq, Eq, Structural)]
pub enum CategoryCode {
    Command,
    Inquiry,
}

/// A category byte that is neither a command (`0x01`) nor an inquiry (`0x09`).
#[derive(Clone, Copy, Debug, PartialEq, Eq, Structural)]
pub struct UnrecognizedCategoryError(pub u8);

/// The category of a category byte: `0x01` is a command, `0x09` an inquiry.
pub open spec fn category_of(value: u8) -> Result<CategoryCode, UnrecognizedCategoryError> {
    if value == 0x01 {
        Ok(CategoryCode::Command)
    } else if value == 0x09 {
        Ok(CategoryCode::Inquiry)
    } else {
        Err(UnrecognizedCategoryError(value))
    }
}

impl<'a> TryFrom<&'a u8> for CategoryCode {
    type Error = UnrecognizedCategoryError;

    fn try_from(value: &'a u8) -> (res: Result<Self, Self::Error>) {
        match *value {
            0x01 => Ok(CategoryCode::Command),
            0x09 => Ok(CategoryCode::Inquiry),
            other => Err(UnrecognizedCategoryError(other)),
        }
    }
}

impl<'a> vstd::std_specs::convert::TryFromSpecImpl<&'a u8> for CategoryCode {
    open spec fn obeys_try_from_spec() -> bool {
        true
    }

    open spec fn try_from_spec(value: &'a u8) -> Result<Self, Self::Error> {
        category_of(*value)
    }
}

/// The command byte of a packet in the command category.
#[derive(Clone, Copy, Debug, PartialEq, Eq, Structural)]
pub enum CommandCode {
    PanTilt,
    Zoom,
}

/// A command byte that names no known command.
#[derive(Clone, Copy, Debug, PartialEq, Eq, Structural)]
pub struct UnrecognizedCommandCode(pub u8);

/// The command of a command byte: `0x06` is pan/tilt; no other byte is
/// recognised.
pub open spec fn command_of(value: u8) -> Result<CommandCode, UnrecognizedCommandCode> {
    if value == 0x06 {
        Ok(CommandCode::PanTilt)
    } else {
        Err(UnrecognizedCommandCode(value))
    }
}

impl<'a> TryFrom<&'a u8> for CommandCode {
    type Error = UnrecognizedCommandCode;

    fn try_from(value: &'a u8) -> (res: Result<Self, Self::Error>) {
        match *value {
            0x06 => Ok(CommandCode::PanTilt),
            other => Err(UnrecognizedCommandCode(other)),
        }
    }
}

impl<'a> vstd::std_specs::convert::TryFromSpecImpl<&'a u8> for CommandCode {
    open spec fn obeys_try_from_spec() -> bool {
        true
    }

    open spec fn try_from_spec(value: &'a u8) -> Result<Self, Self::Error> {
        command_of(*value)
    }
}

/// Why a packet could not be decoded.
#[derive(Clone, Debug, PartialEq, Eq)]
pub enum DecodeError {
    UnrecognizedCategory(UnrecognizedCategoryError),
    UnrecognizedCommand(UnrecognizedCommandCode),
    /// The packet is too short for its subcommand; it holds the whole packet.
    BadlyFormed(Vec<u8>),
    /// A violation of the packet format, with its message.
    Raw(String),
    /// A part of the protocol that is not decoded, with its name.
    Unimplemented(String),
    /// The packet ends before its category, command or subcommand byte.
    Incomplete,
    /// The packet's last byte is not the terminator `0xFF`.
    NoTerminator,
}

/// A [`DecodeError`] with its byte and character data as sequences.
pub enum DecodeFailure {
    UnrecognizedCategory(u8),
    UnrecognizedCommand(u8),
    BadlyFormed(Seq<u8>),
    Raw(Seq<char>),
    Unimplemented(Seq<char>),
    Incomplete,
    NoTerminator,
}

impl View for DecodeError {
    type V = DecodeFailure;

    open spec fn view(&self) -> DecodeFailure {
        match self {
            DecodeError::UnrecognizedCategory(e) => DecodeFailure::UnrecognizedCategory(e.0),
            DecodeError::UnrecognizedCommand(e) => DecodeFailure::UnrecognizedCommand(e.0),
            DecodeError::BadlyFormed(bytes) => DecodeFailure::BadlyFormed(bytes@),
            DecodeError::Raw(message) => DecodeFailure::Raw(message@),
            DecodeError::Unimplemented(what) => DecodeFailure::Unimplemented(what@),
            DecodeError::Incomplete => DecodeFailure::Incomplete,
            DecodeError::NoTerminator => DecodeFailure::NoTerminator,
        }
    }
}

/// The direction named by a pan direction code and a tilt direction code:
/// pan `0x01` is left, `0x02` right, `0x03` none; tilt `0x01` is up, `0x02`
/// down, `0x03` none.
pub open spec fn direction_of(pan: u8, tilt: u8) -> Option<PanTiltDirection> {
    if pan == 0x03 && tilt == 0x01 {
        Some(PanTiltDirection::Up)
    } else if pan == 0x03 && tilt == 0x02 {
        Some(PanTiltDirection::Down)
    } else if pan == 0x01 && tilt == 0x03 {
        Some(PanTiltDirection::Left)
    } else if pan == 0x02 && tilt == 0x03 {
        Some(PanTiltDirection::Right)
    } else if pan == 0x01 && tilt == 0x01 {
        Some(PanTiltDirection::UpLeft)
    } else if pan == 0x02 && tilt == 0x01 {
        Some(PanTiltDirection::UpRight)
    } else if pan == 0x01 && tilt == 0x02 {
        Some(PanTiltDirection::DownLeft)
    } else if pan == 0x02 && tilt == 0x02 {
        Some(PanTiltDirection::DownRight)
    } else if pan == 0x03 && tilt == 0x03 {
        Some(PanTiltDirection::Stop)
    } else {
        None
    }
}

/// The pan and tilt direction codes of a direction.
pub open spec fn direction_codes(direction: PanTiltDirection) -> (u8, u8) {
    match direction {
        PanTiltDirection::Up => (0x03, 0x01),
        PanTiltDirection::Down => (0x03, 0x02),
        PanTiltDirection::Left => (0x01, 0x03),
        PanTiltDirection::Right => (0x02, 0x03),
        PanTiltDirection::UpLeft => (0x01, 0x01),
        PanTiltDirection::UpRight => (0x02, 0x01),
        PanTiltDirection::DownLeft => (0x01, 0x02),
        PanTiltDirection::DownRight => (0x02, 0x02),
        PanTiltDirection::Stop => (0x03, 0x03),
    }
}

/// Message of the error for an empty packet.
pub open spec fn no_address_message() -> Seq<char> {
    "expected an address byte at least."@
}

/// Message of the error for unknown direction codes.
pub open spec fn invalid_direction_message() -> Seq<char> {
    "invalid pan tilt direction codes"@
}

/// Message of the error for an unknown pan/tilt subcommand.
pub open spec fn unexpected_subcommand_message() -> Seq<char> {
    "unexpected pantilt subcommand"@
}

/// Reads the pan/tilt direction from its pan and tilt direction codes.
pub fn ptd_from_u8s(pan_d: u8, tilt_d: u8) -> (res: Result<PanTiltDirection, DecodeError>)
    ensures
        match res {
            Ok(direction) => direction_of(pan_d, tilt_d) == Some(direction),
            Err(e) => direction_of(pan_d, tilt_d) is None
                && e@ == DecodeFailure::Raw(invalid_direction_message()),
        },
{
    match (pan_d, tilt_d) {
        (0x03, 0x01) => Ok(PanTiltDirection::Up),
        (0x03, 0x02) => Ok(PanTiltDirection::Down),
        (0x01, 0x03) => Ok(PanTiltDirection::Left),
        (0x02, 0x03) => Ok(PanTiltDirection::Right),
        (0x01, 0x01) => Ok(PanTiltDirection::UpLeft),
        (0x02, 0x01) => Ok(PanTiltDirection::UpRight),
        (0x01, 0x02) => Ok(PanTiltDirection::DownLeft),
        (0x02, 0x02) => Ok(PanTiltDirection::DownRight),
        (0x03, 0x03) => Ok(PanTiltDirection::Stop),
        _ => Err(DecodeError::Raw("invalid pan tilt direction codes".to_owned())),
    }
}

impl From<UnrecognizedCategoryError> for DecodeError {
    fn from(e: UnrecognizedCategoryError) -> (res: DecodeError) {
        DecodeError::UnrecognizedCategory(e)
    }
}

impl vstd::std_specs::convert::FromSpecImpl<UnrecognizedCategoryError> for DecodeError {
    open spec fn obeys_from_spec() -> bool {
        true
    }

    open spec fn from_spec(e: UnrecognizedCategoryError) -> DecodeError {
        DecodeError::UnrecognizedCategory(e)
    }
}

impl From<UnrecognizedCommandCode> for DecodeError {
    fn from(e: UnrecognizedCommandCode) -> (res: DecodeError) {
        DecodeError::UnrecognizedCommand(e)
    }
}

impl vstd::std_specs::convert::FromSpecImpl<UnrecognizedCommandCode> for DecodeError {
    open spec fn obeys_from_spec() -> bool {
        true
    }

    open spec fn from_spec(e: UnrecognizedCommandCode) -> DecodeError {
        DecodeError::UnrecognizedCommand(e)
    }
}

/// `Itertools::collect_tuple` of itertools on the bytes of `items`, into a
/// four-tuple: the tuple of the items when there are exactly four of them,
/// and `None` otherwise.
#[verifier::external_body]
fn collect_four(items: &[u8]) -> (res: Option<(u8, u8, u8, u8)>)
    ensures
        res == (if items@.len() == 4 {
            Some((items@[0], items@[1], items@[2], items@[3]))
        } else {
            None
        }),
{
    items.iter().copied().collect_tuple()
}

/// What decoding a packet gives: the command, or the failure.
///
/// The checks come in this order: an address byte, a last byte after it,
/// the terminator, then the category, command and subcommand bytes between
/// them. A move subcommand reads its parameters as a four-tuple out of at
/// most three bytes, so it is always reported as badly formed.
pub open spec fn decoded_packet(buf: Seq<u8>) -> Result<Command, DecodeFailure> {
    if buf.len() == 0 {
        Err(DecodeFailure::Raw(no_address_message()))
    } else if buf.len() == 1 {
        Err(DecodeFailure::Incomplete)
    } else if buf.last() != 0xFF {
        Err(DecodeFailure::NoTerminator)
    } else if buf.len() == 2 {
        Err(DecodeFailure::Incomplete)
    } else if buf[1] == 0x09 {
        Err(DecodeFailure::Unimplemented("Inquiry"@))
    } else if buf[1] != 0x01 {
        Err(DecodeFailure::UnrecognizedCategory(buf[1]))
    } else if buf.len() == 3 {
        Err(DecodeFailure::Incomplete)
    } else if buf[2] != 0x06 {
        Err(DecodeFailure::UnrecognizedCommand(buf[2]))
    } else if buf.len() == 4 {
        Err(DecodeFailure::Incomplete)
    } else if buf[3] == 0x04 {
        Ok(Command::PanTilt(PanTilt::Home))
    } else if buf[3] == 0x05 {
        Ok(Command::PanTilt(PanTilt::Reset))
    } else if buf[3] == 0x01 {
        Err(DecodeFailure::BadlyFormed(buf))
    } else {
        Err(DecodeFailure::Raw(unexpected_subcommand_message()))
    }
}

/// Decodes one packet: address byte, category, command, subcommand,
/// parameters and terminator.
pub fn decode(buf: &[u8]) -> (res: Result<Command, DecodeError>)
    ensures
        match res {
            Ok(command) => decoded_packet(buf@) == Ok::<Command, DecodeFailure>(command),
            Err(e) => decoded_packet(buf@) == Err::<Command, DecodeFailure>(e@),
        },
        res matches Ok(command) ==> command.well_formed(),
{
    let len = buf.len();
    if len == 0 {
        return Err(DecodeError::Raw("expected an address byte at least.".to_owned()));
    }
    let _id = buf[0];
    if len == 1 {
        return Err(DecodeError::Incomplete);
    }
    let last = buf[len - 1];
    if last != 0xFF {
        return Err(DecodeError::NoTerminator);
    }
    // The bytes still to read are those at 1..len - 1.
    if len < 3 {
        return Err(DecodeError::Incomplete);
    }
    let category = match CategoryCode::try_from(&buf[1]) {
        Ok(category) => category,
        Err(e) => return Err(DecodeError::from(e)),
    };
    match category {
        CategoryCode::Inquiry => Err(DecodeError::Unimplemented("Inquiry".to_owned())),
        CategoryCode::Command => {
            if len < 4 {
                return Err(DecodeError::Incomplete);
            }
            let command = match CommandCode::try_from(&buf[2]) {
                Ok(command) => command,
                Err(e) => return Err(DecodeError::from(e)),
            };
            match command {
                CommandCode::Zoom => Err(DecodeError::Unimplemented("Zoom".to_owned())),
                CommandCode::PanTilt => {
                    if len < 5 {
                        return Err(DecodeError::Incomplete);
                    }
                    let subcommand = buf[3];
                    if subcommand == 0x04 {
                        Ok(Command::PanTilt(PanTilt::Home))
                    } else if subcommand == 0x05 {
                        Ok(Command::PanTilt(PanTilt::Reset))
                    } else if subcommand == 0x01 {
                        // At most three of the remaining bytes are taken.
                        let end: usize = if len - 1 < 7 { len - 1 } else { 7 };
                        let params = slice_subrange(buf, 4, end);
                        match collect_four(params) {
                            None => Err(DecodeError::BadlyFormed(slice_to_vec(buf))),
                            Some((pan_s, tilt_s, pan_d, tilt_d)) => {
                                let direction = match ptd_from_u8s(pan_d, tilt_d) {
                                    Ok(direction) => direction,
                                    Err(e) => return Err(e),
                                };
                                if !pan_speed_accepted(pan_s) || !tilt_speed_accepted(tilt_s) {
                                    // Not reachable: no four-tuple comes out of three bytes.
                                    return unreached();
                                }
                                Ok(
                                    Command::PanTilt(
                                        PanTilt::Move {
                                            direction,
                                            pan_speed: pan_s,
                                            tilt_speed: tilt_s,
                                        },
                                    ),
                                )
                            },
                        }
                    } else {
                        Err(DecodeError::Raw("unexpected pantilt subcommand".to_owned()))
                    }
                },
            }
        },
    }
}

/// Whether `buf` holds the bytes of `prefix` past the address byte, at the
/// same positions.
pub open spec fn matches_prefix(buf: Seq<u8>, prefix: Seq<u8>) -> bool {
    buf.subrange(1, prefix.len() as int) == prefix.subrange(1, prefix.len() as int)
}

/// Compares `buf` with `prefix` past the address byte; on a match, returns
/// the bytes of `buf` that follow the prefix.
pub(crate) fn match_prefix<'a>(buf: &'a [u8], prefix: &'a [u8]) -> (res: Option<&'a [u8]>)
    requires
        1 <= prefix@.len() <= buf@.len(),
    ensures
        res is Some <==> matches_prefix(buf@, prefix@),
        res matches Some(rest) ==> rest@ == buf@.subrange(prefix@.len() as int, buf@.len() as int),
{
    let n = prefix.len();
    let mut i: usize = 1;
    while i < n
        invariant
            1 <= i <= n,
            n == prefix@.len(),
            n <= buf@.len(),
            forall|j: int| 1 <= j < i ==> buf@[j] == prefix@[j],
        decreases n - i,
    {
        if buf[i] != prefix[i] {
            assert(buf@.subrange(1, n as int)[i - 1] != prefix@.subrange(1, n as int)[i - 1]);
            return None;
        }
        i = i + 1;
    }
    assert(buf@.subrange(1, n as int) =~= prefix@.subrange(1, n as int));
    Some(slice_subrange(buf, n, buf.len()))
}

/// Types that can be read back from the bytes of a VISCA packet.
pub trait DecodeVisca: Sized {
    /// The packets on which [`DecodeVisca::try_decode`] returns.
    spec fn accepts(buf: Seq<u8>) -> bool;

    /// The value a packet decodes to, if any.
    spec fn decoded(buf: Seq<u8>) -> Option<Self>;

    fn try_decode(buf: &[u8]) -> (res: Result<Self, DecodeError>)
        requires
            Self::accepts(buf@),
        ensures
            match res {
                Ok(value) => Self::decoded(buf@) == Some(value),
                Err(_) => Self::decoded(buf@) is None,
            },
    ;

    /// Decodes a packet that is known to decode.
    fn decode_from(buf: &[u8]) -> (res: Self)
        requires
            Self::accepts(buf@),
            Self::decoded(buf@) is Some,
        ensures
            Self::decoded(buf@) == Some(res),
    {
        Self::try_decode(buf).unwrap()
    }
}

/// Whether `buf` is at least as long as the home and reset commands and
/// equals one of them past the address byte.
pub open spec fn is_preset_packet(buf: Seq<u8>) -> bool {
    &&& buf.len() >= 5
    &&& (matches_prefix(buf, preset_command_bytes(false)) || matches_prefix(
        buf,
        preset_command_bytes(true),
    ))
}

impl DecodeVisca for PanTilt {
    /// The home command is tried first, then the reset command; nothing else
    /// is decoded, and a packet shorter than the commands is not read.
    open spec fn accepts(buf: Seq<u8>) -> bool {
        is_preset_packet(buf)
    }

    open spec fn decoded(buf: Seq<u8>) -> Option<PanTilt> {
        if buf.len() < 5 {
            None
        } else if matches_prefix(buf, preset_command_bytes(false)) {
            Some(PanTilt::Home)
        } else if matches_prefix(buf, preset_command_bytes(true)) {
            Some(PanTilt::Reset)
        } else {
            None
        }
    }

    fn try_decode(buf: &[u8]) -> (res: Result<PanTilt, DecodeError>) {
        let home = preset_command(false);
        if match_prefix(buf, home.as_slice()).is_some() {
            return Ok(PanTilt::Home);
        }
        let reset = preset_command(true);
        if match_prefix(buf, reset.as_slice()).is_some() {
            return Ok(PanTilt::Reset);
        }
        unreached()
    }
}

/// The packet of a home, reset or move command addressed with `address`:
/// category `0x01`, command `0x06`, the subcommand with its parameters, then
/// the terminator. Other commands are not framed here (empty).
pub open spec fn pan_tilt_packet(address: u8, command: PanTilt) -> Seq<u8> {
    match command {
        PanTilt::Home => seq![address, 0x01u8, 0x06u8, 0x04u8, 0xFFu8],
        PanTilt::Reset => seq![address, 0x01u8, 0x06u8, 0x05u8, 0xFFu8],
        PanTilt::Move { direction, pan_speed, tilt_speed } => seq![
            address,
            0x01u8,
            0x06u8,
            0x01u8,
            pan_speed,
            tilt_speed,
            direction_codes(direction).0,
            direction_codes(direction).1,
            0xFFu8,
        ],
        _ => Seq::empty(),
    }
}

/// The protocol crate's home and reset commands are the packets of those
/// commands for camera 1 (address `0x81`).
pub proof fn lemma_preset_commands_are_packets(reset: bool)
    ensures
        preset_command_bytes(reset) == pan_tilt_packet(
            0x81,
            if reset {
                PanTilt::Reset
            } else {
                PanTilt::Home
            },
        ),
{
}

/// Every direction is read back from its codes, and codes that name a
/// direction are that direction's codes: the codes and the directions
/// correspond one to one.
pub proof fn lemma_direction_codes_round_trip(direction: PanTiltDirection, pan: u8, tilt: u8)
    ensures
        direction_of(direction_codes(direction).0, direction_codes(direction).1) == Some(direction),
        direction_of(pan, tilt) == Some(direction) ==> direction_codes(direction) == (pan, tilt),
{
}

/// A home or reset packet, whatever its address, decodes to its command.
pub proof fn lemma_decode_preset_packet(address: u8, command: PanTilt)
    requires
        command is Home || command is Reset,
    ensures
        decoded_packet(pan_tilt_packet(address, command)) == Ok::<Command, DecodeFailure>(
            Command::PanTilt(command),
        ),
{
}

/// Decoding yields no command but returning home and resetting.
pub proof fn lemma_decoded_commands_are_presets(buf: Seq<u8>)
    ensures
        decoded_packet(buf) matches Ok(command) ==> command == Command::PanTilt(PanTilt::Home)
            || command == Command::PanTilt(PanTilt::Reset),
{
}

/// A packet of two bytes or more whose last byte is not the terminator is
/// rejected for that, whatever else it holds.
pub proof fn lemma_unterminated_packet_rejected(buf: Seq<u8>)
    requires
        buf.len() >= 2,
        buf.last() != 0xFF,
    ensures
        decoded_packet(buf) == Err::<Command, DecodeFailure>(DecodeFailure::NoTerminator),
{
}

/// A home or reset packet, whatever its address, is read back by
/// [`DecodeVisca::try_decode`].
pub proof fn lemma_try_decode_preset_packet(address: u8, command: PanTilt)
    requires
        command is Home || command is Reset,
    ensures
        <PanTilt as DecodeVisca>::accepts(pan_tilt_packet(address, command)),
        <PanTilt as DecodeVisca>::decoded(pan_tilt_packet(address, command)) == Some(command),
{
    let buf = pan_tilt_packet(address, command);
    assert(buf.subrange(1, 5) =~= preset_command_bytes(command is Reset).subrange(1, 5));
    if command is Reset {
        assert(buf.subrange(1, 5) != preset_command_bytes(false).subrange(1, 5)) by {
            assert(buf.subrange(1, 5)[2] != preset_command_bytes(false).subrange(1, 5)[2]);
        }
    }
}

/// On a five-byte packet that [`DecodeVisca::try_decode`] accepts,
/// [`decode`](decode()) decodes the same command.
pub proof fn lemma_decoders_agree(buf: Seq<u8>)
    requires
        <PanTilt as DecodeVisca>::accepts(buf),
        buf.len() == 5,
    ensures
        <PanTilt as DecodeVisca>::decoded(buf) matches Some(command) && decoded_packet(buf)
            == Ok::<Command, DecodeFailure>(Command::PanTilt(command)),
{
    let home = preset_command_bytes(false);
    let reset = preset_command_bytes(true);
    if matches_prefix(buf, home) {
        assert(buf[1] == buf.subrange(1, 5)[0] && buf[2] == buf.subrange(1, 5)[1]);
        assert(buf[3] == buf.subrange(1, 5)[2] && buf[4] == buf.subrange(1, 5)[3]);
    } else {
        assert(matches_prefix(buf, reset));
        assert(buf[1] == buf.subrange(1, 5)[0] && buf[2] == buf.subrange(1, 5)[1]);
        assert(buf[3] == buf.subrange(1, 5)[2] && buf[4] == buf.subrange(1, 5)[3]);
    }
}

/// Packets that differ only in their address byte are read alike by
/// [`DecodeVisca::try_decode`]: both are accepted or neither, and they give
/// the same command.
pub proof fn lemma_try_decode_ignores_address(first: Seq<u8>, second: Seq<u8>)
    requires
        first.len() == second.len(),
        first.len() >= 1,
        first.subrange(1, first.len() as int) == second.subrange(1, second.len() as int),
    ensures
        <PanTilt as DecodeVisca>::accepts(first) == <PanTilt as DecodeVisca>::accepts(second),
        <PanTilt as DecodeVisca>::decoded(first) == <PanTilt as DecodeVisca>::decoded(second),
{
    if first.len() >= 5 {
        let n = first.len() as int;
        assert(first.subrange(1, 5) =~= first.subrange(1, n).subrange(0, 4));
        assert(second.subrange(1, 5) =~= second.subrange(1, n).subrange(0, 4));
    }
}

/// Packets that differ only in their address byte decode to the same
/// command when one of them decodes to a command.
pub proof fn lemma_decode_ignores_address(first: Seq<u8>, second: Seq<u8>)
    requires
        first.len() == second.len(),
        first.len() >= 1,
        first.subrange(1, first.len() as int) == second.subrange(1, second.len() as int),
    ensures
        decoded_packet(first) matches Ok(command) ==> decoded_packet(second) == Ok::<
            Command,
            DecodeFailure,
        >(command),
{
    let n = first.len() as int;
    if n >= 2 {
        assert(first[1] == first.subrange(1, n)[0] && second[1] == second.subrange(1, n)[0]);
        assert(first.last() == first.subrange(1, n)[n - 2] && second.last() == second.subrange(1, n)[n - 2]);
    }
    if n >= 4 {
        assert(first[2] == first.subrange(1, n)[1] && second[2] == second.subrange(1, n)[1]);
        assert(first[3] == first.subrange(1, n)[2] && second[3] == second.subrange(1, n)[2]);
    }
}

/// A packet decodes to returning home exactly when it is a terminated
/// pan/tilt command packet (category `0x01`, command `0x06`) whose
/// subcommand byte is `0x04`, and to resetting exactly when that byte is
/// `0x05`.
pub proof fn lemma_preset_subcommands(buf: Seq<u8>)
    ensures
        decoded_packet(buf) == Ok::<Command, DecodeFailure>(Command::PanTilt(PanTilt::Home)) <==> (
        buf.len() >= 5 && buf[1] == 0x01 && buf[2] == 0x06 && buf[3] == 0x04 && buf[buf.len()
            - 1] == 0xFF),
        decoded_packet(buf) == Ok::<Command, DecodeFailure>(Command::PanTilt(PanTilt::Reset)) <==> (
        buf.len() >= 5 && buf[1] == 0x01 && buf[2] == 0x06 && buf[3] == 0x05 && buf[buf.len()
            - 1] == 0xFF),
{
}

/// A terminated pan/tilt command packet whose subcommand is neither a move
/// (`0x01`), returning home (`0x04`) nor resetting (`0x05`) is rejected as
/// an unexpected subcommand; a move is rejected as badly formed, with the
/// whole packet.
pub proof fn lemma_other_subcommands_rejected(buf: Seq<u8>)
    requires
        buf.len() >= 5,
        buf[1] == 0x01,
        buf[2] == 0x06,
        buf[buf.len() - 1] == 0xFF,
    ensures
        buf[3] != 0x01 && buf[3] != 0x04 && buf[3] != 0x05 ==> decoded_packet(buf) == Err::<
            Command,
            DecodeFailure,
        >(DecodeFailure::Raw("unexpected pantilt subcommand"@)),
        buf[3] == 0x01 ==> decoded_packet(buf) == Err::<Command, DecodeFailure>(
            DecodeFailure::BadlyFormed(buf),
        ),
{
}

/// [`DecodeVisca::try_decode`] reads returning home exactly from packets of
/// five bytes or more whose bytes after the address are `01 06 04 FF`, and
/// resetting exactly from those whose bytes after the address are
/// `01 06 05 FF`; whatever follows the fifth byte does not matter.
pub proof fn lemma_try_decode_reads_first_five_bytes(buf: Seq<u8>)
    ensures
        <PanTilt as DecodeVisca>::decoded(buf) == Some(PanTilt::Home) <==> (buf.len() >= 5
            && buf[1] == 0x01 && buf[2] == 0x06 && buf[3] == 0x04 && buf[4] == 0xFF),
        <PanTilt as DecodeVisca>::decoded(buf) == Some(PanTilt::Reset) <==> (buf.len() >= 5
            && buf[1] == 0x01 && buf[2] == 0x06 && buf[3] == 0x05 && buf[4] == 0xFF),
        <PanTilt as DecodeVisca>::accepts(buf) <==> <PanTilt as DecodeVisca>::decoded(buf) is Some,
        buf.len() >= 5 ==> <PanTilt as DecodeVisca>::decoded(buf) == <PanTilt as DecodeVisca>::decoded(
            buf.subrange(0, 5),
        ),
{
    if buf.len() >= 5 {
        let head = buf.subrange(0, 5);
        let sub = buf.subrange(1, 5);
        assert(sub[0] == buf[1] && sub[1] == buf[2] && sub[2] == buf[3] && sub[3] == buf[4]);
        assert(head.subrange(1, 5) =~= sub);
        let home = preset_command_bytes(false).subrange(1, 5);
        let reset = preset_command_bytes(true).subrange(1, 5);
        assert(home =~= seq![0x01u8, 0x06u8, 0x04u8, 0xFFu8]);
        assert(reset =~= seq![0x01u8, 0x06u8, 0x05u8, 0xFFu8]);
        if buf[1] == 0x01 && buf[2] == 0x06 && buf[3] == 0x04 && buf[4] == 0xFF {
            assert(sub =~= home);
        }
        if buf[1] == 0x01 && buf[2] == 0x06 && buf[3] == 0x05 && buf[4] == 0xFF {
            assert(sub =~= reset);
            assert(sub[2] != home[2]);
        }
        if sub == home {
            assert(sub[0] == home[0] && sub[1] == home[1] && sub[2] == home[2] && sub[3] == home[3]);
        }
        if sub == reset {
            assert(sub[0] == reset[0] && sub[1] == reset[1] && sub[2] == reset[2] && sub[3] == reset[3]);
        }
    }
}

/// The failures before the subcommand: an empty packet has no address
/// byte; a packet that ends before a byte it needs is incomplete, a
/// terminated packet is read by its category byte (`0x09` is the
/// unimplemented inquiry, anything but `0x01` is unrecognised) and then by
/// its command byte (anything but `0x06` is unrecognised).
pub proof fn lemma_header_failures(buf: Seq<u8>)
    ensures
        buf.len() == 0 ==> decoded_packet(buf) == Err::<Command, DecodeFailure>(
            DecodeFailure::Raw("expected an address byte at least."@),
        ),
        buf.len() == 1 ==> decoded_packet(buf) == Err::<Command, DecodeFailure>(
            DecodeFailure::Incomplete,
        ),
        buf.len() >= 2 && buf[buf.len() - 1] == 0xFF ==> {
            &&& buf.len() == 2 ==> decoded_packet(buf) == Err::<Command, DecodeFailure>(
                DecodeFailure::Incomplete,
            )
            &&& buf.len() >= 3 && buf[1] == 0x09 ==> decoded_packet(buf) == Err::<
                Command,
                DecodeFailure,
            >(DecodeFailure::Unimplemented("Inquiry"@))
            &&& buf.len() >= 3 && buf[1] != 0x09 && buf[1] != 0x01 ==> decoded_packet(buf) == Err::<
                Command,
                DecodeFailure,
            >(DecodeFailure::UnrecognizedCategory(buf[1]))
            &&& buf.len() == 3 && buf[1] == 0x01 ==> decoded_packet(buf) == Err::<
                Command,
                DecodeFailure,
            >(DecodeFailure::Incomplete)
            &&& buf.len() >= 4 && buf[1] == 0x01 && buf[2] != 0x06 ==> decoded_packet(buf) == Err::<
                Command,
                DecodeFailure,
            >(DecodeFailure::UnrecognizedCommand(buf[2]))
            &&& buf.len() == 4 && buf[1] == 0x01 && buf[2] == 0x06 ==> decoded_packet(buf) == Err::<
                Command,
                DecodeFailure,
            >(DecodeFailure::Incomplete)
        },
{
}

/// Direction codes: a pan code `0x01` means a leftward part, `0x02` a
/// rightward part, `0x03` none; a tilt code `0x01` means an upward part,
/// `0x02` a downward part, `0x03` none. Codes outside `0x01..=0x03` name no
/// direction.
pub proof fn lemma_direction_code_meaning(pan: u8, tilt: u8)
    ensures
        direction_of(pan, tilt) is Some <==> (1 <= pan <= 3 && 1 <= tilt <= 3),
        direction_of(pan, tilt) matches Some(d) ==> {
            &&& (pan == 1 <==> (d == PanTiltDirection::Left || d == PanTiltDirection::UpLeft || d
                == PanTiltDirection::DownLeft))
            &&& (pan == 2 <==> (d == PanTiltDirection::Right || d == PanTiltDirection::UpRight
                || d == PanTiltDirection::DownRight))
            &&& (tilt == 1 <==> (d == PanTiltDirection::Up || d == PanTiltDirection::UpLeft || d
                == PanTiltDirection::UpRight))
            &&& (tilt == 2 <==> (d == PanTiltDirection::Down || d == PanTiltDirection::DownLeft
                || d == PanTiltDirection::DownRight))
        },
{
}

} // verus!
