//! The VISCA commands that drive an emulated PTZ camera, and the framing of
//! the datagrams that carry them.

use vstd::prelude::*;
use vstd::slice::slice_subrange;
use crate::decode::{decode, decoded_packet, DecodeError, DecodeFailure};

verus! {

/// Direction of a pan/tilt movement: the eight compass moves plus stop.
#[derive(Clone, Copy, Debug, PartialEq, Eq, Structural)]
pub enum PanTiltDirection {
    Up,
    Down,
    Left,
    Right,
    UpLeft,
    UpRight,
    DownLeft,
    DownRight,
    Stop,
}

/// A corner of the pan/tilt movement range.
#[derive(Clone, Copy, Debug, PartialEq, Eq, Structural)]
pub enum PanTiltLimitCorner {
    DownLeft,
    UpRight,
}

/// Largest pan speed of a pan/tilt command.
pub const PAN_SPEED_MAX: u8 = 0x18;

/// Largest tilt speed of a pan/tilt command.
pub const TILT_SPEED_MAX: u8 = 0x14;

/// Largest variable zoom speed.
pub const ZOOM_SPEED_MAX: u8 = 0x07;

/// Bound of pan positions: they range over `-PAN_POSITION_BOUND..=PAN_POSITION_BOUND`.
pub const PAN_POSITION_BOUND: i16 = 2448;

/// Lowest tilt position.
pub const TILT_POSITION_MIN: i16 = -432;

/// Highest tilt position.
pub const TILT_POSITION_MAX: i16 = 1296;

/// Highest zoom position.
pub const ZOOM_POSITION_MAX: u16 = 0x7FFF;

/// A pan/tilt command. Speeds and positions are raw protocol values; the
/// ranges they must lie in are stated by [`PanTilt::well_formed`].
#[derive(Clone, Copy, Debug, PartialEq, Eq, Structural)]
pub enum PanTilt {
    Home,
    Reset,
    Move { direction: PanTiltDirection, pan_speed: u8, tilt_speed: u8 },
    AbsolutePosition { pan: i16, tilt: i16, pan_speed: u8, tilt_speed: u8 },
    RelativePosition { pan: i16, tilt: i16, pan_speed: u8, tilt_speed: u8 },
    AbsolutePositionRaw { pan_u16: u16, tilt_u16: u16, pan_speed: u8, tilt_speed: u8 },
    RelativePositionRaw { pan_u16: u16, tilt_u16: u16, pan_speed: u8, tilt_speed: u8 },
    LimitSet { corner: PanTiltLimitCorner, pan: i16, tilt: i16 },
    LimitSetRaw { corner: PanTiltLimitCorner, pan_u16: u16, tilt_u16: u16 },
    LimitClear { corner: PanTiltLimitCorner },
}

/// Whether a pan speed and a tilt speed lie in their ranges.
pub open spec fn speeds_in_range(pan_speed: u8, tilt_speed: u8) -> bool {
    pan_speed <= PAN_SPEED_MAX && tilt_speed <= TILT_SPEED_MAX
}

/// Whether a pan position and a tilt position lie in their ranges.
pub open spec fn positions_in_range(pan: i16, tilt: i16) -> bool {
    -PAN_POSITION_BOUND <= pan <= PAN_POSITION_BOUND && TILT_POSITION_MIN <= tilt
        <= TILT_POSITION_MAX
}

impl PanTilt {
    /// Whether every speed and position of the command lies in its range:
    /// pan speeds `0x00..=0x18`, tilt speeds `0x00..=0x14`, pan positions
    /// `-2448..=2448`, tilt positions `-432..=1296`.
    pub open spec fn well_formed(self) -> bool {
        match self {
            PanTilt::Move { pan_speed, tilt_speed, .. } => speeds_in_range(pan_speed, tilt_speed),
            PanTilt::AbsolutePosition { pan, tilt, pan_speed, tilt_speed } => speeds_in_range(
                pan_speed,
                tilt_speed,
            ) && positions_in_range(pan, tilt),
            PanTilt::RelativePosition { pan, tilt, pan_speed, tilt_speed } => speeds_in_range(
                pan_speed,
                tilt_speed,
            ) && positions_in_range(pan, tilt),
            PanTilt::AbsolutePositionRaw { pan_speed, tilt_speed, .. } => speeds_in_range(
                pan_speed,
                tilt_speed,
            ),
            PanTilt::RelativePositionRaw { pan_speed, tilt_speed, .. } => speeds_in_range(
                pan_speed,
                tilt_speed,
            ),
            PanTilt::LimitSet { pan, tilt, .. } => positions_in_range(pan, tilt),
            _ => true,
        }
    }
}

/// A zoom command; variable speeds range over `0x00..=0x07` and positions
/// over `0x0000..=0x7FFF` (see [`Zoom::well_formed`]).
#[derive(Clone, Copy, Debug, PartialEq, Eq, Structural)]
pub enum Zoom {
    Stop,
    TeleStd,
    WideStd,
    TeleVariable(u8),
    WideVariable(u8),
    Position(u16),
}

impl Zoom {
    /// Whether the command's speed or position lies in its range.
    pub open spec fn well_formed(self) -> bool {
        match self {
            Zoom::TeleVariable(speed) => speed <= ZOOM_SPEED_MAX,
            Zoom::WideVariable(speed) => speed <= ZOOM_SPEED_MAX,
            Zoom::Position(position) => position <= ZOOM_POSITION_MAX,
            _ => true,
        }
    }
}

/// Coarse speed levels, from slowest to fastest.
#[derive(Clone, Copy, Debug, PartialEq, Eq, Structural)]
pub enum SpeedLevel {
    Slowest,
    Slow,
    Medium,
    Fast,
    Fastest,
}

/// A camera command received from the network or produced by local controls.
#[derive(Clone, Copy, Debug, PartialEq, Eq, Structural)]
pub enum Command {
    PanTilt(PanTilt),
    Zoom(Zoom),
}

impl Command {
    /// Whether the command's speeds and positions lie in their ranges.
    pub open spec fn well_formed(self) -> bool {
        match self {
            Command::PanTilt(pan_tilt) => pan_tilt.well_formed(),
            Command::Zoom(zoom) => zoom.well_formed(),
        }
    }
}

/// Settings of the VISCA network driver; it has none yet.
#[derive(Clone, Copy, Debug, Default, PartialEq, Eq)]
pub struct ViscaDriverConfig {}

/// Number of bytes of a received datagram that precede the VISCA message.
pub const DATAGRAM_HEADER_LEN: usize = 8;

/// The index of the first terminator (`0xFF`) in `buf` at or after `i`, or
/// the length of `buf` if there is none.
pub open spec fn terminator_from(buf: Seq<u8>, i: int) -> int
    decreases buf.len() - i,
{
    if i >= buf.len() || buf[i] == 0xFF {
        i
    } else {
        terminator_from(buf, i + 1)
    }
}

/// The payload of a received datagram: the message after the header runs up
/// to its first terminator (or the end); the payload is that message without
/// its first byte, the camera address.
pub open spec fn payload_of(buf: Seq<u8>) -> Seq<u8> {
    if buf.len() <= DATAGRAM_HEADER_LEN + 1 {
        Seq::empty()
    } else {
        let end = terminator_from(buf, DATAGRAM_HEADER_LEN as int);
        if end <= DATAGRAM_HEADER_LEN + 1 {
            Seq::empty()
        } else {
            buf.subrange(DATAGRAM_HEADER_LEN + 1, end)
        }
    }
}

/// Extracts the VISCA payload of a received datagram (see [`payload_of`]).
/// An empty result means the datagram carries no command.
pub fn packet_payload(buf: &[u8]) -> (payload: Vec<u8>)
    ensures
        payload@ == payload_of(buf@),
        forall|j: int| 0 <= j < payload@.len() ==> payload@[j] != 0xFF,
{
    let mut payload: Vec<u8> = Vec::new();
    let len = buf.len();
    if len <= DATAGRAM_HEADER_LEN {
        return payload;
    }
    let mut i: usize = DATAGRAM_HEADER_LEN;
    while i < len && buf[i] != 0xFF
        invariant
            DATAGRAM_HEADER_LEN <= i <= len,
            len == buf@.len(),
            terminator_from(buf@, i as int) == terminator_from(buf@, DATAGRAM_HEADER_LEN as int),
            forall|j: int| DATAGRAM_HEADER_LEN <= j < i ==> buf@[j] != 0xFF,
            payload@ == (if i <= DATAGRAM_HEADER_LEN + 1 {
                Seq::<u8>::empty()
            } else {
                buf@.subrange(DATAGRAM_HEADER_LEN + 1, i as int)
            }),
        decreases len - i,
    {
        if i > DATAGRAM_HEADER_LEN {
            let ghost before = payload@;
            payload.push(buf[i]);
            assert(buf@.subrange(DATAGRAM_HEADER_LEN + 1, i + 1) =~= before.push(buf@[i as int]));
        }
        i = i + 1;
    }
    proof {
        assert(terminator_from(buf@, i as int) == i);
    }
    payload
}

/// The index of the first terminator in `buf` at or after `from`, or the
/// length of `buf` if there is none.
pub fn terminator_index(buf: &[u8], from: usize) -> (index: usize)
    requires
        from <= buf@.len(),
    ensures
        index == terminator_from(buf@, from as int),
        from <= index <= buf@.len(),
{
    let mut i = from;
    while i < buf.len() && buf[i] != 0xFF
        invariant
            from <= i <= buf@.len(),
            terminator_from(buf@, i as int) == terminator_from(buf@, from as int),
        decreases buf@.len() - i,
    {
        i = i + 1;
    }
    i
}

/// The VISCA message of a received datagram: the bytes after the header up
/// to and including the first terminator, or to the end when there is none.
pub open spec fn message_of(buf: Seq<u8>) -> Seq<u8> {
    if buf.len() <= DATAGRAM_HEADER_LEN {
        Seq::empty()
    } else {
        let end = terminator_from(buf, DATAGRAM_HEADER_LEN as int);
        if end < buf.len() {
            buf.subrange(DATAGRAM_HEADER_LEN as int, end + 1)
        } else {
            buf.subrange(DATAGRAM_HEADER_LEN as int, end)
        }
    }
}

/// The command a received datagram carries. A datagram with an empty
/// payload carries none (`None`); otherwise its message, from the address
/// byte through the terminator, is decoded.
pub fn datagram_command(buf: &[u8]) -> (res: Option<Result<Command, DecodeError>>)
    ensures
        res is None <==> payload_of(buf@).len() == 0,
        res matches Some(decoded) ==> match decoded {
            Ok(command) => decoded_packet(message_of(buf@)) == Ok::<Command, DecodeFailure>(
                command,
            ),
            Err(e) => decoded_packet(message_of(buf@)) == Err::<Command, DecodeFailure>(e@),
        },
{
    let len = buf.len();
    if len <= DATAGRAM_HEADER_LEN + 1 {
        return None;
    }
    let end = terminator_index(buf, DATAGRAM_HEADER_LEN);
    if end <= DATAGRAM_HEADER_LEN + 1 {
        return None;
    }
    let message_end: usize = if end < len { end + 1 } else { end };
    let message = slice_subrange(buf, DATAGRAM_HEADER_LEN, message_end);
    Some(decode(message))
}

/// Below its first terminator, the search from `i` passes only
/// non-terminator bytes and stops at a terminator or at the end.
proof fn lemma_terminator_from(buf: Seq<u8>, i: int)
    requires
        0 <= i <= buf.len(),
    ensures
        i <= terminator_from(buf, i) <= buf.len(),
        forall|j: int| i <= j < terminator_from(buf, i) ==> buf[j] != 0xFF,
        terminator_from(buf, i) == buf.len() || buf[terminator_from(buf, i)] == 0xFF,
    decreases buf.len() - i,
{
    if i < buf.len() && buf[i] != 0xFF {
        lemma_terminator_from(buf, i + 1);
    }
}

/// The search for a terminator from `i` looks only at the bytes from `i` on.
proof fn lemma_terminator_from_suffix(first: Seq<u8>, second: Seq<u8>, i: int)
    requires
        0 <= i <= first.len(),
        first.len() == second.len(),
        first.subrange(i, first.len() as int) == second.subrange(i, second.len() as int),
    ensures
        terminator_from(first, i) == terminator_from(second, i),
    decreases first.len() - i,
{
    if i < first.len() {
        let n = first.len() as int;
        assert(first[i] == first.subrange(i, n)[0] && second[i] == second.subrange(i, n)[0]);
        assert(first.subrange(i + 1, n) =~= first.subrange(i, n).subrange(1, n - i));
        assert(second.subrange(i + 1, n) =~= second.subrange(i, n).subrange(1, n - i));
        lemma_terminator_from_suffix(first, second, i + 1);
    }
}

/// The message of a datagram longer than its header starts right after the
/// header, at index 8, whatever the header holds: it is the bytes from
/// there up to and including the first terminator, or up to the end when
/// there is none, and no byte of it before its last is a terminator.
pub proof fn lemma_message_follows_header(buf: Seq<u8>)
    requires
        buf.len() > DATAGRAM_HEADER_LEN,
    ensures
        ({
            let message = message_of(buf);
            let n = message.len() as int;
            &&& n >= 1
            &&& 8 + n <= buf.len()
            &&& message == buf.subrange(8, 8 + n)
            &&& forall|j: int| 0 <= j < n - 1 ==> message[j] != 0xFF
            &&& message[n - 1] == 0xFF || 8 + n == buf.len()
        }),
{
    lemma_terminator_from(buf, 8);
}

/// The payload of a datagram is its message without the address byte and
/// without the terminator: every byte after the address up to the first
/// terminator (or the end), with no cap on its length. A datagram whose
/// message is only an address byte, or that has none, has an empty payload.
pub proof fn lemma_payload_is_message_body(buf: Seq<u8>)
    ensures
        buf.len() <= DATAGRAM_HEADER_LEN + 1 || buf[8] == 0xFF ==> payload_of(buf).len() == 0,
        buf.len() > DATAGRAM_HEADER_LEN + 1 && buf[8] != 0xFF ==> ({
            let payload = payload_of(buf);
            let n = payload.len() as int;
            &&& 9 + n <= buf.len()
            &&& payload == buf.subrange(9, 9 + n)
            &&& forall|j: int| 0 <= j < n ==> payload[j] != 0xFF
            &&& 9 + n == buf.len() || buf[9 + n] == 0xFF
        }),
{
    if buf.len() > DATAGRAM_HEADER_LEN {
        lemma_terminator_from(buf, 8);
    }
}

/// Two datagrams of the same length that differ only in their headers carry
/// the same message and the same payload.
pub proof fn lemma_header_is_ignored(first: Seq<u8>, second: Seq<u8>)
    requires
        first.len() == second.len(),
        first.len() >= DATAGRAM_HEADER_LEN,
        first.subrange(8, first.len() as int) == second.subrange(8, second.len() as int),
    ensures
        message_of(first) == message_of(second),
        payload_of(first) == payload_of(second),
{
    let n = first.len() as int;
    lemma_terminator_from_suffix(first, second, 8);
    if n > 8 {
        let end = terminator_from(first, 8);
        lemma_terminator_from(first, 8);
        let lo = 8int;
        assert forall|a: int, b: int| lo <= a <= b <= n implies #[trigger] first.subrange(a, b)
            == second.subrange(a, b) by {
            assert(first.subrange(a, b) =~= first.subrange(8, n).subrange(a - 8, b - 8));
            assert(second.subrange(a, b) =~= second.subrange(8, n).subrange(a - 8, b - 8));
        }
        if end < n {
            assert(first.subrange(8, end + 1) == second.subrange(8, end + 1));
        } else {
            assert(first.subrange(8, end) == second.subrange(8, end));
        }
        if end > 9 {
            assert(first.subrange(9, end) == second.subrange(9, end));
        }
    }
}

} // verus!
