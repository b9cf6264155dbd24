//! Binary framing of the two message families carried on a socket.
use vstd::prelude::*;

verus! {

/// The eight little-endian bytes of `v`.
pub open spec fn u64_le(v: u64) -> Seq<u8> {
    seq![
        (v & 0xff) as u8,
        ((v >> 8u64) & 0xff) as u8,
        ((v >> 16u64) & 0xff) as u8,
        ((v >> 24u64) & 0xff) as u8,
        ((v >> 32u64) & 0xff) as u8,
        ((v >> 40u64) & 0xff) as u8,
        ((v >> 48u64) & 0xff) as u8,
        ((v >> 56u64) & 0xff) as u8,
    ]
}

/// The integer whose little-endian bytes are `b[0..8]`.
pub open spec fn le_u64(b: Seq<u8>) -> u64
    recommends
        b.len() >= 8,
{
    (b[0] as u64) | ((b[1] as u64) << 8u64) | ((b[2] as u64) << 16u64) | ((b[3] as u64)
        << 24u64) | ((b[4] as u64) << 32u64) | ((b[5] as u64) << 40u64) | ((b[6] as u64)
        << 48u64) | ((b[7] as u64) << 56u64)
}

pub proof fn lemma_le_u64_of_u64_le(v: u64)
    ensures
        le_u64(u64_le(v)) == v,
{
    let b = u64_le(v);
    let (b0, b1, b2, b3, b4, b5, b6, b7) = (b[0], b[1], b[2], b[3], b[4], b[5], b[6], b[7]);
    assert(b0 == (v & 0xff) as u8);
    assert(((b0 as u64) | ((b1 as u64) << 8u64) | ((b2 as u64) << 16u64) | ((b3 as u64)
        << 24u64) | ((b4 as u64) << 32u64) | ((b5 as u64) << 40u64) | ((b6 as u64)
        << 48u64) | ((b7 as u64) << 56u64)) == v) by (bit_vector)
        requires
            b0 == (v & 0xff) as u8,
            b1 == ((v >> 8u64) & 0xff) as u8,
            b2 == ((v >> 16u64) & 0xff) as u8,
            b3 == ((v >> 24u64) & 0xff) as u8,
            b4 == ((v >> 32u64) & 0xff) as u8,
            b5 == ((v >> 40u64) & 0xff) as u8,
            b6 == ((v >> 48u64) & 0xff) as u8,
            b7 == ((v >> 56u64) & 0xff) as u8,
    ;
}


/// The four little-endian bytes of `v`.
pub open spec fn u32_le(v: u32) -> Seq<u8> {
    seq![
        (v & 0xff) as u8,
        ((v >> 8u32) & 0xff) as u8,
        ((v >> 16u32) & 0xff) as u8,
        ((v >> 24u32) & 0xff) as u8,
    ]
}

/// The integer whose little-endian bytes are `b[0..4]`.
pub open spec fn le_u32(b: Seq<u8>) -> u32
    recommends
        b.len() >= 4,
{
    (b[0] as u32) | ((b[1] as u32) << 8u32) | ((b[2] as u32) << 16u32) | ((b[3] as u32)
        << 24u32)
}

pub proof fn lemma_le_u32_of_u32_le(v: u32)
    ensures
        le_u32(u32_le(v)) == v,
{
    let b = u32_le(v);
    let (b0, b1, b2, b3) = (b[0], b[1], b[2], b[3]);
    assert(((b0 as u32) | ((b1 as u32) << 8u32) | ((b2 as u32) << 16u32) | ((b3 as u32)
        << 24u32)) == v) by (bit_vector)
        requires
            b0 == (v & 0xff) as u8,
            b1 == ((v >> 8u32) & 0xff) as u8,
            b2 == ((v >> 16u32) & 0xff) as u8,
            b3 == ((v >> 24u32) & 0xff) as u8,
    ;
}

pub proof fn lemma_u64_le_of_le_u64(b: Seq<u8>)
    requires
        b.len() == 8,
    ensures
        u64_le(le_u64(b)) == b,
{
    let v = le_u64(b);
    let (b0, b1, b2, b3, b4, b5, b6, b7) = (b[0], b[1], b[2], b[3], b[4], b[5], b[6], b[7]);
    assert({
        &&& b0 == (v & 0xff) as u8
        &&& b1 == ((v >> 8u64) & 0xff) as u8
        &&& b2 == ((v >> 16u64) & 0xff) as u8
        &&& b3 == ((v >> 24u64) & 0xff) as u8
        &&& b4 == ((v >> 32u64) & 0xff) as u8
        &&& b5 == ((v >> 40u64) & 0xff) as u8
        &&& b6 == ((v >> 48u64) & 0xff) as u8
        &&& b7 == ((v >> 56u64) & 0xff) as u8
    }) by (bit_vector)
        requires
            v == (b0 as u64) | ((b1 as u64) << 8u64) | ((b2 as u64) << 16u64) | ((b3 as u64)
                << 24u64) | ((b4 as u64) << 32u64) | ((b5 as u64) << 40u64) | ((b6 as u64)
                << 48u64) | ((b7 as u64) << 56u64),
    ;
    assert(u64_le(v) =~= b);
}

pub proof fn lemma_u32_le_of_le_u32(b: Seq<u8>)
    requires
        b.len() == 4,
    ensures
        u32_le(le_u32(b)) == b,
{
    let v = le_u32(b);
    let (b0, b1, b2, b3) = (b[0], b[1], b[2], b[3]);
    assert({
        &&& b0 == (v & 0xff) as u8
        &&& b1 == ((v >> 8u32) & 0xff) as u8
        &&& b2 == ((v >> 16u32) & 0xff) as u8
        &&& b3 == ((v >> 24u32) & 0xff) as u8
    }) by (bit_vector)
        requires
            v == (b0 as u32) | ((b1 as u32) << 8u32) | ((b2 as u32) << 16u32) | ((b3 as u32)
                << 24u32),
    ;
    assert(u32_le(v) =~= b);
}


/// Why a frame could not be read.
#[derive(Debug, Clone, Copy, PartialEq, Eq, Structural)]
pub enum DecodeError {
    /// The frame holds no byte at all.
    Empty,
    /// The leading byte names no message of the family.
    UnknownTag(u8),
    /// The frame is longer or shorter than its tag demands.
    WrongLength,
}

/// Messages a socket may send before its role is known.
#[derive(Debug, Clone, Copy, PartialEq, Eq, Structural)]
pub enum WsMessage {
    /// Bind this socket as a listener of the controller with this id (tag `0x01`).
    Establish(u64),
    /// Register this socket as the controller with this id (tag `0x02`).
    Controller(u64),
}

/// Messages a controller sends once registered. Angles travel as the raw
/// bits of IEEE-754 single-precision numbers.
#[derive(Debug, Clone, Copy, PartialEq, Eq, Structural)]
pub enum ControllerMessage {
    /// Keep-alive signal (tag `0x01`).
    Heartbeat,
    /// Button A pressed (tag `0x02`).
    ButtonPressA,
    /// Button B pressed (tag `0x03`).
    ButtonPressB,
    /// Orientation update: pitch, yaw and roll (tag `0x04`).
    AngleInfo(u32, u32, u32),
    /// The controller asks to be listed as pairable (tag `0x05`).
    PairingIntent,
}

pub const TAG_ESTABLISH: u8 = 0x01;
pub const TAG_CONTROLLER: u8 = 0x02;
pub const TAG_HEARTBEAT: u8 = 0x01;
pub const TAG_BUTTON_A: u8 = 0x02;
pub const TAG_BUTTON_B: u8 = 0x03;
pub const TAG_ANGLE: u8 = 0x04;
pub const TAG_PAIRING: u8 = 0x05;

/// Frame length of both handshake messages: tag and an eight-byte id.
pub const HANDSHAKE_LEN: usize = 9;
/// Frame length of an orientation update: tag and three four-byte angles.
pub const ANGLE_LEN: usize = 13;

/// The frame that encodes a handshake message.
pub open spec fn ws_message_bytes(m: WsMessage) -> Seq<u8> {
    match m {
        WsMessage::Establish(id) => seq![TAG_ESTABLISH] + u64_le(id),
        WsMessage::Controller(id) => seq![TAG_CONTROLLER] + u64_le(id),
    }
}

/// How a frame reads as a handshake message.
pub open spec fn parse_ws_message(b: Seq<u8>) -> Result<WsMessage, DecodeError> {
    if b.len() == 0 {
        Err(DecodeError::Empty)
    } else if b[0] != TAG_ESTABLISH && b[0] != TAG_CONTROLLER {
        Err(DecodeError::UnknownTag(b[0]))
    } else if b.len() != HANDSHAKE_LEN {
        Err(DecodeError::WrongLength)
    } else {
        let id = le_u64(b.subrange(1, 9));
        if b[0] == TAG_ESTABLISH {
            Ok(WsMessage::Establish(id))
        } else {
            Ok(WsMessage::Controller(id))
        }
    }
}

/// The frame that encodes a controller message.
pub open spec fn controller_message_bytes(m: ControllerMessage) -> Seq<u8> {
    match m {
        ControllerMessage::Heartbeat => seq![TAG_HEARTBEAT],
        ControllerMessage::ButtonPressA => seq![TAG_BUTTON_A],
        ControllerMessage::ButtonPressB => seq![TAG_BUTTON_B],
        ControllerMessage::AngleInfo(p, y, r) => seq![TAG_ANGLE] + u32_le(p) + u32_le(y)
            + u32_le(r),
        ControllerMessage::PairingIntent => seq![TAG_PAIRING],
    }
}

/// The frame length that a controller message tag demands.
pub open spec fn controller_frame_len(tag: u8) -> nat {
    if tag == TAG_ANGLE {
        ANGLE_LEN as nat
    } else {
        1
    }
}

/// How a frame reads as a controller message.
pub open spec fn parse_controller_message(b: Seq<u8>) -> Result<ControllerMessage, DecodeError> {
    if b.len() == 0 {
        Err(DecodeError::Empty)
    } else if b[0] < TAG_HEARTBEAT || b[0] > TAG_PAIRING {
        Err(DecodeError::UnknownTag(b[0]))
    } else if b.len() != controller_frame_len(b[0]) {
        Err(DecodeError::WrongLength)
    } else if b[0] == TAG_HEARTBEAT {
        Ok(ControllerMessage::Heartbeat)
    } else if b[0] == TAG_BUTTON_A {
        Ok(ControllerMessage::ButtonPressA)
    } else if b[0] == TAG_BUTTON_B {
        Ok(ControllerMessage::ButtonPressB)
    } else if b[0] == TAG_ANGLE {
        Ok(
            ControllerMessage::AngleInfo(
                le_u32(b.subrange(1, 5)),
                le_u32(b.subrange(5, 9)),
                le_u32(b.subrange(9, 13)),
            ),
        )
    } else {
        Ok(ControllerMessage::PairingIntent)
    }
}

fn push_u64_le(out: &mut Vec<u8>, v: u64)
    ensures
        final(out)@ == old(out)@ + u64_le(v),
{
    out.push((v & 0xff) as u8);
    out.push(((v >> 8u64) & 0xff) as u8);
    out.push(((v >> 16u64) & 0xff) as u8);
    out.push(((v >> 24u64) & 0xff) as u8);
    out.push(((v >> 32u64) & 0xff) as u8);
    out.push(((v >> 40u64) & 0xff) as u8);
    out.push(((v >> 48u64) & 0xff) as u8);
    out.push(((v >> 56u64) & 0xff) as u8);
    assert(final(out)@ =~= old(out)@ + u64_le(v));
}

fn push_u32_le(out: &mut Vec<u8>, v: u32)
    ensures
        final(out)@ == old(out)@ + u32_le(v),
{
    out.push((v & 0xff) as u8);
    out.push(((v >> 8u32) & 0xff) as u8);
    out.push(((v >> 16u32) & 0xff) as u8);
    out.push(((v >> 24u32) & 0xff) as u8);
    assert(final(out)@ =~= old(out)@ + u32_le(v));
}

fn read_u64_le(b: &[u8], at: usize) -> (r: u64)
    requires
        at + 8 <= b@.len(),
    ensures
        r == le_u64(b@.subrange(at as int, at + 8)),
{
    (b[at] as u64) | ((b[at + 1] as u64) << 8u64) | ((b[at + 2] as u64) << 16u64) | ((b[at
        + 3] as u64) << 24u64) | ((b[at + 4] as u64) << 32u64) | ((b[at + 5] as u64)
        << 40u64) | ((b[at + 6] as u64) << 48u64) | ((b[at + 7] as u64) << 56u64)
}

fn read_u32_le(b: &[u8], at: usize) -> (r: u32)
    requires
        at + 4 <= b@.len(),
    ensures
        r == le_u32(b@.subrange(at as int, at + 4)),
{
    (b[at] as u32) | ((b[at + 1] as u32) << 8u32) | ((b[at + 2] as u32) << 16u32) | ((b[at
        + 3] as u32) << 24u32)
}

impl WsMessage {
    /// Encodes the message as one frame: its tag, then the id in little-endian order.
    pub fn to_bytes(&self) -> (r: Vec<u8>)
        ensures
            r@ == ws_message_bytes(*self),
    {
        let mut out: Vec<u8> = Vec::new();
        match *self {
            WsMessage::Establish(id) => {
                out.push(TAG_ESTABLISH);
                push_u64_le(&mut out, id);
            },
            WsMessage::Controller(id) => {
                out.push(TAG_CONTROLLER);
                push_u64_le(&mut out, id);
            },
        }
        out
    }

    /// Decodes one whole frame as a handshake message.
    pub fn from_bytes(b: &[u8]) -> (r: Result<WsMessage, DecodeError>)
        ensures
            r == parse_ws_message(b@),
    {
        if b.len() == 0 {
            return Err(DecodeError::Empty);
        }
        let tag = b[0];
        if tag != TAG_ESTABLISH && tag != TAG_CONTROLLER {
            return Err(DecodeError::UnknownTag(tag));
        }
        if b.len() != HANDSHAKE_LEN {
            return Err(DecodeError::WrongLength);
        }
        let id = read_u64_le(b, 1);
        if tag == TAG_ESTABLISH {
            Ok(WsMessage::Establish(id))
        } else {
            Ok(WsMessage::Controller(id))
        }
    }
}

impl ControllerMessage {
    /// Encodes the message as one frame: its tag, then its fixed payload.
    pub fn to_bytes(&self) -> (r: Vec<u8>)
        ensures
            r@ == controller_message_bytes(*self),
    {
        let mut out: Vec<u8> = Vec::new();
        match *self {
            ControllerMessage::Heartbeat => out.push(TAG_HEARTBEAT),
            ControllerMessage::ButtonPressA => out.push(TAG_BUTTON_A),
            ControllerMessage::ButtonPressB => out.push(TAG_BUTTON_B),
            ControllerMessage::AngleInfo(p, y, r) => {
                out.push(TAG_ANGLE);
                push_u32_le(&mut out, p);
                push_u32_le(&mut out, y);
                push_u32_le(&mut out, r);
            },
            ControllerMessage::PairingIntent => out.push(TAG_PAIRING),
        }
        assert(out@ =~= controller_message_bytes(*self));
        out
    }

    /// Decodes one whole frame as a controller message.
    pub fn from_bytes(b: &[u8]) -> (r: Result<ControllerMessage, DecodeError>)
        ensures
            r == parse_controller_message(b@),
    {
        if b.len() == 0 {
            return Err(DecodeError::Empty);
        }
        let tag = b[0];
        if tag < TAG_HEARTBEAT || tag > TAG_PAIRING {
            return Err(DecodeError::UnknownTag(tag));
        }
        let expected: usize = if tag == TAG_ANGLE {
            ANGLE_LEN
        } else {
            1
        };
        if b.len() != expected {
            return Err(DecodeError::WrongLength);
        }
        if tag == TAG_HEARTBEAT {
            Ok(ControllerMessage::Heartbeat)
        } else if tag == TAG_BUTTON_A {
            Ok(ControllerMessage::ButtonPressA)
        } else if tag == TAG_BUTTON_B {
            Ok(ControllerMessage::ButtonPressB)
        } else if tag == TAG_ANGLE {
            Ok(
                ControllerMessage::AngleInfo(
                    read_u32_le(b, 1),
                    read_u32_le(b, 5),
                    read_u32_le(b, 9),
                ),
            )
        } else {
            Ok(ControllerMessage::PairingIntent)
        }
    }
}


/// Decoding the encoding of any handshake message gives the message back.
pub proof fn lemma_ws_message_round_trip(m: WsMessage)
    ensures
        parse_ws_message(ws_message_bytes(m)) == Ok::<WsMessage, DecodeError>(m),
{
    let b = ws_message_bytes(m);
    let id = match m {
        WsMessage::Establish(id) => id,
        WsMessage::Controller(id) => id,
    };
    assert(b.subrange(1, 9) =~= u64_le(id));
    lemma_le_u64_of_u64_le(id);
}

/// Decoding the encoding of any controller message gives the message back.
pub proof fn lemma_controller_message_round_trip(m: ControllerMessage)
    ensures
        parse_controller_message(controller_message_bytes(m)) == Ok::<
            ControllerMessage,
            DecodeError,
        >(m),
{
    let b = controller_message_bytes(m);
    if let ControllerMessage::AngleInfo(p, y, r) = m {
        assert(b.subrange(1, 5) =~= u32_le(p));
        assert(b.subrange(5, 9) =~= u32_le(y));
        assert(b.subrange(9, 13) =~= u32_le(r));
        lemma_le_u32_of_u32_le(p);
        lemma_le_u32_of_u32_le(y);
        lemma_le_u32_of_u32_le(r);
    }
}

/// A frame that decodes as a handshake message is exactly that message's encoding.
pub proof fn lemma_ws_message_canonical(b: Seq<u8>)
    requires
        parse_ws_message(b) is Ok,
    ensures
        ws_message_bytes(parse_ws_message(b)->Ok_0) == b,
{
    lemma_u64_le_of_le_u64(b.subrange(1, 9));
    assert(ws_message_bytes(parse_ws_message(b)->Ok_0) =~= b);
}

/// A frame that decodes as a controller message is exactly that message's encoding.
pub proof fn lemma_controller_message_canonical(b: Seq<u8>)
    requires
        parse_controller_message(b) is Ok,
    ensures
        controller_message_bytes(parse_controller_message(b)->Ok_0) == b,
{
    if b[0] == TAG_ANGLE {
        lemma_u32_le_of_le_u32(b.subrange(1, 5));
        lemma_u32_le_of_le_u32(b.subrange(5, 9));
        lemma_u32_le_of_le_u32(b.subrange(9, 13));
    }
    assert(controller_message_bytes(parse_controller_message(b)->Ok_0) =~= b);
}

/// A handshake frame is rejected when its tag is neither `0x01` nor `0x02`, and
/// when it is shorter than a tag and an eight-byte id.
pub proof fn lemma_ws_message_rejects(b: Seq<u8>)
    requires
        b.len() == 0 || (b[0] != TAG_ESTABLISH && b[0] != TAG_CONTROLLER) || b.len()
            < HANDSHAKE_LEN,
    ensures
        parse_ws_message(b) is Err,
{
}

/// A controller frame is rejected when its tag lies outside `0x01..=0x05`, and
/// when it is shorter than its tag's payload demands.
pub proof fn lemma_controller_message_rejects(b: Seq<u8>)
    requires
        b.len() == 0 || b[0] < TAG_HEARTBEAT || b[0] > TAG_PAIRING || b.len()
            < controller_frame_len(b[0]),
    ensures
        parse_controller_message(b) is Err,
{
}

} // verus!
