//! Frame decoder for the inter-process wire protocol carrying transport
//! events.
//!
//! A frame is a fixed 8-byte header followed by `length` payload bytes.
//! Header layout, all integers little-endian: `magic: u16`, `type: u8`,
//! `flags: u8` (reserved), `length: u32`. The magic must equal
//! `IPC_MAGIC`; any other value is fatal for the connection. A recognized
//! frame type whose payload is too short is consumed without producing an
//! event, and decoding continues: a deliberate tolerance for one malformed
//! frame, distinct from the fatal magic policy.

use vstd::prelude::*;

verus! {

broadcast use vstd::string::to_string_from_display_ensures_for_str;

/// Protocol magic; on the wire as the two bytes `AA 55`.
pub const IPC_MAGIC: u16 = 0x55AA;

/// Size of the fixed frame header.
pub const HEADER_LEN: usize = 8;

/// Frame type carrying a received packet.
pub const FRAME_TYPE_PACKET_RECEIVED: u8 = 0x01;

/// Frame type announcing an established connection.
pub const FRAME_TYPE_CONNECTION_ESTABLISHED: u8 = 0x02;

/// Least payload length of a `PacketReceived` frame: a 32-byte sender
/// identifier, one packet-type byte, and a 4-byte size.
pub const PACKET_RECEIVED_MIN_PAYLOAD: usize = 37;

/// Least payload length of a `ConnectionEstablished` frame: a 32-byte
/// peer identifier.
pub const CONNECTION_ESTABLISHED_MIN_PAYLOAD: usize = 32;

/// Length of a peer identifier.
pub const DID_LEN: usize = 32;

/// Transport events decoded from the wire. Identifiers are exactly 32
/// bytes.
#[derive(Debug, Clone)]
pub enum L0Event {
    /// A packet arrived from a peer (frame type 0x01).
    PacketReceived { sender_did: Vec<u8>, packet_type: u8, payload_size: usize },
    /// A connection was established (frame type 0x02).
    ConnectionEstablished { peer_did: Vec<u8> },
    /// Reserved for a future frame type; the current decoder never
    /// produces it.
    ConnectionDropped { peer_did: Vec<u8>, reason: String },
}

/// Mathematical image of an `L0Event`.
pub enum L0EventView {
    PacketReceived { sender_did: Seq<u8>, packet_type: u8, payload_size: usize },
    ConnectionEstablished { peer_did: Seq<u8> },
    ConnectionDropped { peer_did: Seq<u8>, reason: Seq<char> },
}

impl View for L0Event {
    type V = L0EventView;

    open spec fn view(&self) -> L0EventView {
        match self {
            L0Event::PacketReceived { sender_did, packet_type, payload_size } => {
                L0EventView::PacketReceived {
                    sender_did: sender_did@,
                    packet_type: *packet_type,
                    payload_size: *payload_size,
                }
            },
            L0Event::ConnectionEstablished { peer_did } => {
                L0EventView::ConnectionEstablished { peer_did: peer_did@ }
            },
            L0Event::ConnectionDropped { peer_did, reason } => {
                L0EventView::ConnectionDropped { peer_did: peer_did@, reason: reason@ }
            },
        }
    }
}

/// The views of a run of events.
pub open spec fn views_of(events: Seq<L0Event>) -> Seq<L0EventView> {
    events.map_values(|e: L0Event| e@)
}

/// The view behind an optional event.
pub open spec fn opt_view(e: Option<L0Event>) -> Option<L0EventView> {
    match e {
        Some(ev) => Some(ev@),
        None => None,
    }
}

/// An optional event as a run of zero or one events.
pub open spec fn opt_seq(e: Option<L0EventView>) -> Seq<L0EventView> {
    match e {
        Some(ev) => seq![ev],
        None => Seq::empty(),
    }
}

/// How one frame fails to decode.
#[derive(Debug, Clone, Copy, PartialEq, Eq, Structural)]
pub enum DecodeError {
    /// The stream ended inside a header.
    TruncatedHeader,
    /// The header magic is not `IPC_MAGIC`: fatal for the connection.
    InvalidMagic,
    /// The stream ended inside a payload.
    TruncatedPayload,
}

/// A decoded frame header.
#[derive(Debug, Clone, Copy, PartialEq, Eq, Structural)]
pub struct FrameHeader {
    pub magic: u16,
    pub frame_type: u8,
    /// Reserved; ignored by this protocol version.
    pub flags: u8,
    /// Payload byte count to read next; zero is legal.
    pub length: u32,
}

/// A 16-bit little-endian integer read from two bytes.
pub open spec fn spec_le16(b0: u8, b1: u8) -> int {
    b0 + 0x100 * b1
}

/// A 32-bit little-endian integer read from four bytes.
pub open spec fn spec_le32(b0: u8, b1: u8, b2: u8, b3: u8) -> int {
    b0 + 0x100 * b1 + 0x10000 * b2 + 0x1000000 * b3
}

/// The header encoded by eight bytes.
pub open spec fn spec_parse_header(h: Seq<u8>) -> FrameHeader
    recommends
        h.len() >= HEADER_LEN,
{
    FrameHeader {
        magic: spec_le16(h[0], h[1]) as u16,
        frame_type: h[2],
        flags: h[3],
        length: spec_le32(h[4], h[5], h[6], h[7]) as u32,
    }
}

/// Decode the fixed 8-byte header; a magic other than `IPC_MAGIC` is a
/// fatal protocol error and yields no header.
pub fn parse_header(h: &[u8; 8]) -> (r: Result<FrameHeader, DecodeError>)
    ensures
        spec_parse_header(h@).magic == IPC_MAGIC ==> r == Ok::<FrameHeader, DecodeError>(
            spec_parse_header(h@),
        ),
        spec_parse_header(h@).magic != IPC_MAGIC ==> r == Err::<FrameHeader, DecodeError>(
            DecodeError::InvalidMagic,
        ),
{
    let magic: u16 = h[0] as u16 + 0x100 * (h[1] as u16);
    let length: u32 = h[4] as u32 + 0x100 * (h[5] as u32) + 0x10000 * (h[6] as u32) + 0x1000000
        * (h[7] as u32);
    if magic != IPC_MAGIC {
        return Err(DecodeError::InvalidMagic);
    }
    Ok(FrameHeader { magic, frame_type: h[2], flags: h[3], length })
}

/// The event a recognized frame type yields for a payload, if any: a too
/// short payload of a recognized type, and every unrecognized type, yield
/// none.
pub open spec fn spec_frame_event(frame_type: u8, payload: Seq<u8>) -> Option<L0EventView> {
    if frame_type == FRAME_TYPE_PACKET_RECEIVED {
        if payload.len() >= PACKET_RECEIVED_MIN_PAYLOAD {
            Some(
                L0EventView::PacketReceived {
                    sender_did: payload.subrange(0, DID_LEN as int),
                    packet_type: payload[DID_LEN as int],
                    payload_size: spec_le32(
                        payload[33],
                        payload[34],
                        payload[35],
                        payload[36],
                    ) as usize,
                },
            )
        } else {
            None
        }
    } else if frame_type == FRAME_TYPE_CONNECTION_ESTABLISHED {
        if payload.len() >= CONNECTION_ESTABLISHED_MIN_PAYLOAD {
            Some(L0EventView::ConnectionEstablished { peer_did: payload.subrange(0, DID_LEN as int) })
        } else {
            None
        }
    } else {
        None
    }
}

/// Copy the leading identifier bytes out of a payload.
fn copy_did(payload: &Vec<u8>) -> (d: Vec<u8>)
    requires
        payload@.len() >= DID_LEN,
    ensures
        d@ == payload@.subrange(0, DID_LEN as int),
{
    let mut d: Vec<u8> = Vec::new();
    let mut i: usize = 0;
    while i < DID_LEN
        invariant
            i <= DID_LEN,
            payload@.len() >= DID_LEN,
            d@ == payload@.subrange(0, i as int),
        decreases DID_LEN - i,
    {
        d.push(payload[i]);
        proof {
            assert(d@ =~= payload@.subrange(0, i as int + 1));
        }
        i = i + 1;
    }
    d
}

/// Interpret one consumed frame's payload by its type, yielding the
/// decoded event or none.
pub fn parse_event(frame_type: u8, payload: &Vec<u8>) -> (r: Option<L0Event>)
    ensures
        opt_view(r) == spec_frame_event(frame_type, payload@),
{
    if frame_type == FRAME_TYPE_PACKET_RECEIVED {
        if payload.len() < PACKET_RECEIVED_MIN_PAYLOAD {
            return None;
        }
        let sender_did = copy_did(payload);
        let packet_type = payload[DID_LEN];
        let size: u32 = payload[33] as u32 + 0x100 * (payload[34] as u32) + 0x10000 * (payload[35]
            as u32) + 0x1000000 * (payload[36] as u32);
        Some(L0Event::PacketReceived { sender_did, packet_type, payload_size: size as usize })
    } else if frame_type == FRAME_TYPE_CONNECTION_ESTABLISHED {
        if payload.len() < CONNECTION_ESTABLISHED_MIN_PAYLOAD {
            return None;
        }
        let peer_did = copy_did(payload);
        Some(L0Event::ConnectionEstablished { peer_did })
    } else {
        None
    }
}

/// One frame decoded from a buffer position: the event it yields, if any,
/// and the position just past the frame.
#[derive(Debug)]
pub struct DecodedFrame {
    pub event: Option<L0Event>,
    pub next_pos: usize,
}

/// What decoding one frame at `pos` yields: the optional event and the
/// next position, or the failure.
pub open spec fn spec_decode_frame(buf: Seq<u8>, pos: int) -> Result<
    (Option<L0EventView>, int),
    DecodeError,
>
    recommends
        0 <= pos <= buf.len(),
{
    if buf.len() - pos < HEADER_LEN {
        Err(DecodeError::TruncatedHeader)
    } else {
        let h = spec_parse_header(buf.subrange(pos, pos + HEADER_LEN));
        if h.magic != IPC_MAGIC {
            Err(DecodeError::InvalidMagic)
        } else if buf.len() - (pos + HEADER_LEN) < h.length {
            Err(DecodeError::TruncatedPayload)
        } else {
            Ok(
                (
                    spec_frame_event(
                        h.frame_type,
                        buf.subrange(pos + HEADER_LEN, pos + HEADER_LEN + h.length),
                    ),
                    pos + HEADER_LEN + h.length,
                ),
            )
        }
    }
}

/// Decode exactly one frame from `buf` starting at `pos`: read the
/// header, then `length` payload bytes, and interpret the payload by the
/// frame type. No partial state leaks: the caller learns the event (if
/// any) and where the next frame starts, or the failure.
pub fn decode_frame(buf: &Vec<u8>, pos: usize) -> (r: Result<DecodedFrame, DecodeError>)
    requires
        pos <= buf@.len(),
    ensures
        ({
            let s = spec_decode_frame(buf@, pos as int);
            match r {
                Ok(f) => s == Ok::<(Option<L0EventView>, int), DecodeError>(
                    (opt_view(f.event), f.next_pos as int),
                ),
                Err(e) => s == Err::<(Option<L0EventView>, int), DecodeError>(e),
            }
        }),
{
    if buf.len() - pos < HEADER_LEN {
        return Err(DecodeError::TruncatedHeader);
    }
    let magic: u16 = buf[pos] as u16 + 0x100 * (buf[pos + 1] as u16);
    let frame_type: u8 = buf[pos + 2];
    let length: u32 = buf[pos + 4] as u32 + 0x100 * (buf[pos + 5] as u32) + 0x10000 * (buf[pos + 6]
        as u32) + 0x1000000 * (buf[pos + 7] as u32);
    proof {
        let h = spec_parse_header(buf@.subrange(pos as int, pos as int + HEADER_LEN));
        assert(h.magic == magic && h.frame_type == frame_type && h.length == length);
    }
    if magic != IPC_MAGIC {
        return Err(DecodeError::InvalidMagic);
    }
    let length_us: usize = length as usize;
    if buf.len() - pos - HEADER_LEN < length_us {
        return Err(DecodeError::TruncatedPayload);
    }
    let payload_start: usize = pos + HEADER_LEN;
    let payload_end: usize = payload_start + length_us;
    let mut payload: Vec<u8> = Vec::new();
    let mut i: usize = 0;
    while i < length_us
        invariant
            i <= length_us,
            payload_end == payload_start + length_us,
            payload_end <= buf@.len(),
            payload@ == buf@.subrange(payload_start as int, payload_start as int + i as int),
        decreases length_us - i,
    {
        payload.push(buf[payload_start + i]);
        proof {
            assert(payload@ =~= buf@.subrange(
                payload_start as int,
                payload_start as int + i as int + 1,
            ));
        }
        i = i + 1;
    }
    let event = parse_event(frame_type, &payload);
    Ok(DecodedFrame { event, next_pos: payload_start + length_us })
}

/// What decoding a whole buffer from `pos` yields: the events of its
/// frames in wire order, or the first failure. A buffer ending exactly at
/// a header boundary is a clean end.
pub open spec fn spec_decode(buf: Seq<u8>, pos: int) -> Result<Seq<L0EventView>, DecodeError>
    recommends
        0 <= pos <= buf.len(),
    decreases buf.len() - pos
        when 0 <= pos <= buf.len()
{
    if pos >= buf.len() {
        Ok(Seq::empty())
    } else {
        match spec_decode_frame(buf, pos) {
            Err(e) => Err(e),
            Ok((ev, next)) => match spec_decode(buf, next) {
                Err(e) => Err(e),
                Ok(events) => Ok(opt_seq(ev) + events),
            },
        }
    }
}

/// Prefix some already-decoded events onto the outcome of decoding the
/// rest.
spec fn spec_prepend(
    events: Seq<L0EventView>,
    rest: Result<Seq<L0EventView>, DecodeError>,
) -> Result<Seq<L0EventView>, DecodeError> {
    match rest {
        Ok(s) => Ok(events + s),
        Err(e) => Err(e),
    }
}

/// Decode every frame in the buffer, in wire order, collecting the events
/// the frames yield; stop cleanly at a header boundary, or fail on the
/// first truncated or magic-violating frame.
pub fn decode_events(buf: &Vec<u8>) -> (r: Result<Vec<L0Event>, DecodeError>)
    ensures
        ({
            let s = spec_decode(buf@, 0);
            match r {
                Ok(events) => s == Ok::<Seq<L0EventView>, DecodeError>(views_of(events@)),
                Err(e) => s == Err::<Seq<L0EventView>, DecodeError>(e),
            }
        }),
{
    let mut events: Vec<L0Event> = Vec::new();
    let mut pos: usize = 0;
    while pos < buf.len()
        invariant
            pos <= buf@.len(),
            spec_decode(buf@, 0) == spec_prepend(views_of(events@), spec_decode(buf@, pos as int)),
        decreases buf@.len() - pos,
    {
        let ghost pre = events@;
        match decode_frame(buf, pos) {
            Err(e) => {
                proof {
                    assert(spec_decode(buf@, pos as int) == Err::<Seq<L0EventView>, DecodeError>(e));
                }
                return Err(e);
            },
            Ok(f) => {
                proof {
                    let s = spec_decode_frame(buf@, pos as int);
                    assert(s is Ok && s->Ok_0.1 == f.next_pos as int);
                    assert(f.next_pos as int > pos as int && f.next_pos as int <= buf@.len());
                }
                match f.event {
                    Some(e) => {
                        events.push(e);
                        proof {
                            assert(views_of(events@) =~= views_of(pre) + opt_seq(
                                opt_view(f.event),
                            ));
                        }
                    },
                    None => {
                        proof {
                            assert(views_of(events@) =~= views_of(pre) + opt_seq(
                                opt_view(f.event),
                            ));
                        }
                    },
                }
                proof {
                    match spec_decode(buf@, f.next_pos as int) {
                        Ok(rest) => {
                            assert(views_of(pre) + (opt_seq(opt_view(f.event)) + rest)
                                =~= views_of(events@) + rest);
                        },
                        Err(_) => {},
                    }
                }
                pos = f.next_pos;
            },
        }
    }
    proof {
        assert(spec_decode(buf@, pos as int) == Ok::<Seq<L0EventView>, DecodeError>(Seq::empty()));
        assert(views_of(events@) + Seq::<L0EventView>::empty() =~= views_of(events@));
    }
    Ok(events)
}

/// Configuration of the transport event listener.
#[derive(Debug, Clone)]
pub struct EventListenerConfig {
    /// Event queue depth.
    pub buffer_size: usize,
    /// Filesystem endpoint the listener binds.
    pub socket_path: String,
}

impl Default for EventListenerConfig {
    /// The default configuration: a queue of 1000 events on the
    /// well-known endpoint.
    fn default() -> (r: EventListenerConfig)
        ensures
            r.buffer_size == 1000,
            r.socket_path@ == "/tmp/libertaria_l0.sock"@,
    {
        EventListenerConfig { buffer_size: 1000, socket_path: "/tmp/libertaria_l0.sock".to_string() }
    }
}

/// Failures of the listener and its connections.
#[derive(Debug)]
pub enum EventListenerError {
    /// The endpoint could not be bound at startup.
    BindFailed(String),
    /// A frame violated the protocol; fatal for its connection.
    ProtocolError(String),
    /// The transport failed mid-read; fatal for its connection.
    IoError(String),
    /// The event queue's consumer is gone; the producer stops quietly.
    ChannelClosed,
}

/// The listener-level error a decode failure amounts to: a magic
/// violation is a protocol error, a truncation is an I/O-level error.
pub fn to_listener_error(e: DecodeError) -> (r: EventListenerError)
    ensures
        e == DecodeError::InvalidMagic <==> r is ProtocolError,
        e != DecodeError::InvalidMagic <==> r is IoError,
{
    match e {
        DecodeError::InvalidMagic => EventListenerError::ProtocolError(
            "Invalid Magic".to_string(),
        ),
        DecodeError::TruncatedHeader => EventListenerError::IoError(
            "unexpected end of stream inside a frame header".to_string(),
        ),
        DecodeError::TruncatedPayload => EventListenerError::IoError(
            "unexpected end of stream inside a frame payload".to_string(),
        ),
    }
}

} // verus!
