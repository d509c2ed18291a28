//! DoIP general header: encoding of outgoing frames and decoding of received headers.
use vstd::prelude::*;

verus! {

/// Protocol version byte sent in every frame.
pub const PROTO_VERSION: u8 = 0x02;

/// Bitwise complement of the protocol version.
pub const INVER_PROTO_VERSION: u8 = 0xfd;

/// Length of the DoIP general header in bytes.
pub const HEADER_LEN: usize = 8;

/// Default TCP port of a DoIP entity.
pub const DOIP_PORT: u16 = 13400;

/// Routing activation type sent in an activation request.
pub const DEFAULT_ACTIVATION_TYPE: u8 = 0x00;

/// Reserved field of an activation request.
pub const DEFAULT_ACTIVATION_RESERVED: u32 = 0x00;

/// Default connection timeout in seconds.
pub const DEFAULT_CONNECTION_TIMEOUT_SECS: u64 = 5;

/// Default read/write timeout in seconds.
pub const DEFAULT_IO_TIMEOUT_SECS: u64 = 10;

/// Payload types used to set up and maintain a vehicle connection.
#[derive(Clone, Copy, Debug, PartialEq, Eq)]
pub enum VehicleConnectionPayloadType {
    GenericNegativeAck,
    VehicleIdRequest,
    VehicleIdRequestWithEID,
    VehicleIdRequestWithVIN,
    VehicleAnnouncement,
    RoutingActivationRequest,
    RoutingActivationResponse,
    AliveCheckRequest,
    AliveCheckResponse,
}

impl VehicleConnectionPayloadType {
    pub open spec fn spec_code(self) -> u16 {
        match self {
            VehicleConnectionPayloadType::GenericNegativeAck => 0x0000,
            VehicleConnectionPayloadType::VehicleIdRequest => 0x0001,
            VehicleConnectionPayloadType::VehicleIdRequestWithEID => 0x0002,
            VehicleConnectionPayloadType::VehicleIdRequestWithVIN => 0x0003,
            VehicleConnectionPayloadType::VehicleAnnouncement => 0x0004,
            VehicleConnectionPayloadType::RoutingActivationRequest => 0x0005,
            VehicleConnectionPayloadType::RoutingActivationResponse => 0x0006,
            VehicleConnectionPayloadType::AliveCheckRequest => 0x0007,
            VehicleConnectionPayloadType::AliveCheckResponse => 0x0008,
        }
    }

    /// The wire value of this payload type.
    pub fn code(&self) -> (r: u16)
        ensures
            r == self.spec_code(),
    {
        match self {
            VehicleConnectionPayloadType::GenericNegativeAck => 0x0000,
            VehicleConnectionPayloadType::VehicleIdRequest => 0x0001,
            VehicleConnectionPayloadType::VehicleIdRequestWithEID => 0x0002,
            VehicleConnectionPayloadType::VehicleIdRequestWithVIN => 0x0003,
            VehicleConnectionPayloadType::VehicleAnnouncement => 0x0004,
            VehicleConnectionPayloadType::RoutingActivationRequest => 0x0005,
            VehicleConnectionPayloadType::RoutingActivationResponse => 0x0006,
            VehicleConnectionPayloadType::AliveCheckRequest => 0x0007,
            VehicleConnectionPayloadType::AliveCheckResponse => 0x0008,
        }
    }
}

/// Payload types of diagnostic messages and their acknowledgements.
#[derive(Clone, Copy, Debug, PartialEq, Eq)]
pub enum DiagnosticPayloadType {
    DiagnosticMessage,
    DiagnosticPositiveAck,
    DiagnosticNegativeAck,
}

impl DiagnosticPayloadType {
    pub open spec fn spec_code(self) -> u16 {
        match self {
            DiagnosticPayloadType::DiagnosticMessage => 0x8001,
            DiagnosticPayloadType::DiagnosticPositiveAck => 0x8002,
            DiagnosticPayloadType::DiagnosticNegativeAck => 0x8003,
        }
    }

    /// The wire value of this payload type.
    pub fn code(&self) -> (r: u16)
        ensures
            r == self.spec_code(),
    {
        match self {
            DiagnosticPayloadType::DiagnosticMessage => 0x8001,
            DiagnosticPayloadType::DiagnosticPositiveAck => 0x8002,
            DiagnosticPayloadType::DiagnosticNegativeAck => 0x8003,
        }
    }
}

/// Big-endian bytes of a 16-bit value.
pub open spec fn be_u16(v: u16) -> Seq<u8> {
    seq![(v / 256) as u8, (v % 256) as u8]
}

/// Big-endian bytes of a 32-bit value.
pub open spec fn be_u32(v: u32) -> Seq<u8> {
    seq![
        (v / 0x100_0000) as u8,
        ((v / 0x1_0000) % 256) as u8,
        ((v / 256) % 256) as u8,
        (v % 256) as u8,
    ]
}

/// The 16-bit big-endian value stored at `b[i]`, `b[i + 1]`.
pub open spec fn read_be_u16(b: Seq<u8>, i: int) -> u16 {
    (b[i] as int * 256 + b[i + 1] as int) as u16
}

/// The 32-bit big-endian value stored at `b[i]` .. `b[i + 3]`.
pub open spec fn read_be_u32(b: Seq<u8>, i: int) -> u32 {
    (b[i] as int * 0x100_0000 + b[i + 1] as int * 0x1_0000 + b[i + 2] as int * 256
        + b[i + 3] as int) as u32
}

/// The payload carried by an optional slice: none is the empty payload.
pub open spec fn payload_of(p: Option<&[u8]>) -> Seq<u8> {
    match p {
        Some(s) => s@,
        None => Seq::empty(),
    }
}

/// A complete DoIP frame: version, inverse version, payload type, payload length, payload.
pub open spec fn frame(payload_type: u16, payload: Seq<u8>) -> Seq<u8> {
    seq![PROTO_VERSION, INVER_PROTO_VERSION] + be_u16(payload_type) + be_u32(payload.len() as u32)
        + payload
}

/// The fields of a DoIP general header that the receiver acts on.
#[derive(Clone, Copy, Debug, PartialEq, Eq)]
pub struct DoipHeader {
    pub payload_type: u16,
    pub payload_len: u32,
}

/// The header that the first eight bytes of `b` describe.
pub open spec fn header_of(b: Seq<u8>) -> DoipHeader {
    DoipHeader { payload_type: read_be_u16(b, 2), payload_len: read_be_u32(b, 4) }
}

fn push_be_u16(message: &mut Vec<u8>, v: u16)
    ensures
        final(message)@ == old(message)@ + be_u16(v),
{
    message.push((v / 256) as u8);
    message.push((v % 256) as u8);
}

fn push_be_u32(message: &mut Vec<u8>, v: u32)
    ensures
        final(message)@ == old(message)@ + be_u32(v),
{
    message.push((v / 0x100_0000) as u8);
    message.push(((v / 0x1_0000) % 256) as u8);
    message.push(((v / 256) % 256) as u8);
    message.push((v % 256) as u8);
}

/// Builds the frame that carries `uds_msg` (none: an empty payload) under `payload_type`.
pub fn encode_doip_message(payload_type: u16, uds_msg: Option<&[u8]>) -> (message: Vec<u8>)
    requires
        payload_of(uds_msg).len() <= u32::MAX,
    ensures
        message@ == frame(payload_type, payload_of(uds_msg)),
{
    let mut message: Vec<u8> = Vec::new();
    message.push(PROTO_VERSION);
    message.push(INVER_PROTO_VERSION);
    push_be_u16(&mut message, payload_type);
    let payload: &[u8] = match uds_msg {
        Some(p) => p,
        None => &[],
    };
    let payload_len = payload.len() as u32;
    push_be_u32(&mut message, payload_len);
    let ghost head = message@;
    let mut i: usize = 0;
    while i < payload.len()
        invariant
            0 <= i <= payload@.len(),
            payload@ == payload_of(uds_msg),
            message@ == head + payload@.subrange(0, i as int),
        decreases payload@.len() - i,
    {
        message.push(payload[i]);
        i = i + 1;
        assert(payload@.subrange(0, i as int) == payload@.subrange(0, i - 1 as int).push(payload@[i - 1]));
    }
    assert(payload@.subrange(0, i as int) == payload@);
    assert(message@ == frame(payload_type, payload_of(uds_msg)));
    message
}

/// Reads the payload type and payload length out of an eight-byte header.
pub fn decode_header(header: &[u8]) -> (r: DoipHeader)
    requires
        header@.len() == HEADER_LEN,
    ensures
        r == header_of(header@),
{
    let payload_type = (header[2] as u16) * 256 + header[3] as u16;
    let payload_len = (header[4] as u32) * 0x100_0000 + (header[5] as u32) * 0x1_0000
        + (header[6] as u32) * 256 + header[7] as u32;
    DoipHeader { payload_type, payload_len }
}

/// Whether a received header carries the protocol version and its complement.
pub fn header_has_valid_version(header: &[u8]) -> (r: bool)
    requires
        header@.len() == HEADER_LEN,
    ensures
        r == (header@[0] == PROTO_VERSION && header@[1] == INVER_PROTO_VERSION),
{
    header[0] == PROTO_VERSION && header[1] == INVER_PROTO_VERSION
}

/// Decoding the header of an encoded frame gives back its payload type and the
/// length of its payload.
pub proof fn lemma_codec_round_trip(payload_type: u16, payload: Seq<u8>)
    requires
        payload.len() <= u32::MAX,
    ensures
        frame(payload_type, payload).len() == HEADER_LEN + payload.len(),
        header_of(frame(payload_type, payload).subrange(0, HEADER_LEN as int)) == (DoipHeader {
            payload_type,
            payload_len: payload.len() as u32,
        }),
{
    let f = frame(payload_type, payload);
    let h = f.subrange(0, HEADER_LEN as int);
    let n = payload.len() as u32;
    assert(h[2] == (payload_type / 256) as u8);
    assert(h[3] == (payload_type % 256) as u8);
    assert(h[4] == (n / 0x100_0000) as u8);
    assert(h[5] == ((n / 0x1_0000) % 256) as u8);
    assert(h[6] == ((n / 256) % 256) as u8);
    assert(h[7] == (n % 256) as u8);
    let nn = n as int;
    assert(nn == (nn / 0x100_0000) * 0x100_0000 + ((nn / 0x1_0000) % 256) * 0x1_0000 + ((nn / 256)
        % 256) * 256 + nn % 256) by (nonlinear_arith)
        requires
            0 <= nn < 0x1_0000_0000,
    ;
}

} // verus!
