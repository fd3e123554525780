//! The message model of the transfer protocol and its frame format.
//!
//! A frame is `MAGIC` (5 bytes), the payload length (4 bytes, big-endian) and the
//! payload, which holds the message as JSON.
use vstd::prelude::*;
use vstd::string::StringExecFns;

verus! {

/// The bytes that open every frame: `b"MAGIC"`.
pub const MAGIC: [u8; 5] = [77u8, 65u8, 71u8, 73u8, 67u8];

/// The length of the frame header (magic and length field).
pub const HEADER_SIZE: usize = 9;

/// `MAGIC` as a sequence.
pub open spec fn magic_bytes() -> Seq<u8> {
    seq![77u8, 65u8, 71u8, 73u8, 67u8]
}

/// The big-endian encoding of `x` in four bytes.
pub open spec fn be_bytes(x: u32) -> Seq<u8> {
    seq![
        (x / 0x100_0000) as u8,
        ((x / 0x1_0000) % 0x100) as u8,
        ((x / 0x100) % 0x100) as u8,
        (x % 0x100) as u8,
    ]
}

/// The number that four big-endian bytes encode.
pub open spec fn be_value(b: Seq<u8>) -> int {
    b[0] * 0x100_0000 + b[1] * 0x1_0000 + b[2] * 0x100 + b[3]
}

/// What the length field of a frame holds for a payload of `n` bytes: `n` cut to 32 bits.
pub open spec fn length_field(n: nat) -> u32 {
    (n % 0x1_0000_0000) as u32
}

/// The frame that carries `payload`.
pub open spec fn frame(payload: Seq<u8>) -> Seq<u8> {
    magic_bytes() + be_bytes(length_field(payload.len())) + payload
}

/// Decoding the big-endian bytes of `x` gives `x` back.
pub proof fn lemma_be_roundtrip(x: u32)
    ensures
        be_value(be_bytes(x)) == x,
{
    let b = be_bytes(x);
    assert(b[0] == x / 0x100_0000);
    assert(b[1] == (x / 0x1_0000) % 0x100);
    assert(b[2] == (x / 0x100) % 0x100);
    assert(b[3] == x % 0x100);
}


/// `std::str::Utf8Error`, carried by [`ProtocolError::Utf8Error`].
#[verifier::external_type_specification]
#[verifier::external_body]
pub struct ExUtf8Error(std::str::Utf8Error);

/// Errors of framing and unframing messages.
#[derive(Debug)]
pub enum ProtocolError {
    /// The message header is invalid (wrong magic bytes).
    InvalidMagic,
    /// The payload length does not match the header.
    LengthMismatch { expected: usize, actual: usize },
    /// Failed to serialize the message to JSON.
    SerializationError(String),
    /// Failed to deserialize the message from JSON.
    DeserializationError(String),
    /// The payload is not valid UTF-8.
    Utf8Error(std::str::Utf8Error),
}

/// The decimal digit of `d` (below 10).
pub open spec fn decimal_digit(d: nat) -> char {
    (48 + d) as char
}

/// The decimal text of `n`, without leading zeros.
pub open spec fn decimal(n: nat) -> Seq<char>
    decreases n,
{
    if n < 10 {
        seq![decimal_digit(n)]
    } else {
        decimal(n / 10).push(decimal_digit(n % 10))
    }
}

/// Calls `String::push`: appends `c`.
#[verifier::external_body]
pub(crate) fn push_char(s: &mut String, c: char)
    ensures
        final(s)@ == old(s)@.push(c),
{
    s.push(c)
}

/// Calls `ToString::to_string` on a `std::str::Utf8Error`; its wording is not documented,
/// so nothing is stated of the text.
#[verifier::external_body]
fn utf8_error_text(e: &std::str::Utf8Error) -> (text: String) {
    e.to_string()
}

/// Appends the decimal text of `n`.
fn push_decimal(s: &mut String, n: usize)
    ensures
        final(s)@ == old(s)@ + decimal(n as nat),
    decreases n,
{
    if n >= 10 {
        push_decimal(s, n / 10);
    }
    let d: u8 = (n % 10) as u8;
    push_char(s, (48 + d) as char);
    assert(final(s)@ =~= old(s)@ + decimal(n as nat));
}

/// The text of a protocol error.
pub open spec fn protocol_error_text(e: ProtocolError, utf8: Seq<char>) -> Seq<char> {
    match e {
        ProtocolError::InvalidMagic => "Invalid magic header"@,
        ProtocolError::LengthMismatch { expected, actual } => "Length mismatch: expected "@ + decimal(
            expected as nat,
        ) + ", got "@ + decimal(actual as nat),
        ProtocolError::SerializationError(m) => "Serialization error: "@ + m@,
        ProtocolError::DeserializationError(m) => "Deserialization error: "@ + m@,
        ProtocolError::Utf8Error(_) => "UTF-8 error: "@ + utf8,
    }
}

impl ProtocolError {
    /// Describes the error, as `Display` would.
    pub fn to_string(&self) -> (text: String)
        ensures
            !(self is Utf8Error) ==> text@ == protocol_error_text(*self, Seq::empty()),
            self is Utf8Error ==> exists|detail: Seq<char>|
                text@ == #[trigger] protocol_error_text(*self, detail),
    {
        match self {
            ProtocolError::InvalidMagic => String::from_str("Invalid magic header"),
            ProtocolError::LengthMismatch { expected, actual } => {
                let mut text = String::from_str("Length mismatch: expected ");
                push_decimal(&mut text, *expected);
                text.append(", got ");
                push_decimal(&mut text, *actual);
                text
            },
            ProtocolError::SerializationError(m) => {
                let mut text = String::from_str("Serialization error: ");
                text.append(m.as_str());
                text
            },
            ProtocolError::DeserializationError(m) => {
                let mut text = String::from_str("Deserialization error: ");
                text.append(m.as_str());
                text
            },
            ProtocolError::Utf8Error(e) => {
                let detail = utf8_error_text(e);
                let mut text = String::from_str("UTF-8 error: ");
                text.append(detail.as_str());
                assert(text@ == protocol_error_text(*self, detail@));
                text
            },
        }
    }
}

/// The different kinds of messages of the protocol.
#[derive(Debug, Clone, PartialEq, Eq)]
pub enum MessageType {
    /// Request to send a file.
    Request {
        /// The name of the file.
        file_name: String,
        /// Total size of the file in bytes.
        size: u64,
        /// SHA-256 digest of the file, in lower-case hex.
        hash: String,
    },
    /// Accept a file transfer request.
    Accept,
    /// Reject a file transfer request.
    Reject,
    /// Cancel an ongoing transfer.
    Cancel,
    /// Exchange public keys for ECDH.
    KeyExchange {
        /// The X25519 public key.
        public_key: [u8; 32],
    },
    /// A chunk of file data.
    Chunk {
        /// The offset in the original file.
        offset: u64,
        /// The encrypted data.
        data: Vec<u8>,
    },
    /// Acknowledgment of a received chunk.
    Ack {
        /// The offset up to which data has been received.
        offset: u64,
    },
    /// The file transfer is complete.
    Complete,
    /// An error message.
    Error {
        /// Descriptive error message.
        message: String,
    },
}

/// A protocol message: a version and a payload.
#[derive(Debug, Clone, PartialEq, Eq)]
pub struct Message {
    /// Protocol version (currently 1).
    pub version: u32,
    /// The specific message payload.
    pub msg_type: MessageType,
}

/// The message of the current protocol version that carries `msg_type`.
pub open spec fn message_of(msg_type: MessageType) -> Message {
    Message { version: 1, msg_type }
}

impl Message {
    /// Creates a new message with version 1.
    pub fn new(msg_type: MessageType) -> (msg: Self)
        ensures
            msg == message_of(msg_type),
    {
        Message { version: 1, msg_type }
    }
}

/// Frames a JSON payload: `MAGIC`, the payload length as a big-endian `u32`, then the payload.
///
/// As with a cast to `u32`, a length of 4 GiB or more is stored modulo 2^32.
pub fn serialize(payload: &[u8]) -> (framed: Vec<u8>)
    ensures
        framed@ == frame(payload@),
{
    let wide: u64 = payload.len() as u64;
    let len: u32 = (wide % 0x1_0000_0000) as u32;
    let mut framed: Vec<u8> = Vec::new();
    let mut i: usize = 0;
    while i < 5
        invariant
            i <= 5,
            framed@ == magic_bytes().take(i as int),
        decreases 5 - i,
    {
        framed.push(MAGIC[i]);
        i = i + 1;
        assert(framed@ =~= magic_bytes().take(i as int));
    }
    framed.push((len / 0x100_0000) as u8);
    framed.push(((len / 0x1_0000) % 0x100) as u8);
    framed.push(((len / 0x100) % 0x100) as u8);
    framed.push((len % 0x100) as u8);
    assert(framed@ =~= magic_bytes() + be_bytes(length_field(payload@.len())));
    let ghost header = framed@;
    let mut j: usize = 0;
    while j < payload.len()
        invariant
            j <= payload.len(),
            header.len() == HEADER_SIZE,
            framed@ == header + payload@.take(j as int),
        decreases payload.len() - j,
    {
        framed.push(payload[j]);
        j = j + 1;
        assert(framed@ =~= header + payload@.take(j as int));
    }
    assert(payload@.take(payload.len() as int) =~= payload@);
    framed
}

/// What unframing `data` gives: the payload, or the error that the checks find first.
pub open spec fn unframe(data: Seq<u8>) -> Result<Seq<u8>, ProtocolError> {
    if data.len() < HEADER_SIZE {
        Err(ProtocolError::LengthMismatch { expected: HEADER_SIZE, actual: data.len() as usize })
    } else if data.subrange(0, 5) != magic_bytes() {
        Err(ProtocolError::InvalidMagic)
    } else if data.len() - HEADER_SIZE != be_value(data.subrange(5, 9)) {
        Err(
            ProtocolError::LengthMismatch {
                expected: be_value(data.subrange(5, 9)) as usize,
                actual: (data.len() - HEADER_SIZE) as usize,
            },
        )
    } else {
        Ok(data.subrange(HEADER_SIZE as int, data.len() as int))
    }
}

/// The view of an unframing result.
pub open spec fn payload_view(r: Result<Vec<u8>, ProtocolError>) -> Result<Seq<u8>, ProtocolError> {
    match r {
        Ok(v) => Ok(v@),
        Err(e) => Err(e),
    }
}

/// Checks a frame and returns its JSON payload.
///
/// # Errors
///
/// [`ProtocolError::LengthMismatch`] if `data` is shorter than the header or the payload
/// length differs from the header's length field, [`ProtocolError::InvalidMagic`] if the
/// first five bytes are not `MAGIC`.
pub fn deserialize(data: &[u8]) -> (res: Result<Vec<u8>, ProtocolError>)
    ensures
        payload_view(res) == unframe(data@),
{
    if data.len() < HEADER_SIZE {
        return Err(ProtocolError::LengthMismatch { expected: HEADER_SIZE, actual: data.len() });
    }
    if !(data[0] == MAGIC[0] && data[1] == MAGIC[1] && data[2] == MAGIC[2] && data[3] == MAGIC[3]
        && data[4] == MAGIC[4]) {
        proof {
            if data@.subrange(0, 5) == magic_bytes() {
                assert(data@.subrange(0, 5)[0] == data@[0]);
                assert(data@.subrange(0, 5)[1] == data@[1]);
                assert(data@.subrange(0, 5)[2] == data@[2]);
                assert(data@.subrange(0, 5)[3] == data@[3]);
                assert(data@.subrange(0, 5)[4] == data@[4]);
            }
        }
        return Err(ProtocolError::InvalidMagic);
    }
    assert(data@.subrange(0, 5) =~= magic_bytes());
    let payload_len: usize = (data[5] as u32 * 0x100_0000 + data[6] as u32 * 0x1_0000 + data[7] as u32
        * 0x100 + data[8] as u32) as usize;
    assert(payload_len == be_value(data@.subrange(5, 9)));
    let actual: usize = data.len() - HEADER_SIZE;
    if actual != payload_len {
        return Err(ProtocolError::LengthMismatch { expected: payload_len, actual });
    }
    let mut payload: Vec<u8> = Vec::new();
    let mut i: usize = HEADER_SIZE;
    while i < data.len()
        invariant
            HEADER_SIZE <= i <= data.len(),
            payload@ == data@.subrange(HEADER_SIZE as int, i as int),
        decreases data.len() - i,
    {
        payload.push(data[i]);
        i = i + 1;
        assert(payload@ =~= data@.subrange(HEADER_SIZE as int, i as int));
    }
    Ok(payload)
}

/// Unframing a frame gives back its payload, for every payload whose length fits the
/// 32-bit length field.
pub proof fn lemma_unframe_frame(payload: Seq<u8>)
    requires
        payload.len() <= u32::MAX,
    ensures
        unframe(frame(payload)) == Ok::<Seq<u8>, ProtocolError>(payload),
{
    let f = frame(payload);
    let len = length_field(payload.len());
    assert(len == payload.len());
    assert(f.subrange(0, 5) =~= magic_bytes());
    assert(f.subrange(5, 9) =~= be_bytes(len));
    lemma_be_roundtrip(len);
    assert(f.subrange(HEADER_SIZE as int, f.len() as int) =~= payload);
}

/// A frame whose first byte no longer reads `M` is refused as [`ProtocolError::InvalidMagic`].
pub proof fn lemma_corrupted_magic(payload: Seq<u8>, first: u8)
    requires
        first != MAGIC[0],
    ensures
        unframe(frame(payload).update(0, first)) == Err::<Seq<u8>, ProtocolError>(
            ProtocolError::InvalidMagic,
        ),
{
    let g = frame(payload).update(0, first);
    assert(g.subrange(0, 5)[0] == first);
}

/// A frame that lost its last byte is refused as [`ProtocolError::LengthMismatch`], naming
/// the length in the header and the length that arrived.
pub proof fn lemma_truncated_frame(payload: Seq<u8>)
    requires
        0 < payload.len() <= u32::MAX,
    ensures
        unframe(frame(payload).drop_last()) == Err::<Seq<u8>, ProtocolError>(
            ProtocolError::LengthMismatch {
                expected: payload.len() as usize,
                actual: (payload.len() - 1) as usize,
            },
        ),
{
    let f = frame(payload);
    let g = f.drop_last();
    let len = length_field(payload.len());
    assert(g.subrange(0, 5) =~= magic_bytes());
    assert(g.subrange(5, 9) =~= be_bytes(len));
    lemma_be_roundtrip(len);
}

} // verus!
