//! Reading frames from a stream: the fixed header tells how long the payload is.
use crate::protocol::{
    be_bytes, be_value, frame, length_field, lemma_be_roundtrip, lemma_unframe_frame, magic_bytes,
    unframe, ProtocolError, HEADER_SIZE, MAGIC,
};
use vstd::prelude::*;

verus! {

/// What the header of a frame says: the payload length, or
/// [`ProtocolError::InvalidMagic`] when it does not open with `MAGIC`.
pub open spec fn header_length(header: Seq<u8>) -> Result<usize, ProtocolError> {
    if header.subrange(0, 5) == magic_bytes() {
        Ok(be_value(header.subrange(5, 9)) as usize)
    } else {
        Err(ProtocolError::InvalidMagic)
    }
}

/// Reads the fixed 9-byte header of a frame (magic and big-endian length) and returns the
/// length of the payload that follows.
///
/// # Errors
///
/// [`ProtocolError::InvalidMagic`] if the header does not open with `MAGIC`.
pub fn payload_length(header: &[u8; HEADER_SIZE]) -> (res: Result<usize, ProtocolError>)
    ensures
        res == header_length(header@),
{
    if !(header[0] == MAGIC[0] && header[1] == MAGIC[1] && header[2] == MAGIC[2] && header[3]
        == MAGIC[3] && header[4] == MAGIC[4]) {
        proof {
            if header@.subrange(0, 5) == magic_bytes() {
                assert(header@.subrange(0, 5)[0] == header@[0]);
                assert(header@.subrange(0, 5)[1] == header@[1]);
                assert(header@.subrange(0, 5)[2] == header@[2]);
                assert(header@.subrange(0, 5)[3] == header@[3]);
                assert(header@.subrange(0, 5)[4] == header@[4]);
            }
        }
        return Err(ProtocolError::InvalidMagic);
    }
    assert(header@.subrange(0, 5) =~= magic_bytes());
    let len: usize = (header[5] as u32 * 0x100_0000 + header[6] as u32 * 0x1_0000 + header[7] as u32
        * 0x100 + header[8] as u32) as usize;
    assert(len == be_value(header@.subrange(5, 9)));
    Ok(len)
}

} // verus!

verus! {

/// Reading a frame as the stream reader does, header first and then as many payload bytes
/// as the header announces, and unframing header and payload together, gives back the
/// payload that was framed (for payloads whose length fits the 32-bit length field).
pub proof fn lemma_read_frame(payload: Seq<u8>)
    requires
        payload.len() <= u32::MAX,
    ensures
        header_length(frame(payload).take(HEADER_SIZE as int)) == Ok::<usize, ProtocolError>(
            payload.len() as usize,
        ),
        frame(payload).take(HEADER_SIZE as int) + frame(payload).skip(HEADER_SIZE as int) == frame(payload),
        frame(payload).skip(HEADER_SIZE as int) == payload,
        unframe(frame(payload)) == Ok::<Seq<u8>, ProtocolError>(payload),
{
    let f = frame(payload);
    let h = f.take(HEADER_SIZE as int);
    assert(h.subrange(0, 5) =~= f.subrange(0, 5));
    assert(h.subrange(5, 9) =~= f.subrange(5, 9));
    lemma_unframe_frame(payload);
    assert(f.subrange(0, 5) =~= magic_bytes());
    assert(f.subrange(5, 9) =~= be_bytes(length_field(payload.len())));
    lemma_be_roundtrip(length_field(payload.len()));
    assert(f.skip(HEADER_SIZE as int) =~= payload);
    assert(h + f.skip(HEADER_SIZE as int) =~= f);
}

} // verus!
