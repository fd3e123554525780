//! The chunked transfer of a file, encrypted with the session key and acknowledged
//! chunk by chunk.
pub mod receive;
pub mod send;

use crate::file_transfer::receive::ack_message;
use crate::file_transfer::send::{ack_outcome, AckOutcome};
use crate::protocol::MessageType;
use vstd::prelude::*;

verus! {

/// The acknowledgment that the receiver sends for `len` bytes that arrived at `offset` (as
/// [`receive::Receiver::on_message`] ensures) is read by the sender of those bytes as leave
/// to go on from the offset after them, and the sender reads no other acknowledgment so.
pub proof fn lemma_chunk_exchange(offset: u64, len: nat, got: u64)
    requires
        offset + len <= u64::MAX,
    ensures
        ack_outcome(offset, len as u64, ack_message(offset, len).msg_type)
            == AckOutcome::Continue((offset + len) as u64),
        got != offset + len ==> ack_outcome(offset, len as u64, MessageType::Ack { offset: got })
            is OffsetMismatch,
{
}

} // verus!
