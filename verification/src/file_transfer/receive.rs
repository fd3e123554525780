//! The receiver's side of a transfer: each chunk is decrypted with the session key,
//! handed out to be written, and acknowledged with the offset after it; at the end the
//! SHA-256 digest of all that arrived must be the one the request announced.
use crate::protocol::{message_of, Message, MessageType};
use crate::security::{decrypt, decryption, lower_hex, spec_sha256, FileDigest, SecurityError};
use vstd::prelude::*;

verus! {

/// The progress of a transfer: how many decrypted bytes have arrived, their running
/// digest, and the digest that the request announced.
pub struct Receiver {
    received_bytes: u64,
    digest: FileDigest,
    expected_hash: String,
}

/// What the receiver does after a message.
#[derive(Debug)]
pub enum ReceiveAction {
    /// Write these decrypted bytes to the file, then send this acknowledgment.
    Write { plaintext: Vec<u8>, ack: Message },
    /// The sender finished and what arrived has the announced digest: flush the file and
    /// stop.
    Finished,
    /// The sender cancelled: stop.
    Cancelled,
}

/// Why the transfer failed.
#[derive(Debug)]
pub enum ReceiveError {
    /// A chunk did not decrypt.
    Decryption(SecurityError),
    /// The acknowledged offset or the byte count would pass `u64::MAX`.
    CountOverflow,
    /// The sender sent a message that has no place in a transfer.
    Unexpected(MessageType),
    /// The sender finished, but the digest of what arrived (`actual`, lower-case hex) is not
    /// the one the request announced (`expected`).
    IntegrityMismatch { expected: String, actual: String },
}

/// The acknowledgment of `len` bytes that arrived at `offset`.
pub open spec fn ack_message(offset: u64, len: nat) -> Message {
    message_of(MessageType::Ack { offset: (offset + len) as u64 })
}

impl Receiver {
    /// A transfer that has received nothing yet, of a file announced with the digest
    /// `expected_hash` (lower-case hex SHA-256).
    pub fn new(expected_hash: String) -> (r: Receiver)
        ensures
            r.received() == 0,
            r.received_data() == Seq::<u8>::empty(),
            r.expected_hash() == expected_hash@,
    {
        Receiver { received_bytes: 0, digest: FileDigest::new(), expected_hash }
    }

    /// The number of decrypted bytes received.
    pub closed spec fn received(&self) -> nat {
        self.received_bytes as nat
    }

    /// The decrypted bytes received, in order.
    pub closed spec fn received_data(&self) -> Seq<u8> {
        self.digest.absorbed()
    }

    /// The digest that the request announced.
    pub closed spec fn expected_hash(&self) -> Seq<char> {
        self.expected_hash@
    }

    /// The number of decrypted bytes received.
    pub fn received_bytes(&self) -> (n: u64)
        ensures
            n == self.received(),
    {
        self.received_bytes
    }

    /// Takes in the decrypted bytes of a chunk that arrived at `offset`: counts them, adds
    /// them to the received data, and hands them out with the acknowledgment of the offset after them.
    ///
    /// # Errors
    ///
    /// [`ReceiveError::CountOverflow`] where the acknowledged offset or the count of received
    /// bytes would pass `u64::MAX`; nothing is counted then.
    pub fn accept_chunk(&mut self, offset: u64, plaintext: Vec<u8>) -> (res: Result<ReceiveAction, ReceiveError>)
        ensures
            final(self).expected_hash() == old(self).expected_hash(),
            if offset + plaintext@.len() > u64::MAX || old(self).received() + plaintext@.len() > u64::MAX {
                &&& res matches Err(ReceiveError::CountOverflow)
                &&& final(self).received() == old(self).received()
                &&& final(self).received_data() == old(self).received_data()
            } else {
                &&& res matches Ok(ReceiveAction::Write { plaintext: p, ack })
                &&& p@ == plaintext@
                &&& ack == ack_message(offset, plaintext@.len())
                &&& final(self).received() == old(self).received() + plaintext@.len()
                &&& final(self).received_data() == old(self).received_data() + plaintext@
            },
    {
        let len: u64 = plaintext.len() as u64;
        if len > u64::MAX - offset || len > u64::MAX - self.received_bytes {
            return Err(ReceiveError::CountOverflow);
        }
        self.received_bytes = self.received_bytes + len;
        self.digest.update(&plaintext);
        let ack = Message::new(MessageType::Ack { offset: offset + len });
        Ok(ReceiveAction::Write { plaintext, ack })
    }

    /// Handles one message of the sender, decrypting chunks with `key`.
    ///
    /// A chunk at offset `o` that decrypts to `p` is handed out with the acknowledgment of
    /// offset `o + p.len()`, and the count of received bytes grows by `p.len()`; a completion
    /// finishes the transfer where the digest of all that arrived is the announced one, and a
    /// cancellation stops it.
    ///
    /// # Errors
    ///
    /// [`ReceiveError::Decryption`] for a chunk that does not decrypt,
    /// [`ReceiveError::CountOverflow`] where the acknowledged offset or the count of received
    /// bytes would pass `u64::MAX`, [`ReceiveError::IntegrityMismatch`] for a completion
    /// whose digest differs from the announced one, [`ReceiveError::Unexpected`] for any
    /// other message.
    pub fn on_message(&mut self, msg: Message, key: &[u8; 32]) -> (res: Result<ReceiveAction, ReceiveError>)
        ensures
            final(self).expected_hash() == old(self).expected_hash(),
            match msg.msg_type {
                MessageType::Chunk { offset, data } => match decryption(data@, key@) {
                    Ok(p) => if offset + p.len() > u64::MAX || old(self).received() + p.len() > u64::MAX {
                        &&& res matches Err(ReceiveError::CountOverflow)
                        &&& final(self).received() == old(self).received()
                        &&& final(self).received_data() == old(self).received_data()
                    } else {
                        &&& res matches Ok(ReceiveAction::Write { plaintext, ack })
                        &&& plaintext@ == p
                        &&& ack == ack_message(offset, p.len())
                        &&& final(self).received() == old(self).received() + p.len()
                        &&& final(self).received_data() == old(self).received_data() + p
                    },
                    Err(e) => res == Err::<ReceiveAction, ReceiveError>(ReceiveError::Decryption(e))
                        && final(self).received() == old(self).received()
                        && final(self).received_data() == old(self).received_data(),
                },
                MessageType::Complete => {
                    &&& final(self).received() == old(self).received()
                    &&& final(self).received_data() == old(self).received_data()
                    &&& if lower_hex(spec_sha256(old(self).received_data())) == old(self).expected_hash() {
                        res matches Ok(ReceiveAction::Finished)
                    } else {
                        res matches Err(ReceiveError::IntegrityMismatch { expected, actual })
                            && expected@ == old(self).expected_hash()
                            && actual@ == lower_hex(spec_sha256(old(self).received_data()))
                    }
                },
                MessageType::Cancel => res matches Ok(ReceiveAction::Cancelled) && final(self).received()
                    == old(self).received() && final(self).received_data() == old(self).received_data(),
                other => res == Err::<ReceiveAction, ReceiveError>(ReceiveError::Unexpected(other))
                    && final(self).received() == old(self).received() && final(self).received_data()
                    == old(self).received_data(),
            },
    {
        match msg.msg_type {
            MessageType::Chunk { offset, data } => {
                match decrypt(&data, key) {
                    Ok(plaintext) => self.accept_chunk(offset, plaintext),
                    Err(e) => Err(ReceiveError::Decryption(e)),
                }
            },
            MessageType::Complete => {
                let actual = self.digest.hex();
                if actual == self.expected_hash {
                    Ok(ReceiveAction::Finished)
                } else {
                    Err(ReceiveError::IntegrityMismatch { expected: self.expected_hash.clone(), actual })
                }
            },
            MessageType::Cancel => Ok(ReceiveAction::Cancelled),
            other => Err(ReceiveError::Unexpected(other)),
        }
    }
}

} // verus!
