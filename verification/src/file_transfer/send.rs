//! The sender's side of a transfer: the file goes out in encrypted chunks, each
//! acknowledged by the receiver with the offset it has reached.
use crate::protocol::{message_of, Message, MessageType};
use crate::security::{
    decryption, draw_nonce, encrypt_with_draw, spec_aes256gcm_encrypt, SecurityError, MAX_PLAINTEXT,
    NONCE_SIZE, TAG_SIZE,
};
use vstd::prelude::*;

verus! {

/// The size of the chunks that the file is read in: 256 KiB.
pub const CHUNK_SIZE: usize = 262_144;

/// Encrypts one chunk of the file under the session key with the outcome of a nonce draw
/// (see [`encrypt_with_draw`]) and wraps it as a [`MessageType::Chunk`] at `offset`.
///
/// It succeeds exactly when the draw succeeded and the chunk is at most 2^36 bytes long.
///
/// # Errors
///
/// [`SecurityError::RngError`] with the draw's message exactly when the draw failed,
/// [`SecurityError::EncryptionFailed`] for a chunk longer than 2^36 bytes.
pub fn chunk_message_with_draw(
    chunk: &[u8],
    key: &[u8; 32],
    offset: u64,
    draw: Result<[u8; 12], String>,
) -> (res: Result<Message, SecurityError>)
    ensures
        res is Ok <==> (draw is Ok && chunk@.len() <= MAX_PLAINTEXT),
        draw matches Err(m) ==> res == Err::<Message, SecurityError>(SecurityError::RngError(m)),
        res matches Err(SecurityError::RngError(m)) ==> draw == Err::<[u8; 12], String>(m),
        draw matches Ok(nonce) ==> (res matches Ok(msg) ==> msg.msg_type matches MessageType::Chunk {
            data,
            ..
        } && data@ == nonce@ + spec_aes256gcm_encrypt(key@, nonce@, chunk@)),
        res matches Ok(m) ==> {
            &&& m.version == 1
            &&& m.msg_type matches MessageType::Chunk { offset: o, data }
            &&& o == offset
            &&& data@.len() == NONCE_SIZE + chunk@.len() + TAG_SIZE
            &&& decryption(data@, key@) == Ok::<Seq<u8>, SecurityError>(chunk@)
        },
        res matches Err(e) ==> e is RngError || (chunk@.len() > MAX_PLAINTEXT && (
        e matches SecurityError::EncryptionFailed(text) && text@ == "aead::Error"@)),
{
    match encrypt_with_draw(chunk, key, draw) {
        Ok(data) => Ok(Message::new(MessageType::Chunk { offset, data })),
        Err(e) => Err(e),
    }
}

/// Encrypts one chunk of the file under the session key, with a nonce drawn from the
/// operating system's random source, and wraps it as a [`MessageType::Chunk`] at `offset`.
///
/// # Errors
///
/// Those of [`chunk_message_with_draw`]: [`SecurityError::RngError`] if no nonce could be
/// drawn, [`SecurityError::EncryptionFailed`] for a chunk longer than 2^36 bytes.
pub fn chunk_message(chunk: &[u8], key: &[u8; 32], offset: u64) -> (res: Result<Message, SecurityError>)
    ensures
        res matches Ok(m) ==> {
            &&& m.version == 1
            &&& m.msg_type matches MessageType::Chunk { offset: o, data }
            &&& o == offset
            &&& data@.len() == NONCE_SIZE + chunk@.len() + TAG_SIZE
            &&& decryption(data@, key@) == Ok::<Seq<u8>, SecurityError>(chunk@)
        },
        res matches Err(e) ==> e is RngError || (chunk@.len() > MAX_PLAINTEXT && (
        e matches SecurityError::EncryptionFailed(text) && text@ == "aead::Error"@)),
        res matches Err(SecurityError::RngError(m)) ==> m@.len() > 0,
        chunk@.len() > MAX_PLAINTEXT ==> res is Err,
{
    let draw = draw_nonce();
    chunk_message_with_draw(chunk, key, offset, draw)
}

/// The message that ends a transfer.
pub fn complete_message() -> (m: Message)
    ensures
        m == message_of(MessageType::Complete),
{
    Message::new(MessageType::Complete)
}

/// What the sender does with what it read from the file.
#[derive(Debug)]
pub enum SendStep {
    /// The file is exhausted: send this completion and stop.
    Finish(Message),
    /// Send this chunk and wait for its acknowledgment.
    Send(Message),
}

/// Decides what follows a read of `chunk` from the file at `offset`, given the outcome of a
/// nonce draw: an empty read ends the transfer with a completion (the draw is not used),
/// anything else goes out as [`chunk_message_with_draw`] of it.
///
/// A non-empty read gives `Send` exactly when the draw succeeded and the chunk is at most
/// 2^36 bytes long.
///
/// # Errors
///
/// Those of [`chunk_message_with_draw`], for a non-empty read.
pub fn on_read_with_draw(
    chunk: &[u8],
    key: &[u8; 32],
    offset: u64,
    draw: Result<[u8; 12], String>,
) -> (res: Result<SendStep, SecurityError>)
    ensures
        chunk@.len() == 0 ==> res == Ok::<SendStep, SecurityError>(
            SendStep::Finish(message_of(MessageType::Complete)),
        ),
        chunk@.len() > 0 ==> (res is Ok <==> (draw is Ok && chunk@.len() <= MAX_PLAINTEXT)),
        chunk@.len() > 0 ==> !(res matches Ok(SendStep::Finish(_))),
        chunk@.len() > 0 ==> (draw matches Err(m) ==> res == Err::<SendStep, SecurityError>(
            SecurityError::RngError(m),
        )),
        res matches Err(SecurityError::RngError(m)) ==> draw == Err::<[u8; 12], String>(m),
        chunk@.len() > 0 ==> (draw matches Ok(nonce) ==> (res matches Ok(SendStep::Send(msg))
            ==> msg.msg_type matches MessageType::Chunk { data, .. } && data@ == nonce@
            + spec_aes256gcm_encrypt(key@, nonce@, chunk@))),
        chunk@.len() > 0 ==> (res matches Ok(SendStep::Send(m)) ==> {
            &&& m.version == 1
            &&& m.msg_type matches MessageType::Chunk { offset: o, data }
            &&& o == offset
            &&& data@.len() == NONCE_SIZE + chunk@.len() + TAG_SIZE
            &&& decryption(data@, key@) == Ok::<Seq<u8>, SecurityError>(chunk@)
        }),
        res matches Err(e) ==> e is RngError || (chunk@.len() > MAX_PLAINTEXT && (
        e matches SecurityError::EncryptionFailed(text) && text@ == "aead::Error"@)),
{
    if chunk.len() == 0 {
        return Ok(SendStep::Finish(complete_message()));
    }
    match chunk_message_with_draw(chunk, key, offset, draw) {
        Ok(m) => Ok(SendStep::Send(m)),
        Err(e) => Err(e),
    }
}

/// Decides what follows a read of `chunk` from the file at `offset`: an empty read ends the
/// transfer with a completion, anything else goes out encrypted as a chunk, with a nonce
/// drawn from the operating system's random source.
///
/// # Errors
///
/// Those of [`chunk_message`].
pub fn on_read(chunk: &[u8], key: &[u8; 32], offset: u64) -> (res: Result<SendStep, SecurityError>)
    ensures
        chunk@.len() == 0 ==> res == Ok::<SendStep, SecurityError>(
            SendStep::Finish(message_of(MessageType::Complete)),
        ),
        chunk@.len() > 0 ==> (res matches Ok(SendStep::Send(m)) ==> {
            &&& m.version == 1
            &&& m.msg_type matches MessageType::Chunk { offset: o, data }
            &&& o == offset
            &&& data@.len() == NONCE_SIZE + chunk@.len() + TAG_SIZE
            &&& decryption(data@, key@) == Ok::<Seq<u8>, SecurityError>(chunk@)
        }),
        chunk@.len() > 0 ==> !(res matches Ok(SendStep::Finish(_))),
        res matches Err(e) ==> e is RngError || (chunk@.len() > MAX_PLAINTEXT && (
        e matches SecurityError::EncryptionFailed(text) && text@ == "aead::Error"@)),
        res matches Err(SecurityError::RngError(m)) ==> m@.len() > 0,
        chunk@.len() > MAX_PLAINTEXT ==> res is Err,
{
    if chunk.len() == 0 {
        return Ok(SendStep::Finish(complete_message()));
    }
    let draw = draw_nonce();
    on_read_with_draw(chunk, key, offset, draw)
}

/// What the sender does after the receiver's answer to a chunk.
#[derive(Debug, PartialEq, Eq)]
pub enum AckOutcome {
    /// The chunk was acknowledged: go on from this offset.
    Continue(u64),
    /// The receiver cancelled: stop, successfully.
    Cancelled,
    /// The acknowledgment names another offset than the one reached.
    OffsetMismatch { expected: u64, got: u64 },
    /// The receiver answered with another message.
    Unexpected(MessageType),
}

/// The sender's reading of the answer to a chunk of `sent` bytes sent at `offset`.
pub open spec fn ack_outcome(offset: u64, sent: u64, response: MessageType) -> AckOutcome {
    match response {
        MessageType::Ack { offset: got } => {
            let expected = (offset + sent) as u64;
            if got == expected {
                AckOutcome::Continue(got)
            } else {
                AckOutcome::OffsetMismatch { expected, got }
            }
        },
        MessageType::Cancel => AckOutcome::Cancelled,
        other => AckOutcome::Unexpected(other),
    }
}

/// Reads the receiver's answer to a chunk of `sent` bytes sent at `offset`: an
/// acknowledgment must name the offset after the chunk.
pub fn on_response(offset: u64, sent: usize, response: Message) -> (outcome: AckOutcome)
    requires
        response.msg_type is Ack ==> offset + sent <= u64::MAX,
    ensures
        outcome == ack_outcome(offset, sent as u64, response.msg_type),
{
    match response.msg_type {
        MessageType::Ack { offset: got } => {
            let expected = offset + sent as u64;
            if got == expected {
                AckOutcome::Continue(got)
            } else {
                AckOutcome::OffsetMismatch { expected, got }
            }
        },
        MessageType::Cancel => AckOutcome::Cancelled,
        other => AckOutcome::Unexpected(other),
    }
}

} // verus!
