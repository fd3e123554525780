//! The receiver's side of a connection: it answers key exchanges, accepts transfer
//! requests and stops on cancellation.
use crate::network::key_exchange::{
    diffie_hellman, new_ephemeral_secret, public_key_of, spec_x25519_public, spec_x25519_shared,
    KeyGenerationError,
};
use crate::protocol::{message_of, Message, MessageType};
use vstd::prelude::*;

verus! {

/// The state of an incoming connection: the session key agreed so far (all zeros before
/// any key exchange).
pub struct Connection {
    key: [u8; 32],
}

/// What the receiver does after a message.
#[derive(Debug)]
pub enum ConnectionAction {
    /// Send this answer (the receiver's public key) and go on reading.
    Reply(Message),
    /// Send this answer (an acceptance), then receive the named file of the given size,
    /// decrypting with the session key and checking it against the announced digest.
    Receive { reply: Message, file_name: String, size: u64, hash: String, key: [u8; 32] },
    /// The sender cancelled: close the connection.
    Close,
    /// No ephemeral secret could be drawn (the random source failed, with this message):
    /// close the connection.
    KeyGenerationFailed(String),
    /// The message has no meaning here: go on reading.
    Ignore,
}

impl Connection {
    /// A connection before any key exchange: the key is all zeros.
    pub fn new() -> (conn: Connection)
        ensures
            conn.key() == Seq::new(32, |i: int| 0u8),
    {
        let conn = Connection { key: [0u8; 32] };
        assert(conn.key@ =~= Seq::new(32, |i: int| 0u8));
        conn
    }

    /// The session key.
    pub closed spec fn key(&self) -> Seq<u8> {
        self.key@
    }

    /// Handles one message of the sender.
    ///
    /// A key exchange clears the session key and draws a fresh secret `s`; where no secret
    /// can be drawn, the connection closes with the key cleared. Otherwise it is answered with
    /// the public key of `s` and the session key becomes the shared secret of `s` with the
    /// sender's key; where the sender's key is the public key of a secret `a`, that is also
    /// what `a` computes with the answer, so both sides hold the same key.
    ///
    /// A request is accepted, always, and hands over its digest and the session key; a
    /// cancellation closes; anything else is ignored.
    pub fn on_message(&mut self, msg: Message) -> (action: ConnectionAction)
        ensures
            match msg.msg_type {
                MessageType::KeyExchange { public_key: peer } => (action is KeyGenerationFailed
                    && final(self).key() == Seq::new(32, |i: int| 0u8)) || {
                    &&& action matches ConnectionAction::Reply(r)
                    &&& r matches Message {
                        version: 1,
                        msg_type: MessageType::KeyExchange { public_key: own },
                    }
                    &&& exists|s: x25519_dalek::EphemeralSecret|
                        #![trigger spec_x25519_public(s)]
                        own@ == spec_x25519_public(s) && final(self).key()
                            == spec_x25519_shared(s, peer@)
                    &&& forall|a: x25519_dalek::EphemeralSecret|
                        #[trigger] spec_x25519_public(a) == peer@ ==> final(self).key()
                            == spec_x25519_shared(a, own@)
                },
                MessageType::Request { file_name, size, hash } => {
                    &&& action matches ConnectionAction::Receive { reply, file_name: n, size: s, hash: h, key }
                    &&& reply == message_of(MessageType::Accept)
                    &&& n == file_name
                    &&& s == size
                    &&& h == hash
                    &&& key@ == old(self).key()
                    &&& final(self).key() == old(self).key()
                },
                MessageType::Cancel => action is Close && final(self).key() == old(self).key(),
                _ => action is Ignore && final(self).key() == old(self).key(),
            },
    {
        match msg.msg_type {
            MessageType::KeyExchange { public_key } => {
                self.key = [0u8; 32];
                let secret = match new_ephemeral_secret() {
                    Ok(s) => s,
                    Err(KeyGenerationError::Rng(text)) => {
                        assert(self.key@ =~= Seq::new(32, |i: int| 0u8));
                        return ConnectionAction::KeyGenerationFailed(text);
                    },
                };
                let own_public = public_key_of(&secret);
                let reply = Message::new(MessageType::KeyExchange { public_key: own_public });
                self.key = diffie_hellman(secret, public_key);
                ConnectionAction::Reply(reply)
            },
            MessageType::Request { file_name, size, hash } => {
                let reply = Message::new(MessageType::Accept);
                ConnectionAction::Receive { reply, file_name, size, hash, key: self.key }
            },
            MessageType::Cancel => ConnectionAction::Close,
            _ => ConnectionAction::Ignore,
        }
    }
}

} // verus!
