//! The decisions of both peers: reading frame headers, the X25519 key exchange, the
//! sender's request and the receiver's handling of a connection.
pub mod client;
pub mod io;
pub mod listener;
pub mod key_exchange;

use crate::network::key_exchange::{spec_x25519_public, spec_x25519_shared};
use vstd::prelude::*;

verus! {

/// Both sides of an exchange hold the same key. The sender, with secret `a`, keeps
/// the shared secret of `a` with the receiver's answer (as
/// [`client::ClientHandshake::finish`] ensures); the receiver keeps a key that every secret
/// whose public key it was sent would compute with its answer (as
/// [`listener::Connection::on_message`] ensures), and it was sent the public key of `a`.
pub proof fn lemma_key_agreement(
    a: x25519_dalek::EphemeralSecret,
    answer: Seq<u8>,
    sender_key: Seq<u8>,
    receiver_key: Seq<u8>,
)
    requires
        sender_key == spec_x25519_shared(a, answer),
        forall|x: x25519_dalek::EphemeralSecret|
            #[trigger] spec_x25519_public(x) == spec_x25519_public(a) ==> receiver_key
                == spec_x25519_shared(x, answer),
    ensures
        sender_key == receiver_key,
{
    assert(spec_x25519_public(a) == spec_x25519_public(a));
}

} // verus!
