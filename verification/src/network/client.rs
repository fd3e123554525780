//! The sender's side of a connection: the key exchange, the transfer request and the
//! reading of the receiver's answer.
use crate::network::key_exchange::{
    diffie_hellman, new_ephemeral_secret, public_key_of, spec_x25519_public, spec_x25519_shared,
    KeyGenerationError,
};
use crate::protocol::{message_of, Message, MessageType};
use vstd::prelude::*;
use vstd::string::StringExecFns;

verus! {

/// Why the key exchange failed.
#[derive(Debug)]
pub enum HandshakeError {
    /// The peer answered with something other than its public key.
    ExpectedKeyExchange,
    /// No ephemeral secret could be drawn: the random source failed, with this message.
    KeyGeneration(String),
}

/// The peer's public key, from its answer to the key exchange.
///
/// # Errors
///
/// [`HandshakeError::ExpectedKeyExchange`] exactly when the answer is not a
/// [`MessageType::KeyExchange`].
pub fn peer_public_key(response: Message) -> (res: Result<[u8; 32], HandshakeError>)
    ensures
        match response.msg_type {
            MessageType::KeyExchange { public_key } => res == Ok::<[u8; 32], HandshakeError>(public_key),
            _ => res == Err::<[u8; 32], HandshakeError>(HandshakeError::ExpectedKeyExchange),
        },
{
    match response.msg_type {
        MessageType::KeyExchange { public_key } => Ok(public_key),
        _ => Err(HandshakeError::ExpectedKeyExchange),
    }
}

/// The sender's half of an X25519 exchange: its ephemeral secret, waiting for the peer's
/// public key.
pub struct ClientHandshake {
    secret: x25519_dalek::EphemeralSecret,
}

impl ClientHandshake {
    /// The ephemeral secret drawn for this exchange.
    pub closed spec fn secret(&self) -> x25519_dalek::EphemeralSecret {
        self.secret
    }

    /// Generates an ephemeral key pair and returns the handshake together with the
    /// [`MessageType::KeyExchange`] message that carries its public key.
    ///
    /// # Errors
    ///
    /// [`HandshakeError::KeyGeneration`] if the random source fails.
    pub fn start() -> (res: Result<(ClientHandshake, Message), HandshakeError>)
        ensures
            res matches Ok((hs, msg)) ==> msg matches Message {
                version: 1,
                msg_type: MessageType::KeyExchange { public_key },
            } && public_key@ == spec_x25519_public(hs.secret()),
            res matches Err(e) ==> e is KeyGeneration,
    {
        let secret = match new_ephemeral_secret() {
            Ok(s) => s,
            Err(KeyGenerationError::Rng(text)) => return Err(HandshakeError::KeyGeneration(text)),
        };
        let public_key = public_key_of(&secret);
        let msg = Message::new(MessageType::KeyExchange { public_key });
        Ok((ClientHandshake { secret }, msg))
    }

    /// Completes the exchange with the peer's answer: computes the 32-byte shared secret
    /// of this handshake's secret with the peer's public key.
    ///
    /// Where the peer's key is the public key of a secret `b`, the key is also what `b`
    /// computes with this handshake's public key: both sides agree.
    ///
    /// # Errors
    ///
    /// [`HandshakeError::ExpectedKeyExchange`] exactly when the answer is not a
    /// [`MessageType::KeyExchange`].
    pub fn finish(self, response: Message) -> (res: Result<[u8; 32], HandshakeError>)
        ensures
            res is Ok <==> response.msg_type is KeyExchange,
            response.msg_type matches MessageType::KeyExchange { public_key } ==> {
                &&& res matches Ok(key)
                &&& key@ == spec_x25519_shared(self.secret(), public_key@)
                &&& forall|b: x25519_dalek::EphemeralSecret|
                    #[trigger] spec_x25519_public(b) == public_key@ ==> key@ == spec_x25519_shared(
                        b,
                        spec_x25519_public(self.secret()),
                    )
            },
    {
        match peer_public_key(response) {
            Ok(public_key) => Ok(diffie_hellman(self.secret, public_key)),
            Err(e) => Err(e),
        }
    }
}

/// Builds the transfer request from the file name found in the path (`None` where the path
/// names no file), the file's size and its digest.
pub fn request_message(file_name: Option<String>, size: u64, hash: String) -> (msg: Message)
    ensures
        msg.version == 1,
        msg.msg_type matches MessageType::Request { file_name: n, size: s, hash: h } && s == size
            && h@ == hash@ && n@ == (match file_name {
            Some(found) => found@,
            None => "unknown"@,
        }),
{
    let file_name = match file_name {
        Some(n) => n,
        None => String::from_str("unknown"),
    };
    Message::new(MessageType::Request { file_name, size, hash })
}

/// Whether the component of `path` that starts at `k` is its last: `k` is at the start of
/// the path or just after a `/`, and no `/` follows.
pub open spec fn last_component_at(path: Seq<char>, k: int) -> bool {
    &&& 0 <= k <= path.len()
    &&& k == 0 || path[k - 1] == '/'
    &&& forall|j: int| k <= j < path.len() ==> path[j] != '/'
}

/// A path has at most one last component that is not empty: the text after its last `/`.
pub proof fn last_component_unique(path: Seq<char>, k1: int, k2: int)
    requires
        last_component_at(path, k1),
        last_component_at(path, k2),
        k1 < path.len(),
        k2 < path.len(),
    ensures
        k1 == k2,
{
    if k1 < k2 {
        assert(path[k2 - 1] == '/');
    } else if k2 < k1 {
        assert(path[k1 - 1] == '/');
    }
}

/// Whether `path` reads alike wherever paths are split by `/`: it has no `\` and no `:`,
/// and does not begin with `//`.
pub open spec fn plain_slash_path(path: Seq<char>) -> bool {
    &&& forall|j: int| 0 <= j < path.len() ==> path[j] != '\\' && path[j] != ':'
    &&& !(path.len() >= 2 && path[0] == '/' && path[1] == '/')
}

/// Whether the text of `path` from `k` on is a file name: its last component, neither
/// empty nor `.` nor `..`, in a path split by `/` alone.
pub open spec fn file_name_at(path: Seq<char>, k: int) -> bool {
    &&& last_component_at(path, k)
    &&& k < path.len()
    &&& plain_slash_path(path)
    &&& path.subrange(k, path.len() as int) != "."@
    &&& path.subrange(k, path.len() as int) != ".."@
}

/// Calls `std::path::Path::file_name` on `path` and returns the name as a `String`. The
/// name is a non-empty run of the path's characters, and an empty path has none. Where the
/// path ends in a component that is a file name (the text after its last `/`, neither `.`
/// nor `..`) and holds nothing that a platform reads as a prefix or another separator, the
/// name is that component. What it gives for other paths is left unsaid.
#[verifier::external_body]
fn path_file_name(path: &str) -> (name: Option<String>)
    ensures
        path@.len() == 0 ==> name is None,
        name matches Some(n) ==> n@.len() > 0 && exists|i: int|
            0 <= i && i + n@.len() <= path@.len() && #[trigger] path@.subrange(i, i + n@.len())
                == n@,
        forall|k: int|
            #[trigger] file_name_at(path@, k) ==> (name is Some && name->Some_0@ == path@.subrange(
                k,
                path@.len() as int,
            )),
{
    match std::path::Path::new(path).file_name() {
        Some(n) => Some(n.to_string_lossy().into_owned()),
        None => None,
    }
}

/// Builds the transfer request for the file at `file_path`, of `size` bytes and digest
/// `hash`; the request names the file by the last component of the path (for `dir/name`,
/// `name`), or `unknown` where the path has none.
pub fn build_request(file_path: &str, size: u64, hash: String) -> (msg: Message)
    ensures
        msg.version == 1,
        msg.msg_type matches MessageType::Request { file_name: n, size: s, hash: h } && s == size
            && h@ == hash@ && (n@ == "unknown"@ || (n@.len() > 0 && exists|i: int|
            0 <= i && i + n@.len() <= file_path@.len() && #[trigger] file_path@.subrange(
                i,
                i + n@.len(),
            ) == n@)),
        file_path@.len() == 0 ==> (msg.msg_type matches MessageType::Request { file_name: n, .. }
            && n@ == "unknown"@),
        forall|k: int|
            #[trigger] file_name_at(file_path@, k) ==> (msg.msg_type matches MessageType::Request {
                file_name: n,
                ..
            } && n@ == file_path@.subrange(k, file_path@.len() as int)),
{
    let name = path_file_name(file_path);
    request_message(name, size, hash)
}

/// What the receiver answered to a transfer request.
#[derive(Debug)]
pub enum RequestOutcome {
    /// The receiver accepted: the file is to be sent.
    Accepted,
    /// The receiver rejected: nothing is sent.
    Rejected,
    /// The receiver answered with another message.
    Unexpected(MessageType),
}

/// Reads the receiver's answer to a transfer request.
pub fn request_outcome(response: Message) -> (outcome: RequestOutcome)
    ensures
        outcome == (match response.msg_type {
            MessageType::Accept => RequestOutcome::Accepted,
            MessageType::Reject => RequestOutcome::Rejected,
            other => RequestOutcome::Unexpected(other),
        }),
{
    match response.msg_type {
        MessageType::Accept => RequestOutcome::Accepted,
        MessageType::Reject => RequestOutcome::Rejected,
        other => RequestOutcome::Unexpected(other),
    }
}

} // verus!
