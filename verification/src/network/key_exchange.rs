//! X25519 ephemeral Diffie-Hellman, from `x25519_dalek`.
use rand_core::{RngCore, SeedableRng};
use vstd::prelude::*;

verus! {

/// `x25519_dalek::EphemeralSecret`, a secret key that is used for one exchange only.
#[verifier::external_type_specification]
#[verifier::external_body]
pub struct ExEphemeralSecret(x25519_dalek::EphemeralSecret);

/// The X25519 public key of `secret`: its clamped scalar times the base point.
pub uninterp spec fn spec_x25519_public(secret: x25519_dalek::EphemeralSecret) -> Seq<u8>;

/// The X25519 shared secret of `secret` with the peer's public key `peer_public`: the
/// clamped scalar of `secret` times the peer's point.
pub uninterp spec fn spec_x25519_shared(secret: x25519_dalek::EphemeralSecret, peer_public: Seq<u8>) -> Seq<u8>;

/// `rand_core::Error`, the error of the operating system's random source.
#[verifier::external_type_specification]
#[verifier::external_body]
pub struct ExRandError(rand_core::Error);

/// Why no ephemeral secret could be drawn.
#[derive(Debug)]
pub enum KeyGenerationError {
    /// The operating system's random source failed; its message.
    Rng(String),
}

/// Calls `RngCore::try_fill_bytes` of `rand_core::OsRng`: fills `seed` from the operating
/// system's random source. What the bytes are, and whether it fails, is left unsaid.
#[verifier::external_body]
fn os_seed(seed: &mut [u8; 32]) -> (res: Result<(), rand_core::Error>) {
    rand_core::OsRng.try_fill_bytes(seed)
}

/// Calls `ToString::to_string` on a `rand_core::Error`; the text depends on the operating
/// system's error and is left unsaid.
#[verifier::external_body]
fn rand_error_text(e: &rand_core::Error) -> (text: String) {
    e.to_string()
}

/// Calls `EphemeralSecret::random_from_rng` with a `rand_chacha::ChaCha20Rng` seeded from
/// `seed` (`SeedableRng::from_seed`). Nothing is stated of the secret.
#[verifier::external_body]
fn ephemeral_secret_from_seed(seed: [u8; 32]) -> (secret: x25519_dalek::EphemeralSecret) {
    x25519_dalek::EphemeralSecret::random_from_rng(rand_chacha::ChaCha20Rng::from_seed(seed))
}

/// Draws a fresh ephemeral secret: a seed from the operating system's random source, expanded
/// by ChaCha20.
///
/// # Errors
///
/// [`KeyGenerationError::Rng`] if the random source fails.
pub fn new_ephemeral_secret() -> (res: Result<x25519_dalek::EphemeralSecret, KeyGenerationError>) {
    let mut seed: [u8; 32] = [0u8; 32];
    match os_seed(&mut seed) {
        Ok(()) => Ok(ephemeral_secret_from_seed(seed)),
        Err(e) => Err(KeyGenerationError::Rng(rand_error_text(&e))),
    }
}

/// Calls `PublicKey::from(&EphemeralSecret)` and returns the key's bytes
/// (`PublicKey::to_bytes`): the public key of the secret.
#[verifier::external_body]
pub(crate) fn public_key_of(secret: &x25519_dalek::EphemeralSecret) -> (public_key: [u8; 32])
    ensures
        public_key@ == spec_x25519_public(*secret),
{
    x25519_dalek::PublicKey::from(secret).to_bytes()
}

/// Calls `EphemeralSecret::diffie_hellman` with the peer's public key (`PublicKey::from`
/// its bytes) and returns the shared secret's bytes (`SharedSecret::to_bytes`): the shared
/// secret of `secret` with the peer. Where the peer's key is the public key of a secret
/// `other`, it is also the shared secret of `other` with the public key of `secret`, as
/// the crate's `x25519` example shows (`alice_shared == bob_shared`).
#[verifier::external_body]
pub(crate) fn diffie_hellman(secret: x25519_dalek::EphemeralSecret, peer_public: [u8; 32]) -> (shared: [u8; 32])
    ensures
        shared@ == spec_x25519_shared(secret, peer_public@),
        forall|other: x25519_dalek::EphemeralSecret|
            #[trigger] spec_x25519_public(other) == peer_public@ ==> shared@ == spec_x25519_shared(
                other,
                spec_x25519_public(secret),
            ),
{
    secret.diffie_hellman(&x25519_dalek::PublicKey::from(peer_public)).to_bytes()
}

} // verus!
