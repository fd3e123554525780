//! Security primitives: AES-256-GCM encryption of chunks and SHA-256 digests.
//!
//! An encrypted chunk is the 12-byte nonce followed by the AES-256-GCM ciphertext
//! (the encrypted bytes and the 16-byte tag).
use aes_gcm::aead::{Aead, KeyInit};
use rand::TryRngCore;
use sha2::Digest;
use crate::protocol::push_char;
use vstd::prelude::*;
use vstd::string::StringExecFns;

verus! {

/// The length of an AES-GCM nonce.
pub const NONCE_SIZE: usize = 12;

/// The length of an AES-GCM authentication tag.
pub const TAG_SIZE: usize = 16;

/// The longest plaintext that AES-GCM encrypts: 2^36 bytes.
pub const MAX_PLAINTEXT: u64 = 0x10_0000_0000;

/// Errors of the security operations.
#[derive(Debug)]
pub enum SecurityError {
    /// Failed to generate random bytes for the nonce.
    RngError(String),
    /// Encryption operation failed.
    EncryptionFailed(String),
    /// Decryption operation failed.
    DecryptionFailed,
    /// Data to decrypt is too short (must include 12-byte nonce).
    InvalidDataLength,
}

/// The text of a security error.
pub open spec fn security_error_text(e: SecurityError) -> Seq<char> {
    match e {
        SecurityError::RngError(m) => "RNG error: "@ + m@,
        SecurityError::EncryptionFailed(m) => "Encryption failed: "@ + m@,
        SecurityError::DecryptionFailed => "Decryption failed"@,
        SecurityError::InvalidDataLength => "Invalid data length for decryption"@,
    }
}

impl SecurityError {
    /// Describes the error, as `Display` would.
    pub fn to_string(&self) -> (text: String)
        ensures
            text@ == security_error_text(*self),
    {
        match self {
            SecurityError::RngError(m) => {
                let mut text = String::from_str("RNG error: ");
                text.append(m.as_str());
                text
            },
            SecurityError::EncryptionFailed(m) => {
                let mut text = String::from_str("Encryption failed: ");
                text.append(m.as_str());
                text
            },
            SecurityError::DecryptionFailed => String::from_str("Decryption failed"),
            SecurityError::InvalidDataLength => String::from_str("Invalid data length for decryption"),
        }
    }
}

/// `aes_gcm::Error`, the opaque error of the AEAD operations.
#[verifier::external_type_specification]
#[verifier::external_body]
pub struct ExAeadError(aes_gcm::Error);

/// `rand::rand_core::OsError`, the error of the operating system's random source.
#[verifier::external_type_specification]
#[verifier::external_body]
pub struct ExOsError(rand::rand_core::OsError);

/// An incremental SHA-256 hasher, holding a `sha2::Sha256`.
#[verifier::external_body]
pub struct Sha256Hasher {
    inner: sha2::Sha256,
}

/// What a hasher has absorbed so far: the bytes of all its updates, in order.
pub uninterp spec fn sha256_absorbed(hasher: Sha256Hasher) -> Seq<u8>;

/// The SHA-256 digest of `data`.
pub uninterp spec fn spec_sha256(data: Seq<u8>) -> Seq<u8>;

/// AES-256-GCM encryption (no associated data) of `plaintext` under `key` and `nonce`:
/// the encrypted bytes followed by the tag.
pub uninterp spec fn spec_aes256gcm_encrypt(key: Seq<u8>, nonce: Seq<u8>, plaintext: Seq<u8>) -> Seq<u8>;

/// AES-256-GCM decryption (no associated data) of `ciphertext` under `key` and `nonce`:
/// the plaintext, or `None` where the tag does not authenticate the ciphertext.
pub uninterp spec fn spec_aes256gcm_decrypt(key: Seq<u8>, nonce: Seq<u8>, ciphertext: Seq<u8>) -> Option<Seq<u8>>;

/// Calls `Digest::new` for `sha2::Sha256`: a hasher that has absorbed nothing.
#[verifier::external_body]
fn sha256_new() -> (hasher: Sha256Hasher)
    ensures
        sha256_absorbed(hasher) == Seq::<u8>::empty(),
{
    Sha256Hasher { inner: <sha2::Sha256 as Digest>::new() }
}

/// Calls `Digest::update`: the hasher absorbs `data` after what it held.
#[verifier::external_body]
fn sha256_update(hasher: &mut Sha256Hasher, data: &[u8])
    ensures
        sha256_absorbed(*final(hasher)) == sha256_absorbed(*old(hasher)) + data@,
{
    Digest::update(&mut hasher.inner, data)
}

/// Calls `Digest::finalize` on a clone of the hasher: the SHA-256 digest of all that it
/// absorbed (`Digest::digest` of the same bytes is `new`, one `update`, `finalize`).
#[verifier::external_body]
fn sha256_finish(hasher: &Sha256Hasher) -> (digest: [u8; 32])
    ensures
        digest@ == spec_sha256(sha256_absorbed(*hasher)),
{
    Digest::finalize(hasher.inner.clone()).into()
}

/// Calls `Aead::encrypt` of `aes_gcm::Aes256Gcm` built by `KeyInit::new` from `key`.
/// It succeeds exactly when the plaintext is at most 2^36 bytes long; the ciphertext is the
/// plaintext's length plus the 16-byte tag, and decryption under the same key and nonce
/// gives the plaintext back.
#[verifier::external_body]
fn aes256gcm_encrypt(key: &[u8; 32], nonce: &[u8; 12], plaintext: &[u8]) -> (res: Result<
    Vec<u8>,
    aes_gcm::Error,
>)
    ensures
        res is Ok <==> plaintext@.len() <= MAX_PLAINTEXT,
        res matches Ok(c) ==> {
            &&& c@ == spec_aes256gcm_encrypt(key@, nonce@, plaintext@)
            &&& c@.len() == plaintext@.len() + TAG_SIZE
            &&& spec_aes256gcm_decrypt(key@, nonce@, c@) == Some(plaintext@)
        },
{
    let cipher = aes_gcm::Aes256Gcm::new(key.into());
    cipher.encrypt(aes_gcm::Nonce::from_slice(nonce), plaintext)
}

/// Calls `Aead::decrypt` of `aes_gcm::Aes256Gcm` built by `KeyInit::new` from `key`.
/// It succeeds exactly when the tag authenticates the ciphertext, and then returns the
/// plaintext, 16 bytes shorter than the ciphertext.
#[verifier::external_body]
fn aes256gcm_decrypt(key: &[u8; 32], nonce: &[u8], ciphertext: &[u8]) -> (res: Result<
    Vec<u8>,
    aes_gcm::Error,
>)
    requires
        nonce@.len() == NONCE_SIZE,
    ensures
        res is Ok <==> spec_aes256gcm_decrypt(key@, nonce@, ciphertext@) is Some,
        res matches Ok(p) ==> {
            &&& spec_aes256gcm_decrypt(key@, nonce@, ciphertext@) == Some(p@)
            &&& p@.len() + TAG_SIZE == ciphertext@.len()
        },
{
    let cipher = aes_gcm::Aes256Gcm::new(key.into());
    cipher.decrypt(aes_gcm::Nonce::from_slice(nonce), ciphertext)
}

/// Calls `ToString::to_string` on an `aes_gcm::Error`, whose `Display` writes `aead::Error`.
#[verifier::external_body]
fn aead_error_text(e: &aes_gcm::Error) -> (text: String)
    ensures
        text@ == "aead::Error"@,
{
    e.to_string()
}

/// Calls `TryRngCore::try_fill_bytes` of `rand::rngs::OsRng`: fills `dest` from the operating
/// system's random source. What the bytes are, and whether it fails, is left unsaid.
#[verifier::external_body]
fn os_fill_bytes(dest: &mut [u8; 12]) -> (res: Result<(), rand::rand_core::OsError>) {
    rand::rngs::OsRng.try_fill_bytes(dest)
}

/// Calls `ToString::to_string` on a `rand::rand_core::OsError`. The text is not empty; what
/// it says depends on the operating system's error and is left unsaid.
#[verifier::external_body]
fn os_error_text(e: &rand::rand_core::OsError) -> (text: String)
    ensures
        text@.len() > 0,
{
    e.to_string()
}

/// The lower-case hex digit of `d` (below 16).
pub open spec fn hex_digit(d: u8) -> char {
    if d < 10 {
        (48 + d) as char
    } else {
        (87 + d) as char
    }
}

/// The lower-case hex text of `bytes`: two digits per byte, the high half first.
pub open spec fn lower_hex(bytes: Seq<u8>) -> Seq<char> {
    Seq::new(
        2 * bytes.len(),
        |i: int|
            if i % 2 == 0 {
                hex_digit(bytes[i / 2] / 16)
            } else {
                hex_digit(bytes[i / 2] % 16)
            },
    )
}

/// Each byte of `bytes` is written as two characters of `0123456789abcdef`: at `2k` the
/// digit of its high half (`b / 16`), at `2k + 1` that of its low half (`b % 16`).
pub proof fn lower_hex_digits(bytes: Seq<u8>)
    ensures
        lower_hex(bytes).len() == 2 * bytes.len(),
        forall|k: int|
            #![trigger bytes[k]]
            0 <= k < bytes.len() ==> lower_hex(bytes)[2 * k] == "0123456789abcdef"@[(bytes[k] / 16) as int]
                && lower_hex(bytes)[2 * k + 1] == "0123456789abcdef"@[(bytes[k] % 16) as int],
{
    reveal_strlit("0123456789abcdef");
    assert forall|d: u8| d < 16 implies #[trigger] hex_digit(d) == "0123456789abcdef"@[d as int] by {
        reveal_strlit("0123456789abcdef");
    }
    assert forall|k: int| 0 <= k < bytes.len() implies lower_hex(bytes)[2 * k]
        == "0123456789abcdef"@[(bytes[k] / 16) as int] && lower_hex(bytes)[2 * k + 1]
        == "0123456789abcdef"@[(bytes[k] % 16) as int] by {
        assert((2 * k) / 2 == k && (2 * k) % 2 == 0);
        assert((2 * k + 1) / 2 == k && (2 * k + 1) % 2 == 1);
        assert(hex_digit(bytes[k] / 16) == "0123456789abcdef"@[(bytes[k] / 16) as int]);
        assert(hex_digit(bytes[k] % 16) == "0123456789abcdef"@[(bytes[k] % 16) as int]);
    }
}

fn hex_char(d: u8) -> (c: char)
    requires
        d < 16,
    ensures
        c == hex_digit(d),
{
    if d < 10 {
        (48 + d) as char
    } else {
        (87 + d) as char
    }
}

/// Writes `bytes` as lower-case hex.
pub fn to_lower_hex(bytes: &[u8]) -> (text: String)
    ensures
        text@ == lower_hex(bytes@),
        text@.len() == 2 * bytes@.len(),
        forall|k: int|
            #![trigger bytes@[k]]
            0 <= k < bytes@.len() ==> text@[2 * k] == "0123456789abcdef"@[(bytes@[k] / 16) as int]
                && text@[2 * k + 1] == "0123456789abcdef"@[(bytes@[k] % 16) as int],
{
    proof {
        lower_hex_digits(bytes@);
    }
    let mut text = String::new();
    let mut i: usize = 0;
    while i < bytes.len()
        invariant
            i <= bytes.len(),
            text@ == lower_hex(bytes@.take(i as int)),
        decreases bytes.len() - i,
    {
        let b = bytes[i];
        push_char(&mut text, hex_char(b / 16));
        push_char(&mut text, hex_char(b % 16));
        i = i + 1;
        assert(text@ =~= lower_hex(bytes@.take(i as int)));
    }
    assert(bytes@.take(bytes.len() as int) =~= bytes@);
    text
}

/// The running SHA-256 digest of a file read piece by piece.
pub struct FileDigest {
    hasher: Sha256Hasher,
}

impl FileDigest {
    /// The bytes taken in so far.
    pub closed spec fn absorbed(&self) -> Seq<u8> {
        sha256_absorbed(self.hasher)
    }

    /// A digest that has taken in nothing.
    pub fn new() -> (d: FileDigest)
        ensures
            d.absorbed() == Seq::<u8>::empty(),
    {
        FileDigest { hasher: sha256_new() }
    }

    /// Takes in the next piece of the file.
    pub fn update(&mut self, data: &[u8])
        ensures
            final(self).absorbed() == old(self).absorbed() + data@,
    {
        sha256_update(&mut self.hasher, data)
    }

    /// The SHA-256 digest of all that was taken in, in lower-case hex (64 characters).
    pub fn hex(&self) -> (hash: String)
        ensures
            hash@ == lower_hex(spec_sha256(self.absorbed())),
            hash@.len() == 64,
            spec_sha256(self.absorbed()).len() == 32,
            forall|k: int|
                #![trigger spec_sha256(self.absorbed())[k]]
                0 <= k < 32 ==> hash@[2 * k] == "0123456789abcdef"@[(spec_sha256(self.absorbed())[k] / 16) as int]
                    && hash@[2 * k + 1] == "0123456789abcdef"@[(spec_sha256(self.absorbed())[k] % 16) as int],
    {
        let digest = sha256_finish(&self.hasher);
        to_lower_hex(&digest)
    }
}

/// The SHA-256 digest of a file's contents, in lower-case hex (64 characters).
pub fn calculate_file_hash(contents: &[u8]) -> (hash: String)
    ensures
        hash@ == lower_hex(spec_sha256(contents@)),
        hash@.len() == 64,
        spec_sha256(contents@).len() == 32,
        forall|k: int|
            #![trigger spec_sha256(contents@)[k]]
            0 <= k < 32 ==> hash@[2 * k] == "0123456789abcdef"@[(spec_sha256(contents@)[k] / 16) as int]
                && hash@[2 * k + 1] == "0123456789abcdef"@[(spec_sha256(contents@)[k] % 16) as int],
{
    let mut digest = FileDigest::new();
    digest.update(contents);
    assert(digest.absorbed() =~= contents@);
    digest.hex()
}

/// What decrypting `encrypted` under `key` gives: inputs shorter than a nonce are refused,
/// otherwise the first 12 bytes are the nonce and the rest is the AES-256-GCM ciphertext.
pub open spec fn decryption(encrypted: Seq<u8>, key: Seq<u8>) -> Result<Seq<u8>, SecurityError> {
    if encrypted.len() < NONCE_SIZE {
        Err(SecurityError::InvalidDataLength)
    } else {
        match spec_aes256gcm_decrypt(
            key,
            encrypted.subrange(0, NONCE_SIZE as int),
            encrypted.subrange(NONCE_SIZE as int, encrypted.len() as int),
        ) {
            Some(plaintext) => Ok(plaintext),
            None => Err(SecurityError::DecryptionFailed),
        }
    }
}

/// The view of a result that carries bytes.
pub open spec fn bytes_view(r: Result<Vec<u8>, SecurityError>) -> Result<Seq<u8>, SecurityError> {
    match r {
        Ok(v) => Ok(v@),
        Err(e) => Err(e),
    }
}

/// The encrypted form of a chunk: the nonce followed by the ciphertext.
pub fn prepend_nonce(nonce: &[u8; 12], ciphertext: &[u8]) -> (encrypted: Vec<u8>)
    ensures
        encrypted@ == nonce@ + ciphertext@,
{
    let mut encrypted: Vec<u8> = Vec::new();
    let mut i: usize = 0;
    while i < NONCE_SIZE
        invariant
            i <= NONCE_SIZE,
            encrypted@ == nonce@.take(i as int),
        decreases NONCE_SIZE - i,
    {
        encrypted.push(nonce[i]);
        i = i + 1;
        assert(encrypted@ =~= nonce@.take(i as int));
    }
    assert(nonce@.take(NONCE_SIZE as int) =~= nonce@);
    let mut j: usize = 0;
    while j < ciphertext.len()
        invariant
            j <= ciphertext.len(),
            encrypted@ == nonce@ + ciphertext@.take(j as int),
        decreases ciphertext.len() - j,
    {
        encrypted.push(ciphertext[j]);
        j = j + 1;
        assert(encrypted@ =~= nonce@ + ciphertext@.take(j as int));
    }
    assert(ciphertext@.take(ciphertext.len() as int) =~= ciphertext@);
    encrypted
}

/// Encrypts `data` under `key` with the given nonce: the nonce followed by the
/// AES-256-GCM ciphertext.
///
/// # Errors
///
/// [`SecurityError::EncryptionFailed`] with the cipher's message (`aead::Error`) when
/// `data` is longer than 2^36 bytes.
pub fn encrypt_with_nonce(data: &[u8], key: &[u8; 32], nonce: &[u8; 12]) -> (res: Result<
    Vec<u8>,
    SecurityError,
>)
    ensures
        data@.len() <= MAX_PLAINTEXT ==> (res matches Ok(v) && v@ == nonce@
            + spec_aes256gcm_encrypt(key@, nonce@, data@)),
        data@.len() > MAX_PLAINTEXT ==> (res matches Err(SecurityError::EncryptionFailed(text))
            && text@ == "aead::Error"@),
        res matches Ok(v) ==> v@.len() == NONCE_SIZE + data@.len() + TAG_SIZE && decryption(
            v@,
            key@,
        ) == Ok::<Seq<u8>, SecurityError>(data@),
{
    match aes256gcm_encrypt(key, nonce, data) {
        Ok(ciphertext) => {
            let encrypted = prepend_nonce(nonce, &ciphertext);
            assert(encrypted@.subrange(0, NONCE_SIZE as int) =~= nonce@);
            assert(encrypted@.subrange(NONCE_SIZE as int, encrypted@.len() as int) =~= ciphertext@);
            Ok(encrypted)
        },
        Err(e) => Err(SecurityError::EncryptionFailed(aead_error_text(&e))),
    }
}

/// Draws a 12-byte nonce from the operating system's random source; where the source fails,
/// the text of its error, which is never empty.
pub(crate) fn draw_nonce() -> (res: Result<[u8; 12], String>)
    ensures
        res matches Err(m) ==> m@.len() > 0,
{
    let mut nonce: [u8; 12] = [0u8; 12];
    match os_fill_bytes(&mut nonce) {
        Ok(()) => Ok(nonce),
        Err(e) => Err(os_error_text(&e)),
    }
}

/// Encrypts `data` under `key` with the outcome of a nonce draw: the drawn nonce followed by
/// the AES-256-GCM ciphertext, or, where the draw failed with message `m`,
/// [`SecurityError::RngError`] carrying `m`.
///
/// It succeeds exactly when the draw succeeded and `data` is at most 2^36 bytes long.
///
/// # Errors
///
/// [`SecurityError::RngError`] exactly when the draw failed, [`SecurityError::EncryptionFailed`]
/// exactly when it succeeded and `data` is longer than 2^36 bytes.
pub fn encrypt_with_draw(data: &[u8], key: &[u8; 32], draw: Result<[u8; 12], String>) -> (res: Result<
    Vec<u8>,
    SecurityError,
>)
    ensures
        res is Ok <==> (draw is Ok && data@.len() <= MAX_PLAINTEXT),
        draw matches Err(m) ==> res == Err::<Vec<u8>, SecurityError>(SecurityError::RngError(m)),
        res matches Err(SecurityError::RngError(m)) ==> draw == Err::<[u8; 12], String>(m),
        draw matches Ok(nonce) ==> {
            &&& data@.len() <= MAX_PLAINTEXT ==> (res matches Ok(v) && v@ == nonce@
                + spec_aes256gcm_encrypt(key@, nonce@, data@))
            &&& data@.len() > MAX_PLAINTEXT ==> (res matches Err(SecurityError::EncryptionFailed(
                text,
            )) && text@ == "aead::Error"@)
        },
        res matches Ok(v) ==> v@.len() == NONCE_SIZE + data@.len() + TAG_SIZE && decryption(
            v@,
            key@,
        ) == Ok::<Seq<u8>, SecurityError>(data@),
{
    match draw {
        Ok(nonce) => encrypt_with_nonce(data, key, &nonce),
        Err(m) => Err(SecurityError::RngError(m)),
    }
}

/// Encrypts `data` under `key` with a fresh nonce from the operating system's random source.
///
/// Returns the 12-byte nonce followed by the ciphertext; decrypting it under the same key
/// gives `data` back. What it returns is [`encrypt_with_draw`] of the nonce draw.
///
/// # Errors
///
/// [`SecurityError::RngError`] if nonce generation fails, or
/// [`SecurityError::EncryptionFailed`] if the encryption itself fails (for `data` longer
/// than 2^36 bytes).
pub fn encrypt(data: &[u8], key: &[u8; 32]) -> (res: Result<Vec<u8>, SecurityError>)
    ensures
        res matches Ok(v) ==> {
            &&& v@.len() == NONCE_SIZE + data@.len() + TAG_SIZE
            &&& v@.subrange(NONCE_SIZE as int, v@.len() as int) == spec_aes256gcm_encrypt(
                key@,
                v@.subrange(0, NONCE_SIZE as int),
                data@,
            )
            &&& decryption(v@, key@) == Ok::<Seq<u8>, SecurityError>(data@)
        },
        res matches Err(e) ==> e is RngError || (data@.len() > MAX_PLAINTEXT && (e matches SecurityError::EncryptionFailed(text)
            && text@ == "aead::Error"@)),
        res matches Err(SecurityError::RngError(m)) ==> m@.len() > 0,
        data@.len() > MAX_PLAINTEXT ==> res is Err,
{
    let draw = draw_nonce();
    let res = encrypt_with_draw(data, key, draw);
    proof {
        if res is Ok {
            let v = res->Ok_0;
            let nonce = draw->Ok_0;
            assert(v@.subrange(0, NONCE_SIZE as int) =~= nonce@);
            assert(v@.subrange(NONCE_SIZE as int, v@.len() as int) =~= spec_aes256gcm_encrypt(
                key@,
                nonce@,
                data@,
            ));
        }
    }
    res
}

/// Decrypts data produced by [`encrypt`]: the first 12 bytes are the nonce, the rest the
/// AES-256-GCM ciphertext.
///
/// # Errors
///
/// [`SecurityError::InvalidDataLength`] if `encrypted` is shorter than a nonce,
/// [`SecurityError::DecryptionFailed`] if the tag does not authenticate the ciphertext
/// (wrong key or corrupted data).
pub fn decrypt(encrypted: &[u8], key: &[u8; 32]) -> (res: Result<Vec<u8>, SecurityError>)
    ensures
        bytes_view(res) == decryption(encrypted@, key@),
        res matches Ok(p) ==> p@.len() + NONCE_SIZE + TAG_SIZE == encrypted@.len(),
{
    if encrypted.len() < NONCE_SIZE {
        return Err(SecurityError::InvalidDataLength);
    }
    let (nonce, ciphertext) = encrypted.split_at(NONCE_SIZE);
    match aes256gcm_decrypt(key, nonce, ciphertext) {
        Ok(plaintext) => Ok(plaintext),
        Err(_) => Err(SecurityError::DecryptionFailed),
    }
}

} // verus!
