//! The cryptographic primitives, the random source and the clock that the
//! backends build on.
//!
//! Nothing in this module is proved. Each function hands its arguments to an
//! implementation from another crate, and its contract records what that
//! implementation is relied upon to do. The results of the deterministic
//! primitives are given names, so that the contracts of the backends can say
//! exactly which bytes they produce and accept.

use crypto::aead::AeadDecryptor;
use crypto::aead::AeadEncryptor;
use crypto::aes::KeySize;
use crypto::aes_gcm::AesGcm;
use crypto::chacha20poly1305::ChaCha20Poly1305;
use crypto::hmac::Hmac;
use crypto::mac::Mac;
use crypto::mac::MacResult;
use crypto::scrypt::scrypt;
use crypto::scrypt::ScryptParams;
use crypto::sha2::Sha256;
use data_encoding::BASE64;
use data_encoding::BASE64URL;
use ring::error::Unspecified;
use ring::rand::SecureRandom;
use ring::rand::SystemRandom;
use vstd::prelude::*;

verus! {

/// Length in bytes of the key material of every backend.
pub const KEY_LEN: usize = 32;

/// Length in bytes of an HMAC-SHA-256 code.
pub const MAC_LEN: usize = 32;

/// Length in bytes of the authentication tag of both ciphers.
pub const TAG_LEN: usize = 16;

/// Length in bytes of an AES-256-GCM nonce.
pub const AES_GCM_NONCE_LEN: usize = 12;

/// Length in bytes of a ChaCha20-Poly1305 nonce.
pub const CHACHA20_POLY1305_NONCE_LEN: usize = 8;

/// The largest reading of the clock: the whole seconds in `2^64` nanoseconds.
pub const CLOCK_MAX: i64 = 18_446_744_073;

/// Whether `now` is a number of seconds that the clock can read.
pub open spec fn clock_reading(now: i64) -> bool {
    0 <= now <= CLOCK_MAX
}

/// `ring::rand::SystemRandom`, the operating system's random generator.
#[verifier::external_type_specification]
#[verifier::external_body]
pub struct ExSystemRandom(SystemRandom);

/// `ring::error::Unspecified`, the error of a failed random draw.
#[verifier::external_type_specification]
#[verifier::external_body]
pub struct ExUnspecified(Unspecified);

/// The HMAC-SHA-256 code of `message` under `key`.
pub uninterp spec fn hmac_sha256(key: Seq<u8>, message: Seq<u8>) -> Seq<u8>;

/// Ciphertext and tag that AES-256-GCM gives for `plaintext` under `key` and
/// `nonce`, with no associated data.
pub uninterp spec fn aes_256_gcm_sealed(key: Seq<u8>, nonce: Seq<u8>, plaintext: Seq<u8>) -> (
    Seq<u8>,
    Seq<u8>,
);

/// The plaintext that AES-256-GCM recovers from `ciphertext` under `key` and
/// `nonce` when it accepts `tag`, with no associated data; `None` when it
/// rejects the tag.
pub uninterp spec fn aes_256_gcm_opened(
    key: Seq<u8>,
    nonce: Seq<u8>,
    ciphertext: Seq<u8>,
    tag: Seq<u8>,
) -> Option<Seq<u8>>;

/// Ciphertext and tag that ChaCha20-Poly1305 gives for `plaintext` under `key`
/// and `nonce`, with no associated data.
pub uninterp spec fn chacha20_poly1305_sealed(
    key: Seq<u8>,
    nonce: Seq<u8>,
    plaintext: Seq<u8>,
) -> (Seq<u8>, Seq<u8>);

/// The plaintext that ChaCha20-Poly1305 recovers from `ciphertext` under `key`
/// and `nonce` when it accepts `tag`, with no associated data; `None` when it
/// rejects the tag.
pub uninterp spec fn chacha20_poly1305_opened(
    key: Seq<u8>,
    nonce: Seq<u8>,
    ciphertext: Seq<u8>,
    tag: Seq<u8>,
) -> Option<Seq<u8>>;

/// The 32 bytes that scrypt derives from `password` and `salt` at cost
/// `2^log_n`, block size `r` and parallelism `p`.
pub uninterp spec fn scrypt_key(
    password: Seq<u8>,
    salt: Seq<u8>,
    log_n: u8,
    r: u32,
    p: u32,
) -> Seq<u8>;

/// The padded base64 text of `bytes` in the standard alphabet.
pub uninterp spec fn base64_text(bytes: Seq<u8>) -> Seq<char>;

/// The padded base64 text of `bytes` in the URL-safe alphabet.
pub uninterp spec fn base64url_text(bytes: Seq<u8>) -> Seq<char>;

/// Number of characters of the padded base64 text of `len` bytes.
pub open spec fn base64_len(len: nat) -> nat {
    (len + 2) / 3 * 4
}

/// Calls `crypto::hmac::Hmac::<Sha256>::new`, `input` and `result`.
///
/// Relied upon: the code is the HMAC-SHA-256 of the message under the key, a
/// function of the two alone, and has the 32 bytes of a SHA-256 output.
#[verifier::external_body]
pub(crate) fn hmac_sha256_code(key: &[u8], message: &[u8]) -> (code: Vec<u8>)
    ensures
        code@ == hmac_sha256(key@, message@),
        code@.len() == MAC_LEN,
{
    let mut mac = Hmac::new(Sha256::new(), key);
    mac.input(message);
    mac.result().code().to_vec()
}

/// Compares two codes with `crypto::mac::MacResult`'s `==`, which takes the
/// same time wherever they differ.
///
/// Relied upon: for codes that are not empty, the comparison holds exactly
/// when both have the same bytes.
#[verifier::external_body]
pub(crate) fn codes_match(computed: &[u8], carried: &[u8]) -> (same: bool)
    requires
        computed@.len() > 0,
    ensures
        same == (computed@ == carried@),
{
    MacResult::new(computed) == MacResult::new(carried)
}

/// Calls `crypto::aes_gcm::AesGcm::new` with a 256-bit key and no associated
/// data, then `encrypt`.
///
/// Relied upon: ciphertext and tag are a function of key, nonce and plaintext
/// alone; the ciphertext is as long as the plaintext and the tag has 16
/// bytes; and decryption under the same key and nonce accepts this tag for
/// this ciphertext and gives the plaintext back.
#[verifier::external_body]
pub(crate) fn aes_256_gcm_encrypt(key: &[u8], nonce: &[u8], plaintext: &[u8]) -> (sealed: (
    Vec<u8>,
    Vec<u8>,
))
    requires
        key@.len() == KEY_LEN,
        nonce@.len() == AES_GCM_NONCE_LEN,
    ensures
        (sealed.0@, sealed.1@) == aes_256_gcm_sealed(key@, nonce@, plaintext@),
        sealed.0@.len() == plaintext@.len(),
        sealed.1@.len() == TAG_LEN,
        aes_256_gcm_opened(key@, nonce@, sealed.0@, sealed.1@) == Some(plaintext@),
{
    let mut ciphertext = vec![0u8; plaintext.len()];
    let mut tag = vec![0u8; 16];
    let mut cipher = AesGcm::new(KeySize::KeySize256, key, nonce, &[]);
    cipher.encrypt(plaintext, &mut ciphertext, &mut tag);
    (ciphertext, tag)
}

/// Calls `crypto::aes_gcm::AesGcm::new` with a 256-bit key and no associated
/// data, then `decrypt`.
///
/// Relied upon: whether the tag is accepted, and the plaintext if it is, are
/// a function of key, nonce, ciphertext and tag alone; the buffer returned is
/// as long as the ciphertext.
#[verifier::external_body]
pub(crate) fn aes_256_gcm_decrypt(
    key: &[u8],
    nonce: &[u8],
    ciphertext: &[u8],
    tag: &[u8],
) -> (opened: (bool, Vec<u8>))
    requires
        key@.len() == KEY_LEN,
        nonce@.len() == AES_GCM_NONCE_LEN,
    ensures
        opened.0 <==> aes_256_gcm_opened(key@, nonce@, ciphertext@, tag@) is Some,
        opened.0 ==> aes_256_gcm_opened(key@, nonce@, ciphertext@, tag@) == Some(opened.1@),
        opened.1@.len() == ciphertext@.len(),
{
    let mut plaintext = vec![0u8; ciphertext.len()];
    let mut cipher = AesGcm::new(KeySize::KeySize256, key, nonce, &[]);
    let accepted = cipher.decrypt(ciphertext, &mut plaintext, tag);
    (accepted, plaintext)
}

/// Calls `crypto::chacha20poly1305::ChaCha20Poly1305::new` with no associated
/// data, then `encrypt`.
///
/// Relied upon: ciphertext and tag are a function of key, nonce and plaintext
/// alone; the ciphertext is as long as the plaintext and the tag has 16
/// bytes; and decryption under the same key and nonce accepts this tag for
/// this ciphertext and gives the plaintext back.
#[verifier::external_body]
pub(crate) fn chacha20_poly1305_encrypt(key: &[u8], nonce: &[u8], plaintext: &[u8]) -> (sealed: (
    Vec<u8>,
    Vec<u8>,
))
    requires
        key@.len() == KEY_LEN,
        nonce@.len() == CHACHA20_POLY1305_NONCE_LEN,
    ensures
        (sealed.0@, sealed.1@) == chacha20_poly1305_sealed(key@, nonce@, plaintext@),
        sealed.0@.len() == plaintext@.len(),
        sealed.1@.len() == TAG_LEN,
        chacha20_poly1305_opened(key@, nonce@, sealed.0@, sealed.1@) == Some(plaintext@),
{
    let mut ciphertext = vec![0u8; plaintext.len()];
    let mut tag = vec![0u8; 16];
    let mut cipher = ChaCha20Poly1305::new(key, nonce, &[]);
    cipher.encrypt(plaintext, &mut ciphertext, &mut tag);
    (ciphertext, tag)
}

/// Calls `crypto::chacha20poly1305::ChaCha20Poly1305::new` with no associated
/// data, then `decrypt`.
///
/// Relied upon: whether the tag is accepted, and the plaintext if it is, are
/// a function of key, nonce, ciphertext and tag alone; the buffer returned is
/// as long as the ciphertext.
#[verifier::external_body]
pub(crate) fn chacha20_poly1305_decrypt(
    key: &[u8],
    nonce: &[u8],
    ciphertext: &[u8],
    tag: &[u8],
) -> (opened: (bool, Vec<u8>))
    requires
        key@.len() == KEY_LEN,
        nonce@.len() == CHACHA20_POLY1305_NONCE_LEN,
    ensures
        opened.0 <==> chacha20_poly1305_opened(key@, nonce@, ciphertext@, tag@) is Some,
        opened.0 ==> chacha20_poly1305_opened(key@, nonce@, ciphertext@, tag@) == Some(opened.1@),
        opened.1@.len() == ciphertext@.len(),
{
    let mut plaintext = vec![0u8; ciphertext.len()];
    let mut cipher = ChaCha20Poly1305::new(key, nonce, &[]);
    let accepted = cipher.decrypt(ciphertext, &mut plaintext, tag);
    (accepted, plaintext)
}

/// Calls `crypto::scrypt::ScryptParams::new` and `crypto::scrypt::scrypt` for
/// 32 bytes of output.
///
/// Relied upon: the key is a function of password, salt and the three cost
/// parameters alone. The bounds keep the parameters within what the
/// implementation accepts and its working memory within 64 MiB.
#[verifier::external_body]
pub(crate) fn scrypt_derive(
    password: &[u8],
    salt: &[u8],
    log_n: u8,
    r: u32,
    p: u32,
) -> (key: [u8; 32])
    requires
        1 <= log_n <= 15,
        1 <= r <= 16,
        1 <= p <= 16,
    ensures
        key@ == scrypt_key(password@, salt@, log_n, r, p),
{
    let mut key = [0u8; 32];
    scrypt(password, salt, &ScryptParams::new(log_n, r, p), &mut key);
    key
}

/// `ring::rand::SystemRandom::new`: a handle on the operating system's
/// generator. Nothing is claimed of it.
pub assume_specification[ SystemRandom::new ]() -> SystemRandom;

/// Calls `ring::rand::SecureRandom::fill` on a `SystemRandom`.
///
/// Relied upon: the buffer keeps its length. Nothing is claimed of the bytes
/// drawn, nor of whether the draw succeeds.
#[verifier::external_body]
pub(crate) fn fill_random(rng: &SystemRandom, buf: &mut [u8]) -> (drawn: Result<(), Unspecified>)
    ensures
        final(buf)@.len() == old(buf)@.len(),
{
    rng.fill(buf)
}

/// Calls `time::precise_time_s` and drops the fraction: whole seconds of a
/// high-resolution counter since an epoch that the platform chooses.
///
/// Relied upon: the counter holds an unsigned 64-bit number of nanoseconds,
/// so the reading is not negative and not above [`CLOCK_MAX`]. Nothing else
/// is claimed of it: two readings may differ.
#[verifier::external_body]
pub(crate) fn clock_seconds() -> (now: i64)
    ensures
        clock_reading(now),
{
    time::precise_time_s() as i64
}

/// Calls `data_encoding::BASE64.encode`.
///
/// Relied upon: the text is a function of the bytes alone and has four
/// characters for every three bytes begun. The bound keeps the input within
/// what the encoder accepts.
#[verifier::external_body]
pub(crate) fn base64_encode(bytes: &[u8]) -> (text: String)
    requires
        bytes@.len() <= usize::MAX / 512,
    ensures
        text@ == base64_text(bytes@),
        text@.len() == base64_len(bytes@.len()),
{
    BASE64.encode(bytes)
}

/// Calls `data_encoding::BASE64URL.encode`.
///
/// Relied upon: the text is a function of the bytes alone and has four
/// characters for every three bytes begun. The bound keeps the input within
/// what the encoder accepts.
#[verifier::external_body]
pub(crate) fn base64url_encode(bytes: &[u8]) -> (text: String)
    requires
        bytes@.len() <= usize::MAX / 512,
    ensures
        text@ == base64url_text(bytes@),
        text@.len() == base64_len(bytes@.len()),
{
    BASE64URL.encode(bytes)
}

} // verus!
