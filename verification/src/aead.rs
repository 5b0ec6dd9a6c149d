//! What the two encrypting backends share: the layout of their plaintexts and
//! of their encoded values, and encoding and decoding on top of a cipher.
//!
//! ```text
//! token plaintext  = padding(16) | secret(64)                80 bytes
//! cookie plaintext = padding(16) | expires(8) | secret(64)   88 bytes
//! encoded value    = ciphertext | nonce | tag(16)
//! ```
//!
//! The ciphertext is as long as the plaintext. The nonce has 12 bytes under
//! AES-256-GCM and 8 under ChaCha20-Poly1305. The padding is random, carries
//! no meaning and is dropped on decoding.

use crate::bytes::append;
use crate::error::CsrfError;
use crate::primitives::aes_256_gcm_decrypt;
use crate::primitives::aes_256_gcm_encrypt;
use crate::primitives::aes_256_gcm_opened;
use crate::primitives::aes_256_gcm_sealed;
use crate::primitives::chacha20_poly1305_decrypt;
use crate::primitives::chacha20_poly1305_encrypt;
use crate::primitives::chacha20_poly1305_opened;
use crate::primitives::chacha20_poly1305_sealed;
use crate::primitives::AES_GCM_NONCE_LEN;
use crate::primitives::CHACHA20_POLY1305_NONCE_LEN;
use crate::primitives::TAG_LEN;
use crate::timestamp::decode_expiry;
use crate::timestamp::encode_expiry;
use crate::timestamp::expiry_bytes;
use crate::timestamp::expiry_from_bytes;
use crate::timestamp::lemma_expiry_round_trip;
use crate::timestamp::EXPIRY_LEN;
use crate::values::CookiePayload;
use crate::values::CsrfCookie;
use crate::values::CsrfToken;
use crate::values::UnencryptedCsrfCookie;
use crate::values::UnencryptedCsrfToken;
use crate::values::SECRET_LEN;
use vstd::prelude::*;
use vstd::slice::slice_subrange;
use vstd::slice::slice_to_vec;

verus! {

/// Length in bytes of the random padding that leads every plaintext.
pub const PADDING_LEN: usize = 16;

/// Length in bytes of the plaintext of a token.
pub const TOKEN_PLAINTEXT_LEN: usize = 80;

/// Length in bytes of the plaintext of a cookie.
pub const COOKIE_PLAINTEXT_LEN: usize = 88;

/// The ciphers that the encrypting backends are built on.
#[derive(Clone, Copy, Debug, PartialEq, Eq)]
pub enum Cipher {
    /// AES-256 in Galois/Counter Mode, with a 12-byte nonce.
    Aes256Gcm,
    /// ChaCha20 with Poly1305, with an 8-byte nonce.
    ChaCha20Poly1305,
}

impl Cipher {
    /// Length in bytes of the cipher's nonce.
    pub open spec fn nonce_len(self) -> nat {
        match self {
            Cipher::Aes256Gcm => AES_GCM_NONCE_LEN as nat,
            Cipher::ChaCha20Poly1305 => CHACHA20_POLY1305_NONCE_LEN as nat,
        }
    }

    /// Length in bytes of the cipher's nonce.
    pub fn nonce_length(&self) -> (len: usize)
        ensures
            len == self.nonce_len(),
    {
        match self {
            Cipher::Aes256Gcm => AES_GCM_NONCE_LEN,
            Cipher::ChaCha20Poly1305 => CHACHA20_POLY1305_NONCE_LEN,
        }
    }

    /// Length in bytes of the encoded value of a plaintext of `plaintext_len`
    /// bytes.
    pub open spec fn encoded_len(self, plaintext_len: nat) -> nat {
        plaintext_len + self.nonce_len() + TAG_LEN as nat
    }

    /// Ciphertext and tag of `plaintext` under `key` and `nonce`.
    pub open spec fn sealed(self, key: Seq<u8>, nonce: Seq<u8>, plaintext: Seq<u8>) -> (
        Seq<u8>,
        Seq<u8>,
    ) {
        match self {
            Cipher::Aes256Gcm => aes_256_gcm_sealed(key, nonce, plaintext),
            Cipher::ChaCha20Poly1305 => chacha20_poly1305_sealed(key, nonce, plaintext),
        }
    }

    /// The plaintext of `ciphertext` under `key` and `nonce`, if the cipher
    /// accepts `tag` for it.
    pub open spec fn opened(
        self,
        key: Seq<u8>,
        nonce: Seq<u8>,
        ciphertext: Seq<u8>,
        tag: Seq<u8>,
    ) -> Option<Seq<u8>> {
        match self {
            Cipher::Aes256Gcm => aes_256_gcm_opened(key, nonce, ciphertext, tag),
            Cipher::ChaCha20Poly1305 => chacha20_poly1305_opened(key, nonce, ciphertext, tag),
        }
    }

    /// Encrypts `plaintext` and computes its tag.
    ///
    /// What comes back opens again: under the same key and nonce the cipher
    /// accepts the tag for the ciphertext and recovers the plaintext.
    pub fn seal(&self, key: &[u8; 32], nonce: &[u8], plaintext: &[u8]) -> (sealed: (
        Vec<u8>,
        Vec<u8>,
    ))
        requires
            nonce@.len() == self.nonce_len(),
        ensures
            (sealed.0@, sealed.1@) == self.sealed(key@, nonce@, plaintext@),
            sealed.0@.len() == plaintext@.len(),
            sealed.1@.len() == TAG_LEN,
            self.opened(key@, nonce@, sealed.0@, sealed.1@) == Some(plaintext@),
    {
        match self {
            Cipher::Aes256Gcm => aes_256_gcm_encrypt(key, nonce, plaintext),
            Cipher::ChaCha20Poly1305 => chacha20_poly1305_encrypt(key, nonce, plaintext),
        }
    }

    /// Checks `tag` against `ciphertext` and, if the cipher accepts it,
    /// decrypts.
    pub fn open(&self, key: &[u8; 32], nonce: &[u8], ciphertext: &[u8], tag: &[u8]) -> (opened:
        Option<Vec<u8>>)
        requires
            nonce@.len() == self.nonce_len(),
        ensures
            opened matches Some(plaintext) ==> self.opened(key@, nonce@, ciphertext@, tag@)
                == Some(plaintext@),
            opened matches Some(plaintext) ==> plaintext@.len() == ciphertext@.len(),
            opened is None ==> self.opened(key@, nonce@, ciphertext@, tag@) is None,
    {
        let (accepted, plaintext) = match self {
            Cipher::Aes256Gcm => aes_256_gcm_decrypt(key, nonce, ciphertext, tag),
            Cipher::ChaCha20Poly1305 => chacha20_poly1305_decrypt(key, nonce, ciphertext, tag),
        };
        if accepted {
            Some(plaintext)
        } else {
            None
        }
    }
}

/// The plaintext of a token: the padding, then the secret.
pub open spec fn token_plaintext(padding: Seq<u8>, secret: Seq<u8>) -> Seq<u8> {
    padding + secret
}

/// The plaintext of a cookie: the padding, then the expiry, then the secret.
pub open spec fn cookie_plaintext(padding: Seq<u8>, expires: i64, secret: Seq<u8>) -> Seq<u8> {
    padding + expiry_bytes(expires) + secret
}

/// An encoded value: the ciphertext, then the nonce, then the tag.
pub open spec fn encoded(ciphertext: Seq<u8>, nonce: Seq<u8>, tag: Seq<u8>) -> Seq<u8> {
    ciphertext + nonce + tag
}

/// The encoded value of `plaintext` under `key` and `nonce`.
pub open spec fn sealed_value(
    cipher: Cipher,
    key: Seq<u8>,
    nonce: Seq<u8>,
    plaintext: Seq<u8>,
) -> Seq<u8> {
    let (ciphertext, tag) = cipher.sealed(key, nonce, plaintext);
    encoded(ciphertext, nonce, tag)
}

/// The plaintext that the encoded `bytes` open to under `key`, if they have
/// the length of an encoded plaintext of `plaintext_len` bytes and the cipher
/// accepts their tag.
pub open spec fn opened_value(
    cipher: Cipher,
    key: Seq<u8>,
    bytes: Seq<u8>,
    plaintext_len: int,
) -> Option<Seq<u8>> {
    let nonce_end = plaintext_len + cipher.nonce_len();
    if bytes.len() == nonce_end + TAG_LEN {
        cipher.opened(
            key,
            bytes.subrange(plaintext_len, nonce_end),
            bytes.subrange(0, plaintext_len),
            bytes.subrange(nonce_end, nonce_end + TAG_LEN),
        )
    } else {
        None
    }
}

/// The secret that the plaintext of a token holds.
pub open spec fn token_secret(plaintext: Seq<u8>) -> Seq<u8> {
    plaintext.subrange(PADDING_LEN as int, PADDING_LEN + SECRET_LEN)
}

/// The fields that the plaintext of a cookie holds.
pub open spec fn cookie_fields(plaintext: Seq<u8>) -> CookiePayload {
    CookiePayload {
        expires: expiry_from_bytes(
            plaintext.subrange(PADDING_LEN as int, PADDING_LEN + EXPIRY_LEN),
        ),
        secret: plaintext.subrange(
            PADDING_LEN + EXPIRY_LEN,
            PADDING_LEN + EXPIRY_LEN + SECRET_LEN,
        ),
    }
}

/// The secret that the token `bytes` decode to under `key`.
pub open spec fn aead_decoded_token(
    cipher: Cipher,
    key: Seq<u8>,
    bytes: Seq<u8>,
) -> Option<Seq<u8>> {
    match opened_value(cipher, key, bytes, TOKEN_PLAINTEXT_LEN as int) {
        Some(plaintext) => Some(token_secret(plaintext)),
        None => None,
    }
}

/// What the cookie `bytes` decode to under `key`.
pub open spec fn aead_decoded_cookie(
    cipher: Cipher,
    key: Seq<u8>,
    bytes: Seq<u8>,
) -> Option<CookiePayload> {
    match opened_value(cipher, key, bytes, COOKIE_PLAINTEXT_LEN as int) {
        Some(plaintext) => Some(cookie_fields(plaintext)),
        None => None,
    }
}

/// Whether `bytes` encode `secret` as a token under `key`, for some nonce and
/// some padding.
pub open spec fn aead_encodes_token(
    cipher: Cipher,
    key: Seq<u8>,
    bytes: Seq<u8>,
    secret: Seq<u8>,
) -> bool {
    exists|nonce: Seq<u8>, padding: Seq<u8>|
        {
            &&& nonce.len() == cipher.nonce_len()
            &&& padding.len() == PADDING_LEN
            &&& bytes == #[trigger] sealed_value(
                cipher,
                key,
                nonce,
                token_plaintext(padding, secret),
            )
        }
}

/// Whether `bytes` encode `secret` and `expires` as a cookie under `key`, for
/// some nonce and some padding.
pub open spec fn aead_encodes_cookie(
    cipher: Cipher,
    key: Seq<u8>,
    bytes: Seq<u8>,
    secret: Seq<u8>,
    expires: i64,
) -> bool {
    exists|nonce: Seq<u8>, padding: Seq<u8>|
        {
            &&& nonce.len() == cipher.nonce_len()
            &&& padding.len() == PADDING_LEN
            &&& bytes == #[trigger] sealed_value(
                cipher,
                key,
                nonce,
                cookie_plaintext(padding, expires, secret),
            )
        }
}

/// The plaintext of a token has 80 bytes and holds the secret it was made
/// from, whatever the padding.
pub proof fn lemma_token_plaintext_holds_secret(padding: Seq<u8>, secret: Seq<u8>)
    requires
        padding.len() == PADDING_LEN,
        secret.len() == SECRET_LEN,
    ensures
        token_plaintext(padding, secret).len() == TOKEN_PLAINTEXT_LEN,
        token_secret(token_plaintext(padding, secret)) == secret,
{
    assert(token_secret(token_plaintext(padding, secret)) =~= secret);
}

/// The plaintext of a cookie has 88 bytes and holds the expiry and the secret
/// it was made from, whatever the padding.
pub proof fn lemma_cookie_plaintext_holds_fields(padding: Seq<u8>, expires: i64, secret: Seq<u8>)
    requires
        padding.len() == PADDING_LEN,
        secret.len() == SECRET_LEN,
    ensures
        cookie_plaintext(padding, expires, secret).len() == COOKIE_PLAINTEXT_LEN,
        cookie_fields(cookie_plaintext(padding, expires, secret)) == (CookiePayload {
            expires,
            secret,
        }),
{
    lemma_expiry_round_trip(expires);
    let plaintext = cookie_plaintext(padding, expires, secret);
    assert(plaintext.subrange(PADDING_LEN as int, PADDING_LEN + EXPIRY_LEN) =~= expiry_bytes(
        expires,
    ));
    assert(plaintext.subrange(PADDING_LEN + EXPIRY_LEN, PADDING_LEN + EXPIRY_LEN + SECRET_LEN)
        =~= secret);
}

/// Builds the plaintext of a token.
pub fn pack_token(padding: &[u8; 16], token_value: &[u8; 64]) -> (plaintext: Vec<u8>)
    ensures
        plaintext@ == token_plaintext(padding@, token_value@),
        plaintext@.len() == TOKEN_PLAINTEXT_LEN,
        token_secret(plaintext@) == token_value@,
{
    let mut plaintext: Vec<u8> = Vec::new();
    append(&mut plaintext, padding);
    append(&mut plaintext, token_value);
    proof {
        lemma_token_plaintext_holds_secret(padding@, token_value@);
    }
    plaintext
}

/// Builds the plaintext of a cookie.
pub fn pack_cookie(padding: &[u8; 16], expires: i64, token_value: &[u8; 64]) -> (plaintext: Vec<u8>)
    ensures
        plaintext@ == cookie_plaintext(padding@, expires, token_value@),
        plaintext@.len() == COOKIE_PLAINTEXT_LEN,
        cookie_fields(plaintext@) == (CookiePayload { expires, secret: token_value@ }),
{
    let expires_bytes = encode_expiry(expires);
    let mut plaintext: Vec<u8> = Vec::new();
    append(&mut plaintext, padding);
    append(&mut plaintext, &expires_bytes);
    append(&mut plaintext, token_value);
    proof {
        lemma_cookie_plaintext_holds_fields(padding@, expires, token_value@);
    }
    plaintext
}

/// Lines up ciphertext, nonce and tag as an encoded value.
pub fn pack_encoded(ciphertext: &[u8], nonce: &[u8], tag: &[u8]) -> (bytes: Vec<u8>)
    ensures
        bytes@ == encoded(ciphertext@, nonce@, tag@),
{
    let mut bytes: Vec<u8> = Vec::new();
    append(&mut bytes, ciphertext);
    append(&mut bytes, nonce);
    append(&mut bytes, tag);
    bytes
}

/// Splits an encoded value into ciphertext, nonce and tag. Bytes of any
/// length other than `plaintext_len + nonce_len + 16` are not split.
pub fn split_encoded(bytes: &[u8], plaintext_len: usize, nonce_len: usize) -> (parts: Option<
    (&[u8], &[u8], &[u8]),
>)
    ensures
        parts is Some <==> bytes@.len() == plaintext_len + nonce_len + TAG_LEN,
        parts matches Some(split) ==> split.0@ == bytes@.subrange(0, plaintext_len as int),
        parts matches Some(split) ==> split.1@ == bytes@.subrange(
            plaintext_len as int,
            plaintext_len + nonce_len,
        ),
        parts matches Some(split) ==> split.2@ == bytes@.subrange(
            plaintext_len + nonce_len,
            plaintext_len + nonce_len + TAG_LEN,
        ),
{
    let len: usize = bytes.len();
    if len < TAG_LEN || len - TAG_LEN < nonce_len || len - TAG_LEN - nonce_len != plaintext_len {
        return None;
    }
    let nonce_end: usize = plaintext_len + nonce_len;
    let ciphertext = slice_subrange(bytes, 0, plaintext_len);
    let nonce = slice_subrange(bytes, plaintext_len, nonce_end);
    let tag = slice_subrange(bytes, nonce_end, len);
    Some((ciphertext, nonce, tag))
}

/// Reads the secret out of the plaintext of a token. A plaintext of any
/// length other than 80 holds none.
pub fn unpack_token(plaintext: &[u8]) -> (unpacked: Option<UnencryptedCsrfToken>)
    ensures
        unpacked is Some <==> plaintext@.len() == TOKEN_PLAINTEXT_LEN,
        unpacked matches Some(decoded) ==> decoded@ == token_secret(plaintext@),
{
    if plaintext.len() != TOKEN_PLAINTEXT_LEN {
        return None;
    }
    let secret = slice_subrange(plaintext, PADDING_LEN, TOKEN_PLAINTEXT_LEN);
    Some(UnencryptedCsrfToken::new(slice_to_vec(secret)))
}

/// Reads expiry and secret out of the plaintext of a cookie. A plaintext of
/// any length other than 88 holds none.
pub fn unpack_cookie(plaintext: &[u8]) -> (unpacked: Option<UnencryptedCsrfCookie>)
    ensures
        unpacked is Some <==> plaintext@.len() == COOKIE_PLAINTEXT_LEN,
        unpacked matches Some(decoded) ==> decoded@ == cookie_fields(plaintext@),
{
    if plaintext.len() != COOKIE_PLAINTEXT_LEN {
        return None;
    }
    let expires: i64 = decode_expiry(
        slice_subrange(plaintext, PADDING_LEN, PADDING_LEN + EXPIRY_LEN),
    );
    let secret = slice_subrange(plaintext, PADDING_LEN + EXPIRY_LEN, COOKIE_PLAINTEXT_LEN);
    Some(UnencryptedCsrfCookie::new(expires, slice_to_vec(secret)))
}

/// An encoded value opens to the plaintext it was sealed from, whenever the
/// cipher opens what it sealed.
proof fn lemma_sealed_value_opens(cipher: Cipher, key: Seq<u8>, nonce: Seq<u8>, plaintext: Seq<u8>)
    requires
        nonce.len() == cipher.nonce_len(),
        cipher.sealed(key, nonce, plaintext).0.len() == plaintext.len(),
        cipher.sealed(key, nonce, plaintext).1.len() == TAG_LEN,
        cipher.opened(
            key,
            nonce,
            cipher.sealed(key, nonce, plaintext).0,
            cipher.sealed(key, nonce, plaintext).1,
        ) == Some(plaintext),
    ensures
        sealed_value(cipher, key, nonce, plaintext).len() == cipher.encoded_len(plaintext.len()),
        opened_value(
            cipher,
            key,
            sealed_value(cipher, key, nonce, plaintext),
            plaintext.len() as int,
        ) == Some(plaintext),
{
    let (ciphertext, tag) = cipher.sealed(key, nonce, plaintext);
    let bytes = encoded(ciphertext, nonce, tag);
    let n = plaintext.len() as int;
    let nonce_end = n + cipher.nonce_len();
    assert(bytes.subrange(0, n) =~= ciphertext);
    assert(bytes.subrange(n, nonce_end) =~= nonce);
    assert(bytes.subrange(nonce_end, nonce_end + TAG_LEN) =~= tag);
}

/// Encodes a plaintext under `key` and `nonce`.
pub fn seal_value(
    cipher: Cipher,
    key: &[u8; 32],
    nonce: &[u8],
    plaintext: &[u8],
) -> (bytes: Vec<u8>)
    requires
        nonce@.len() == cipher.nonce_len(),
    ensures
        bytes@ == sealed_value(cipher, key@, nonce@, plaintext@),
        bytes@.len() == cipher.encoded_len(plaintext@.len()),
        opened_value(cipher, key@, bytes@, plaintext@.len() as int) == Some(plaintext@),
{
    let (ciphertext, tag) = cipher.seal(key, nonce, plaintext);
    proof {
        lemma_sealed_value_opens(cipher, key@, nonce@, plaintext@);
    }
    pack_encoded(ciphertext.as_slice(), nonce, tag.as_slice())
}

/// Decodes an encoded value of a plaintext of `plaintext_len` bytes under
/// `key`: checks the length, then lets the cipher check the tag and decrypt.
pub fn open_value(cipher: Cipher, key: &[u8; 32], bytes: &[u8], plaintext_len: usize) -> (opened:
    Option<Vec<u8>>)
    ensures
        bytes@.len() != cipher.encoded_len(plaintext_len as nat) ==> opened is None,
        opened matches Some(plaintext) ==> opened_value(cipher, key@, bytes@, plaintext_len as int)
            == Some(plaintext@),
        opened matches Some(plaintext) ==> plaintext@.len() == plaintext_len,
        opened is None ==> opened_value(cipher, key@, bytes@, plaintext_len as int) is None,
{
    match split_encoded(bytes, plaintext_len, cipher.nonce_length()) {
        None => None,
        Some((ciphertext, nonce, tag)) => cipher.open(key, nonce, ciphertext, tag),
    }
}

/// Creates the token that carries `token_value`, encrypted under `key` with
/// the given nonce and padding.
pub fn seal_token(
    cipher: Cipher,
    key: &[u8; 32],
    token_value: &[u8; 64],
    nonce: &[u8],
    padding: &[u8; 16],
) -> (token: CsrfToken)
    requires
        nonce@.len() == cipher.nonce_len(),
    ensures
        token@ == sealed_value(cipher, key@, nonce@, token_plaintext(padding@, token_value@)),
        token@.len() == cipher.encoded_len(TOKEN_PLAINTEXT_LEN as nat),
        aead_encodes_token(cipher, key@, token@, token_value@),
        aead_decoded_token(cipher, key@, token@) == Some(token_value@),
{
    let plaintext = pack_token(padding, token_value);
    CsrfToken::new(seal_value(cipher, key, nonce, plaintext.as_slice()))
}

/// Creates the cookie that carries `token_value` and expires at `expires`,
/// encrypted under `key` with the given nonce and padding.
pub fn seal_cookie(
    cipher: Cipher,
    key: &[u8; 32],
    token_value: &[u8; 64],
    expires: i64,
    nonce: &[u8],
    padding: &[u8; 16],
) -> (cookie: CsrfCookie)
    requires
        nonce@.len() == cipher.nonce_len(),
    ensures
        cookie@ == sealed_value(
            cipher,
            key@,
            nonce@,
            cookie_plaintext(padding@, expires, token_value@),
        ),
        cookie@.len() == cipher.encoded_len(COOKIE_PLAINTEXT_LEN as nat),
        aead_encodes_cookie(cipher, key@, cookie@, token_value@, expires),
        aead_decoded_cookie(cipher, key@, cookie@) == Some(
            CookiePayload { expires, secret: token_value@ },
        ),
{
    let plaintext = pack_cookie(padding, expires, token_value);
    CsrfCookie::new(seal_value(cipher, key, nonce, plaintext.as_slice()))
}

/// Decodes a token under `key`.
pub fn open_token(cipher: Cipher, key: &[u8; 32], token: &[u8]) -> (parsed: Result<
    UnencryptedCsrfToken,
    CsrfError,
>)
    ensures
        token@.len() != cipher.encoded_len(TOKEN_PLAINTEXT_LEN as nat) ==> parsed is Err,
        parsed matches Ok(decoded) ==> aead_decoded_token(cipher, key@, token@) == Some(decoded@),
        parsed matches Ok(decoded) ==> decoded@.len() == SECRET_LEN,
        parsed matches Err(e) ==> e == CsrfError::ValidationFailure,
        parsed is Err ==> aead_decoded_token(cipher, key@, token@) is None,
{
    match open_value(cipher, key, token, TOKEN_PLAINTEXT_LEN) {
        None => Err(CsrfError::ValidationFailure),
        Some(plaintext) => match unpack_token(plaintext.as_slice()) {
            Some(decoded) => Ok(decoded),
            None => Err(CsrfError::ValidationFailure),
        },
    }
}

/// Decodes a cookie under `key`.
pub fn open_cookie(cipher: Cipher, key: &[u8; 32], cookie: &[u8]) -> (parsed: Result<
    UnencryptedCsrfCookie,
    CsrfError,
>)
    ensures
        cookie@.len() != cipher.encoded_len(COOKIE_PLAINTEXT_LEN as nat) ==> parsed is Err,
        parsed matches Ok(decoded) ==> aead_decoded_cookie(cipher, key@, cookie@) == Some(decoded@),
        parsed matches Ok(decoded) ==> decoded@.secret.len() == SECRET_LEN,
        parsed matches Err(e) ==> e == CsrfError::ValidationFailure,
        parsed is Err ==> aead_decoded_cookie(cipher, key@, cookie@) is None,
{
    match open_value(cipher, key, cookie, COOKIE_PLAINTEXT_LEN) {
        None => Err(CsrfError::ValidationFailure),
        Some(plaintext) => match unpack_cookie(plaintext.as_slice()) {
            Some(decoded) => Ok(decoded),
            None => Err(CsrfError::ValidationFailure),
        },
    }
}

} // verus!
