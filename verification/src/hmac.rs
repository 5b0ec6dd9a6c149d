//! The HMAC backend: tokens and cookies that carry their payload in the clear,
//! followed by its HMAC-SHA-256 code.
//!
//! ```text
//! token  = secret(64) | code(32)                 96 bytes
//! cookie = secret(64) | expires(8) | code(32)   104 bytes
//! ```
//!
//! The code of a token is taken over the secret, that of a cookie over secret
//! and expiry. The payload is not hidden: the backend protects its integrity
//! only.

use crate::bytes::append;
use crate::error::CsrfError;
use crate::primitives::clock_seconds;
use crate::primitives::codes_match;
use crate::primitives::hmac_sha256;
use crate::primitives::hmac_sha256_code;
use crate::primitives::MAC_LEN;
use crate::protection::derive_key;
use crate::protection::CsrfProtection;
use crate::timestamp::decode_expiry;
use crate::timestamp::encode_expiry;
use crate::timestamp::expiry_at;
use crate::timestamp::expiry_bytes;
use crate::timestamp::expiry_from_bytes;
use crate::timestamp::lemma_expiry_round_trip;
use crate::timestamp::EXPIRY_LEN;
use crate::values::CookiePayload;
use crate::values::CsrfCookie;
use crate::values::CsrfToken;
use crate::values::UnencryptedCsrfCookie;
use crate::values::UnencryptedCsrfToken;
use crate::values::SECRET_LEN;
use ring::rand::SystemRandom;
use vstd::prelude::*;
use vstd::slice::slice_subrange;
use vstd::slice::slice_to_vec;

verus! {

/// Length in bytes of a token of the HMAC backend.
pub const HMAC_TOKEN_LEN: usize = 96;

/// Length in bytes of a cookie of the HMAC backend.
pub const HMAC_COOKIE_LEN: usize = 104;

/// Length in bytes of what a cookie's code is taken over: secret and expiry.
pub const HMAC_COOKIE_PAYLOAD_LEN: usize = 72;

/// The payload of a cookie: the secret, then the expiry.
pub open spec fn hmac_cookie_payload(secret: Seq<u8>, expires: i64) -> Seq<u8> {
    secret + expiry_bytes(expires)
}

/// A payload followed by its code under `key`.
pub open spec fn hmac_signed(key: Seq<u8>, payload: Seq<u8>) -> Seq<u8> {
    payload + hmac_sha256(key, payload)
}

/// The payload that the signed `bytes` carry, if they are `payload_len` bytes
/// followed by the 32-byte code of those under `key`.
pub open spec fn hmac_verified(key: Seq<u8>, bytes: Seq<u8>, payload_len: int) -> Option<Seq<u8>> {
    if bytes.len() == payload_len + MAC_LEN && bytes.subrange(payload_len, payload_len + MAC_LEN)
        == hmac_sha256(key, bytes.subrange(0, payload_len)) {
        Some(bytes.subrange(0, payload_len))
    } else {
        None
    }
}

/// The secret that the token `bytes` decode to under `key`.
pub open spec fn hmac_decoded_token(key: Seq<u8>, bytes: Seq<u8>) -> Option<Seq<u8>> {
    hmac_verified(key, bytes, SECRET_LEN as int)
}

/// The fields of a cookie's payload.
pub open spec fn hmac_cookie_fields(payload: Seq<u8>) -> CookiePayload {
    CookiePayload {
        expires: expiry_from_bytes(
            payload.subrange(SECRET_LEN as int, SECRET_LEN + EXPIRY_LEN),
        ),
        secret: payload.subrange(0, SECRET_LEN as int),
    }
}

/// What the cookie `bytes` decode to under `key`.
pub open spec fn hmac_decoded_cookie(key: Seq<u8>, bytes: Seq<u8>) -> Option<CookiePayload> {
    match hmac_verified(key, bytes, HMAC_COOKIE_PAYLOAD_LEN as int) {
        Some(payload) => Some(hmac_cookie_fields(payload)),
        None => None,
    }
}

/// The payload of a cookie has 72 bytes and holds the expiry and the secret
/// it was made from.
pub proof fn lemma_cookie_payload_holds_fields(secret: Seq<u8>, expires: i64)
    requires
        secret.len() == SECRET_LEN,
    ensures
        hmac_cookie_payload(secret, expires).len() == HMAC_COOKIE_PAYLOAD_LEN,
        hmac_cookie_fields(hmac_cookie_payload(secret, expires)) == (CookiePayload {
            expires,
            secret,
        }),
{
    lemma_expiry_round_trip(expires);
    let payload = hmac_cookie_payload(secret, expires);
    assert(payload.subrange(0, SECRET_LEN as int) =~= secret);
    assert(payload.subrange(SECRET_LEN as int, SECRET_LEN + EXPIRY_LEN) =~= expiry_bytes(expires));
}

/// Builds the payload of a cookie: the secret, then the eight bytes of the
/// expiry.
pub fn cookie_payload(token_value: &[u8; 64], expires: i64) -> (payload: Vec<u8>)
    ensures
        payload@ == hmac_cookie_payload(token_value@, expires),
        payload@.len() == HMAC_COOKIE_PAYLOAD_LEN,
{
    let expires_bytes = encode_expiry(expires);
    let mut payload: Vec<u8> = Vec::new();
    append(&mut payload, token_value);
    append(&mut payload, &expires_bytes);
    proof {
        lemma_cookie_payload_holds_fields(token_value@, expires);
    }
    payload
}

/// Puts a code behind the payload it was taken over.
pub fn with_code(payload: &[u8], code: &[u8]) -> (signed: Vec<u8>)
    ensures
        signed@ == payload@ + code@,
{
    let mut signed: Vec<u8> = Vec::new();
    append(&mut signed, payload);
    append(&mut signed, code);
    signed
}

/// Splits signed bytes into payload and code. Bytes of any length other than
/// `payload_len + 32` are not split.
pub fn split_code(bytes: &[u8], payload_len: usize) -> (parts: Option<(&[u8], &[u8])>)
    ensures
        parts is Some <==> bytes@.len() == payload_len + MAC_LEN,
        parts matches Some(split) ==> split.0@ == bytes@.subrange(0, payload_len as int),
        parts matches Some(split) ==> split.1@ == bytes@.subrange(
            payload_len as int,
            payload_len + MAC_LEN,
        ),
{
    if bytes.len() < MAC_LEN || bytes.len() - MAC_LEN != payload_len {
        return None;
    }
    let payload = slice_subrange(bytes, 0, payload_len);
    let code = slice_subrange(bytes, payload_len, bytes.len());
    Some((payload, code))
}

/// Turns the payload of a token into the decoded token, provided that the
/// code it came with was found `authentic` and that it has the length of a
/// secret.
pub fn token_from_payload(payload: &[u8], authentic: bool) -> (parsed: Result<
    UnencryptedCsrfToken,
    CsrfError,
>)
    ensures
        parsed is Ok <==> authentic && payload@.len() == SECRET_LEN,
        parsed matches Ok(decoded) ==> decoded@ == payload@,
        parsed matches Err(e) ==> e == CsrfError::ValidationFailure,
{
    if !authentic || payload.len() != SECRET_LEN {
        return Err(CsrfError::ValidationFailure);
    }
    Ok(UnencryptedCsrfToken::new(slice_to_vec(payload)))
}

/// Turns the payload of a cookie into the decoded cookie, provided that the
/// code it came with was found `authentic` and that it has the length of a
/// secret and an expiry.
pub fn cookie_from_payload(payload: &[u8], authentic: bool) -> (parsed: Result<
    UnencryptedCsrfCookie,
    CsrfError,
>)
    ensures
        parsed is Ok <==> authentic && payload@.len() == HMAC_COOKIE_PAYLOAD_LEN,
        parsed matches Ok(decoded) ==> decoded@ == hmac_cookie_fields(payload@),
        parsed matches Err(e) ==> e == CsrfError::ValidationFailure,
{
    if !authentic || payload.len() != HMAC_COOKIE_PAYLOAD_LEN {
        return Err(CsrfError::ValidationFailure);
    }
    let secret = slice_subrange(payload, 0, SECRET_LEN);
    let expires: i64 = decode_expiry(
        slice_subrange(payload, SECRET_LEN, HMAC_COOKIE_PAYLOAD_LEN),
    );
    Ok(UnencryptedCsrfCookie::new(expires, slice_to_vec(secret)))
}

/// Signed bytes whose code was altered, and nothing else, are rejected.
pub proof fn lemma_altered_code_rejected(
    key: Seq<u8>,
    bytes: Seq<u8>,
    altered: Seq<u8>,
    payload_len: int,
)
    requires
        0 <= payload_len,
        hmac_verified(key, bytes, payload_len) is Some,
        altered.len() == bytes.len(),
        altered.subrange(0, payload_len) == bytes.subrange(0, payload_len),
        altered != bytes,
    ensures
        hmac_verified(key, altered, payload_len) is None,
{
    if hmac_verified(key, altered, payload_len) is Some {
        let end = payload_len + MAC_LEN;
        let head = altered.subrange(0, payload_len);
        let tail = altered.subrange(payload_len, end);
        assert(tail == bytes.subrange(payload_len, end));
        assert forall|i: int| 0 <= i < altered.len() implies altered[i] == bytes[i] by {
            if i < payload_len {
                assert(altered[i] == head[i]);
                assert(bytes[i] == bytes.subrange(0, payload_len)[i]);
            } else {
                assert(altered[i] == tail[i - payload_len]);
                assert(bytes[i] == bytes.subrange(payload_len, end)[i - payload_len]);
            }
        }
        assert(altered =~= bytes);
    }
}

/// A payload that carries its own code under `key` verifies and is recovered
/// unchanged, whenever that code has the length of an HMAC-SHA-256 code.
proof fn lemma_signed_verifies(key: Seq<u8>, payload: Seq<u8>)
    requires
        hmac_sha256(key, payload).len() == MAC_LEN,
    ensures
        hmac_verified(key, hmac_signed(key, payload), payload.len() as int) == Some(payload),
{
    let bytes = hmac_signed(key, payload);
    let n = payload.len() as int;
    assert(bytes.subrange(0, n) =~= payload);
    assert(bytes.subrange(n, n + MAC_LEN) =~= hmac_sha256(key, payload));
}

/// Uses HMAC to provide authenticated CSRF tokens and cookies.
pub struct HmacCsrfProtection {
    rng: SystemRandom,
    hmac_key: [u8; 32],
}

impl HmacCsrfProtection {
    /// Given an HMAC key, returns an `HmacCsrfProtection` instance.
    pub fn from_key(hmac_key: [u8; 32]) -> (protect: Self)
        ensures
            protect.key_material() == hmac_key@,
    {
        HmacCsrfProtection { rng: SystemRandom::new(), hmac_key: hmac_key }
    }

    /// Creates the cookie that carries the given secret and expires at the
    /// given clock reading.
    pub fn cookie_expiring_at(&self, token_value: &[u8; 64], expires: i64) -> (cookie: CsrfCookie)
        ensures
            cookie@ == hmac_signed(
                self.key_material(),
                hmac_cookie_payload(token_value@, expires),
            ),
            cookie@.len() == HMAC_COOKIE_LEN,
            hmac_decoded_cookie(self.key_material(), cookie@) == Some(
                CookiePayload { expires, secret: token_value@ },
            ),
    {
        let payload = cookie_payload(token_value, expires);
        let code = hmac_sha256_code(&self.hmac_key, payload.as_slice());
        let transport = with_code(payload.as_slice(), code.as_slice());
        proof {
            lemma_signed_verifies(self.hmac_key@, payload@);
            lemma_cookie_payload_holds_fields(token_value@, expires);
        }
        CsrfCookie::new(transport)
    }
}

impl CsrfProtection for HmacCsrfProtection {
    closed spec fn key_material(&self) -> Seq<u8> {
        self.hmac_key@
    }

    closed spec fn generator(&self) -> SystemRandom {
        self.rng
    }

    open spec fn randomized(&self) -> bool {
        false
    }

    open spec fn token_len(&self) -> nat {
        HMAC_TOKEN_LEN as nat
    }

    open spec fn cookie_len(&self) -> nat {
        HMAC_COOKIE_LEN as nat
    }

    open spec fn encodes_token(&self, bytes: Seq<u8>, secret: Seq<u8>) -> bool {
        bytes == hmac_signed(self.key_material(), secret)
    }

    open spec fn encodes_cookie(&self, bytes: Seq<u8>, secret: Seq<u8>, expires: i64) -> bool {
        bytes == hmac_signed(self.key_material(), hmac_cookie_payload(secret, expires))
    }

    open spec fn decoded_token(&self, bytes: Seq<u8>) -> Option<Seq<u8>> {
        hmac_decoded_token(self.key_material(), bytes)
    }

    open spec fn decoded_cookie(&self, bytes: Seq<u8>) -> Option<CookiePayload> {
        hmac_decoded_cookie(self.key_material(), bytes)
    }

    /// Derives the key material with scrypt at cost `2^12`, block size 8
    /// and parallelism 1.
    fn from_password(password: &[u8]) -> (protect: Self) {
        HmacCsrfProtection::from_key(derive_key(password))
    }

    fn rng(&self) -> (rng: &SystemRandom) {
        let rng = &self.rng;
        assert(*rng == self.generator());
        rng
    }

    /// Never fails. The cookie is the one that
    /// [`HmacCsrfProtection::cookie_expiring_at`] gives for the expiry
    /// `ttl_seconds` after the clock reading taken here.
    fn generate_cookie(&self, token_value: &[u8; 64], ttl_seconds: i64) -> (issued: Result<
        CsrfCookie,
        CsrfError,
    >)
        ensures
            issued is Ok,
    {
        let expires: i64 = expiry_at(clock_seconds(), ttl_seconds);
        let cookie = self.cookie_expiring_at(token_value, expires);
        Ok(cookie)
    }

    /// Never fails, and gives the same token whenever it is asked for the
    /// same secret.
    fn generate_token(&self, token_value: &[u8; 64]) -> (issued: Result<CsrfToken, CsrfError>)
        ensures
            issued is Ok,
    {
        let code = hmac_sha256_code(&self.hmac_key, token_value);
        let transport = with_code(token_value, code.as_slice());
        proof {
            lemma_signed_verifies(self.hmac_key@, token_value@);
        }
        Ok(CsrfToken::new(transport))
    }

    fn parse_cookie(&self, cookie: &[u8]) -> (parsed: Result<UnencryptedCsrfCookie, CsrfError>) {
        match split_code(cookie, HMAC_COOKIE_PAYLOAD_LEN) {
            None => Err(CsrfError::ValidationFailure),
            Some((payload, code)) => {
                let computed = hmac_sha256_code(&self.hmac_key, payload);
                let authentic = codes_match(computed.as_slice(), code);
                cookie_from_payload(payload, authentic)
            },
        }
    }

    fn parse_token(&self, token: &[u8]) -> (parsed: Result<UnencryptedCsrfToken, CsrfError>) {
        match split_code(token, SECRET_LEN) {
            None => Err(CsrfError::ValidationFailure),
            Some((payload, code)) => {
                let computed = hmac_sha256_code(&self.hmac_key, payload);
                let authentic = codes_match(computed.as_slice(), code);
                token_from_payload(payload, authentic)
            },
        }
    }
}

} // verus!
