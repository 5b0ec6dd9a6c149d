//! The ChaCha20-Poly1305 backend: tokens and cookies whose payload is encrypted
//! and authenticated.
//!
//! ```text
//! token  = ciphertext(80) | nonce(8)  | tag(16)   104 bytes
//! cookie = ciphertext(88) | nonce(8)  | tag(16)   112 bytes
//! ```
//!
//! Every encoding draws a fresh nonce and fresh padding, so that two
//! encodings of the same secret differ.

use crate::aead::aead_decoded_cookie;
use crate::aead::aead_decoded_token;
use crate::aead::aead_encodes_cookie;
use crate::aead::aead_encodes_token;
use crate::aead::cookie_plaintext;
use crate::aead::open_cookie;
use crate::aead::open_token;
use crate::aead::seal_cookie;
use crate::aead::seal_token;
use crate::aead::sealed_value;
use crate::aead::token_plaintext;
use crate::aead::Cipher;
use crate::error::CsrfError;
use crate::primitives::clock_seconds;
use crate::protection::derive_key;
use crate::protection::CsrfProtection;
use crate::timestamp::expiry_at;
use crate::values::CookiePayload;
use crate::values::CsrfCookie;
use crate::values::CsrfToken;
use crate::values::UnencryptedCsrfCookie;
use crate::values::UnencryptedCsrfToken;
use ring::rand::SystemRandom;
use vstd::prelude::*;

verus! {

/// Length in bytes of a token of the ChaCha20-Poly1305 backend.
pub const CHACHA20_POLY1305_TOKEN_LEN: usize = 104;

/// Length in bytes of a cookie of the ChaCha20-Poly1305 backend.
pub const CHACHA20_POLY1305_COOKIE_LEN: usize = 112;

/// Uses ChaCha20Poly1305 to provide signed, encrypted CSRF tokens and cookies.
pub struct ChaCha20Poly1305CsrfProtection {
    rng: SystemRandom,
    aead_key: [u8; 32],
}

impl ChaCha20Poly1305CsrfProtection {
    /// Given a key, returns a `ChaCha20Poly1305CsrfProtection` instance.
    pub fn from_key(aead_key: [u8; 32]) -> (protect: Self)
        ensures
            protect.key_material() == aead_key@,
    {
        ChaCha20Poly1305CsrfProtection { rng: SystemRandom::new(), aead_key: aead_key }
    }

    /// Creates the token that carries the given secret, encrypted with the
    /// given nonce and padding.
    pub fn token_with(
        &self,
        token_value: &[u8; 64],
        nonce: &[u8; 8],
        padding: &[u8; 16],
    ) -> (token: CsrfToken)
        ensures
            token@ == sealed_value(
                Cipher::ChaCha20Poly1305,
                self.key_material(),
                nonce@,
                token_plaintext(padding@, token_value@),
            ),
            token@.len() == CHACHA20_POLY1305_TOKEN_LEN,
            self.encodes_token(token@, token_value@),
            self.decoded_token(token@) == Some(token_value@),
    {
        seal_token(Cipher::ChaCha20Poly1305, &self.aead_key, token_value, nonce, padding)
    }

    /// Creates the cookie that carries the given secret and expires at the
    /// given clock reading, encrypted with the given nonce and padding.
    pub fn cookie_with(
        &self,
        token_value: &[u8; 64],
        expires: i64,
        nonce: &[u8; 8],
        padding: &[u8; 16],
    ) -> (cookie: CsrfCookie)
        ensures
            cookie@ == sealed_value(
                Cipher::ChaCha20Poly1305,
                self.key_material(),
                nonce@,
                cookie_plaintext(padding@, expires, token_value@),
            ),
            cookie@.len() == CHACHA20_POLY1305_COOKIE_LEN,
            self.encodes_cookie(cookie@, token_value@, expires),
            self.decoded_cookie(cookie@) == Some(CookiePayload { expires, secret: token_value@ }),
    {
        seal_cookie(Cipher::ChaCha20Poly1305, &self.aead_key, token_value, expires, nonce, padding)
    }
}

impl CsrfProtection for ChaCha20Poly1305CsrfProtection {
    closed spec fn key_material(&self) -> Seq<u8> {
        self.aead_key@
    }

    closed spec fn generator(&self) -> SystemRandom {
        self.rng
    }

    open spec fn randomized(&self) -> bool {
        true
    }

    open spec fn token_len(&self) -> nat {
        CHACHA20_POLY1305_TOKEN_LEN as nat
    }

    open spec fn cookie_len(&self) -> nat {
        CHACHA20_POLY1305_COOKIE_LEN as nat
    }

    open spec fn encodes_token(&self, bytes: Seq<u8>, secret: Seq<u8>) -> bool {
        aead_encodes_token(Cipher::ChaCha20Poly1305, self.key_material(), bytes, secret)
    }

    open spec fn encodes_cookie(&self, bytes: Seq<u8>, secret: Seq<u8>, expires: i64) -> bool {
        aead_encodes_cookie(Cipher::ChaCha20Poly1305, self.key_material(), bytes, secret, expires)
    }

    open spec fn decoded_token(&self, bytes: Seq<u8>) -> Option<Seq<u8>> {
        aead_decoded_token(Cipher::ChaCha20Poly1305, self.key_material(), bytes)
    }

    open spec fn decoded_cookie(&self, bytes: Seq<u8>) -> Option<CookiePayload> {
        aead_decoded_cookie(Cipher::ChaCha20Poly1305, self.key_material(), bytes)
    }

    /// Derives the key material with scrypt at cost `2^12`, block size 8
    /// and parallelism 1.
    fn from_password(password: &[u8]) -> (protect: Self) {
        ChaCha20Poly1305CsrfProtection::from_key(derive_key(password))
    }

    fn rng(&self) -> (rng: &SystemRandom) {
        let rng = &self.rng;
        assert(*rng == self.generator());
        rng
    }

    /// Fails only if the random source does. The cookie is the one that
    /// [`ChaCha20Poly1305CsrfProtection::cookie_with`] gives for the nonce and
    /// padding drawn here and the expiry `ttl_seconds` after the clock
    /// reading taken here.
    fn generate_cookie(&self, token_value: &[u8; 64], ttl_seconds: i64) -> (issued: Result<
        CsrfCookie,
        CsrfError,
    >) {
        let expires: i64 = expiry_at(clock_seconds(), ttl_seconds);
        let mut nonce = [0u8; 8];
        self.random_bytes(&mut nonce)?;
        let mut padding = [0u8; 16];
        self.random_bytes(&mut padding)?;
        let cookie = self.cookie_with(token_value, expires, &nonce, &padding);
        Ok(cookie)
    }

    /// Fails only if the random source does. The token is the one that
    /// [`ChaCha20Poly1305CsrfProtection::token_with`] gives for the nonce and
    /// padding drawn here.
    fn generate_token(&self, token_value: &[u8; 64]) -> (issued: Result<CsrfToken, CsrfError>) {
        let mut nonce = [0u8; 8];
        self.random_bytes(&mut nonce)?;
        let mut padding = [0u8; 16];
        self.random_bytes(&mut padding)?;
        Ok(self.token_with(token_value, &nonce, &padding))
    }

    fn parse_cookie(&self, cookie: &[u8]) -> (parsed: Result<UnencryptedCsrfCookie, CsrfError>) {
        open_cookie(Cipher::ChaCha20Poly1305, &self.aead_key, cookie)
    }

    fn parse_token(&self, token: &[u8]) -> (parsed: Result<UnencryptedCsrfToken, CsrfError>) {
        open_token(Cipher::ChaCha20Poly1305, &self.aead_key, token)
    }
}

} // verus!
