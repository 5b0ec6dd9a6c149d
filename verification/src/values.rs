//! The values that travel between server and client, and what they decode to.
//!
//! [`CsrfToken`] and [`CsrfCookie`] are opaque encoded bytes, meant to be shown
//! as base64 text. [`UnencryptedCsrfToken`] and [`UnencryptedCsrfCookie`] hold
//! what a backend recovered from them.

use crate::primitives::base64_encode;
use crate::primitives::base64_len;
use crate::primitives::base64_text;
use crate::primitives::base64url_encode;
use crate::primitives::base64url_text;
use vstd::prelude::*;

verus! {

/// Length in bytes of the secret value that binds a token to its cookie.
pub const SECRET_LEN: usize = 64;

/// What a cookie carries once decoded: the secret it shares with its token and
/// the second at which it expires.
pub struct CookiePayload {
    /// Clock reading, in seconds, from which on the cookie is stale.
    pub expires: i64,
    /// The secret value.
    pub secret: Seq<u8>,
}

/// An encoded CSRF token, suitable to be handed to end users.
#[derive(Eq, PartialEq, Debug, Clone, Hash)]
pub struct CsrfToken {
    bytes: Vec<u8>,
}

impl View for CsrfToken {
    type V = Seq<u8>;

    /// The encoded bytes.
    closed spec fn view(&self) -> Seq<u8> {
        self.bytes@
    }
}

impl CsrfToken {
    /// Creates a token from its encoded bytes. The bytes are not checked.
    pub fn new(bytes: Vec<u8>) -> (token: Self)
        ensures
            token@ == bytes@,
    {
        CsrfToken { bytes: bytes }
    }

    /// The token as base64 text in the standard alphabet.
    pub fn b64_string(&self) -> (text: String)
        requires
            self@.len() <= usize::MAX / 512,
        ensures
            text@ == base64_text(self@),
            text@.len() == base64_len(self@.len()),
    {
        base64_encode(self.bytes.as_slice())
    }

    /// The token as base64 text in the URL-safe alphabet.
    pub fn b64_url_string(&self) -> (text: String)
        requires
            self@.len() <= usize::MAX / 512,
        ensures
            text@ == base64url_text(self@),
            text@.len() == base64_len(self@.len()),
    {
        base64url_encode(self.bytes.as_slice())
    }

    /// The encoded bytes of this token.
    pub fn value(&self) -> (bytes: &[u8])
        ensures
            bytes@ == self@,
    {
        self.bytes.as_slice()
    }
}

/// An encoded CSRF cookie, suitable to be handed to end users.
#[derive(Debug, Eq, PartialEq, Clone, Hash)]
pub struct CsrfCookie {
    bytes: Vec<u8>,
}

impl View for CsrfCookie {
    type V = Seq<u8>;

    /// The encoded bytes.
    closed spec fn view(&self) -> Seq<u8> {
        self.bytes@
    }
}

impl CsrfCookie {
    /// Creates a cookie from its encoded bytes. The bytes are not checked.
    pub fn new(bytes: Vec<u8>) -> (cookie: Self)
        ensures
            cookie@ == bytes@,
    {
        CsrfCookie { bytes: bytes }
    }

    /// The cookie as base64 text in the standard alphabet.
    pub fn b64_string(&self) -> (text: String)
        requires
            self@.len() <= usize::MAX / 512,
        ensures
            text@ == base64_text(self@),
            text@.len() == base64_len(self@.len()),
    {
        base64_encode(self.bytes.as_slice())
    }

    /// The encoded bytes of this cookie.
    pub fn value(&self) -> (bytes: &[u8])
        ensures
            bytes@ == self@,
    {
        self.bytes.as_slice()
    }
}

/// A decoded CSRF token. Not suitable to be sent to end users.
#[derive(Clone, Debug, Eq, PartialEq, Hash)]
pub struct UnencryptedCsrfToken {
    token: Vec<u8>,
}

impl View for UnencryptedCsrfToken {
    type V = Seq<u8>;

    /// The secret value.
    closed spec fn view(&self) -> Seq<u8> {
        self.token@
    }
}

impl UnencryptedCsrfToken {
    /// Creates a decoded token that holds the given secret value.
    pub fn new(token: Vec<u8>) -> (decoded: Self)
        ensures
            decoded@ == token@,
    {
        UnencryptedCsrfToken { token: token }
    }

    /// The secret value. The older name of [`UnencryptedCsrfToken::value`].
    pub fn token(&self) -> (secret: &[u8])
        ensures
            secret@ == self@,
    {
        self.token.as_slice()
    }

    /// The secret value.
    pub fn value(&self) -> (secret: &[u8])
        ensures
            secret@ == self@,
    {
        self.token.as_slice()
    }
}

/// A decoded CSRF cookie. Not suitable to be sent to end users.
#[derive(Clone, Debug, Eq, PartialEq, Hash)]
pub struct UnencryptedCsrfCookie {
    expires: i64,
    token: Vec<u8>,
}

impl View for UnencryptedCsrfCookie {
    type V = CookiePayload;

    /// Expiry and secret value.
    closed spec fn view(&self) -> CookiePayload {
        CookiePayload { expires: self.expires, secret: self.token@ }
    }
}

impl UnencryptedCsrfCookie {
    /// Creates a decoded cookie that holds the given expiry and secret value.
    pub fn new(expires: i64, token: Vec<u8>) -> (decoded: Self)
        ensures
            decoded@.expires == expires,
            decoded@.secret == token@,
    {
        UnencryptedCsrfCookie { expires: expires, token: token }
    }

    /// The secret value.
    pub fn value(&self) -> (secret: &[u8])
        ensures
            secret@ == self@.secret,
    {
        self.token.as_slice()
    }

    /// The clock reading, in seconds, from which on the cookie is stale.
    pub fn expires(&self) -> (expires: i64)
        ensures
            expires == self@.expires,
    {
        self.expires
    }
}

} // verus!
