//! The protection capability: what every backend offers, and the checks that
//! do not depend on the backend.

use crate::bytes::bytes_equal;
use crate::error::CsrfError;
use crate::primitives::clock_reading;
use crate::primitives::clock_seconds;
use crate::primitives::fill_random;
use crate::primitives::scrypt_derive;
use crate::primitives::scrypt_key;
use crate::timestamp::expires_after_reading;
use crate::timestamp::expiry_after;
use crate::values::CookiePayload;
use crate::values::CsrfCookie;
use crate::values::CsrfToken;
use crate::values::UnencryptedCsrfCookie;
use crate::values::UnencryptedCsrfToken;
use crate::values::SECRET_LEN;
use ring::error::Unspecified;
use ring::rand::SystemRandom;
use vstd::prelude::*;

verus! {

/// The name of the cookie for the CSRF validation data and signature.
pub const CSRF_COOKIE_NAME: &'static str = "csrf";

/// The name of the form field for the CSRF token.
pub const CSRF_FORM_FIELD: &'static str = "csrf-token";

/// The name of the HTTP header for the CSRF token.
pub const CSRF_HEADER: &'static str = "X-CSRF-Token";

/// The name of the query parameter for the CSRF token.
pub const CSRF_QUERY_STRING: &'static str = "csrf-token";

/// The salt of every key derivation, the bytes of `rust-csrf-scrypt-salt`.
///
/// The salt is compiled in: two deployments that use the same password derive
/// the same key.
pub const SCRYPT_SALT: [u8; 21] = [
    114, 117, 115, 116, 45, 99, 115, 114, 102, 45, 115, 99, 114, 121, 112, 116, 45, 115, 97, 108,
    116,
];

/// Binary logarithm of the scrypt cost `N` of a key derivation for
/// production use.
pub const SCRYPT_LOG_N: u8 = 12;

/// The largest binary logarithm of the scrypt cost `N` that is offered. The
/// working memory of a derivation is `2^(10 + log_n)` bytes.
pub const SCRYPT_MAX_LOG_N: u8 = 15;

/// The scrypt block size `r` of every key derivation.
pub const SCRYPT_R: u32 = 8;

/// The scrypt parallelism `p` of every key derivation.
pub const SCRYPT_P: u32 = 1;

/// The key material that a password stands for at cost `2^log_n`.
pub open spec fn password_key_at_cost(password: Seq<u8>, log_n: u8) -> Seq<u8> {
    scrypt_key(password, SCRYPT_SALT@, log_n, SCRYPT_R, SCRYPT_P)
}

/// The key material that a password stands for.
pub open spec fn password_key(password: Seq<u8>) -> Seq<u8> {
    password_key_at_cost(password, SCRYPT_LOG_N)
}

/// Derives 32 bytes of key material from a password at cost `2^log_n`. A low
/// cost is quick and suits tests; production keys call for [`derive_key`].
pub fn derive_key_at_cost(password: &[u8], log_n: u8) -> (key: [u8; 32])
    requires
        1 <= log_n <= SCRYPT_MAX_LOG_N,
    ensures
        key@ == password_key_at_cost(password@, log_n),
{
    let salt = SCRYPT_SALT;
    scrypt_derive(password, &salt, log_n, SCRYPT_R, SCRYPT_P)
}

/// Derives 32 bytes of key material from a password. Deliberately slow.
pub fn derive_key(password: &[u8]) -> (key: [u8; 32])
    ensures
        key@ == password_key(password@),
{
    derive_key_at_cost(password, SCRYPT_LOG_N)
}

/// Whether a decoded token and a decoded cookie verify at clock reading
/// `now`: they hold the same secret and the cookie has not expired.
pub open spec fn pair_valid_at(token: Seq<u8>, cookie: CookiePayload, now: i64) -> bool {
    token == cookie.secret && cookie.expires > now
}

/// Decides at clock reading `now` whether a decoded token and a decoded
/// cookie belong together and the cookie is still fresh.
pub fn verify_token_pair_at(
    token: &UnencryptedCsrfToken,
    cookie: &UnencryptedCsrfCookie,
    now: i64,
) -> (valid: bool)
    ensures
        valid == pair_valid_at(token@, cookie@, now),
{
    let tokens_match = bytes_equal(token.value(), cookie.value());
    let not_expired = cookie.expires() > now;
    tokens_match && not_expired
}

/// Reports the outcome of a random draw in the library's own terms: a failed
/// draw is an internal error.
pub fn random_outcome(drawn: Result<(), Unspecified>) -> (filled: Result<(), CsrfError>)
    ensures
        filled is Ok <==> drawn is Ok,
        filled matches Err(e) ==> e == CsrfError::InternalError,
{
    match drawn {
        Ok(()) => Ok(()),
        Err(_) => Err(CsrfError::InternalError),
    }
}

/// Joins the two halves of an issuance: a pair when both were issued, and a
/// validation failure, which does not tell which half failed, otherwise.
pub fn pair_of_halves(
    token: Result<CsrfToken, CsrfError>,
    cookie: Result<CsrfCookie, CsrfError>,
) -> (pair: Result<(CsrfToken, CsrfCookie), CsrfError>)
    ensures
        token is Ok && cookie is Ok ==> pair == Ok::<(CsrfToken, CsrfCookie), CsrfError>(
            (token->Ok_0, cookie->Ok_0),
        ),
        token is Err || cookie is Err ==> pair == Err::<(CsrfToken, CsrfCookie), CsrfError>(
            CsrfError::ValidationFailure,
        ),
{
    match (token, cookie) {
        (Ok(t), Ok(c)) => Ok((t, c)),
        _ => Err(CsrfError::ValidationFailure),
    }
}

/// Whether what a cookie decodes to is what an issuance for `secret` with
/// the given time to live puts into it: that secret, and an expiry that lies
/// the time to live after some reading of the clock.
pub open spec fn cookie_as_issued(
    decoded: Option<CookiePayload>,
    secret: Seq<u8>,
    ttl_seconds: i64,
) -> bool {
    &&& decoded matches Some(payload)
    &&& payload.secret == secret
    &&& expires_after_reading(payload.expires, ttl_seconds)
}

/// Whether what a token and a cookie decode to is what one issuance with the
/// given time to live puts into them: one secret of 64 bytes in both, the
/// previous one where there was one, and in the cookie an expiry that lies
/// the time to live after some reading of the clock.
pub open spec fn pair_as_issued(
    token: Option<Seq<u8>>,
    cookie: Option<CookiePayload>,
    previous: Option<&[u8; 64]>,
    ttl_seconds: i64,
) -> bool {
    &&& token matches Some(secret)
    &&& secret.len() == SECRET_LEN
    &&& cookie_as_issued(cookie, secret, ttl_seconds)
    &&& previous matches Some(value) ==> secret == value@
}

/// The base trait that allows a developer to add CSRF protection to an
/// application.
pub trait CsrfProtection: Send + Sync + Sized {
    /// The 32 bytes of key material that the backend works under.
    spec fn key_material(&self) -> Seq<u8>;

    /// The random number generator that the backend holds and draws from.
    spec fn generator(&self) -> SystemRandom;

    /// Whether encoding draws random bytes, and so can fail.
    spec fn randomized(&self) -> bool;

    /// Length in bytes of every token of this backend.
    spec fn token_len(&self) -> nat;

    /// Length in bytes of every cookie of this backend.
    spec fn cookie_len(&self) -> nat;

    /// Whether `bytes` is a token that this backend may issue for `secret`.
    spec fn encodes_token(&self, bytes: Seq<u8>, secret: Seq<u8>) -> bool;

    /// Whether `bytes` is a cookie that this backend may issue for `secret`
    /// with expiry `expires`.
    spec fn encodes_cookie(&self, bytes: Seq<u8>, secret: Seq<u8>, expires: i64) -> bool;

    /// The secret that this backend recovers from the token `bytes`, or
    /// `None` where it rejects them.
    spec fn decoded_token(&self, bytes: Seq<u8>) -> Option<Seq<u8>>;

    /// What this backend recovers from the cookie `bytes`, or `None` where
    /// it rejects them.
    spec fn decoded_cookie(&self, bytes: Seq<u8>) -> Option<CookiePayload>;

    /// Uses a key derivation function to generate the key material from a
    /// password. Deliberately slow: meant to run once, at startup.
    ///
    /// The salt is [`SCRYPT_SALT`] for every password, so the key depends on
    /// the password alone.
    fn from_password(password: &[u8]) -> (protect: Self)
        ensures
            protect.key_material() == password_key(password@),
    ;

    /// Given a secret value and a time to live, creates a cookie to send to
    /// the end user. It expires `ttl_seconds` after the clock reading taken
    /// here; a negative time to live gives a cookie that is already stale.
    ///
    /// The cookie has the backend's length and decodes, under this backend,
    /// to the secret and the expiry it was issued with.
    fn generate_cookie(&self, token_value: &[u8; 64], ttl_seconds: i64) -> (issued: Result<
        CsrfCookie,
        CsrfError,
    >)
        ensures
            issued matches Ok(cookie) ==> cookie@.len() == self.cookie_len(),
            issued matches Ok(cookie) ==> cookie_as_issued(
                self.decoded_cookie(cookie@),
                token_value@,
                ttl_seconds,
            ),
            issued matches Ok(cookie) ==> self.encodes_cookie(
                cookie@,
                token_value@,
                self.decoded_cookie(cookie@)->Some_0.expires,
            ),
            issued matches Err(e) ==> e == CsrfError::InternalError && self.randomized(),
    ;

    /// Given a secret value, creates a token to send to the end user.
    ///
    /// The token has the backend's length and decodes, under this backend, to
    /// the secret it was issued for.
    fn generate_token(&self, token_value: &[u8; 64]) -> (issued: Result<CsrfToken, CsrfError>)
        ensures
            issued matches Ok(token) ==> token@.len() == self.token_len(),
            issued matches Ok(token) ==> self.encodes_token(token@, token_value@),
            issued matches Ok(token) ==> self.decoded_token(token@) == Some(token_value@),
            issued matches Err(e) ==> e == CsrfError::InternalError && self.randomized(),
    ;

    /// Given the bytes of a cookie, checks their length and their integrity
    /// and recovers what the cookie carries.
    fn parse_cookie(&self, cookie: &[u8]) -> (parsed: Result<UnencryptedCsrfCookie, CsrfError>)
        ensures
            cookie@.len() != self.cookie_len() ==> parsed is Err,
            parsed matches Ok(decoded) ==> self.decoded_cookie(cookie@) == Some(decoded@),
            parsed matches Ok(decoded) ==> decoded@.secret.len() == SECRET_LEN,
            parsed matches Err(e) ==> e == CsrfError::ValidationFailure,
            parsed is Err ==> self.decoded_cookie(cookie@) is None,
    ;

    /// Given the bytes of a token, checks their length and their integrity
    /// and recovers the secret value.
    fn parse_token(&self, token: &[u8]) -> (parsed: Result<UnencryptedCsrfToken, CsrfError>)
        ensures
            token@.len() != self.token_len() ==> parsed is Err,
            parsed matches Ok(decoded) ==> self.decoded_token(token@) == Some(decoded@),
            parsed matches Ok(decoded) ==> decoded@.len() == SECRET_LEN,
            parsed matches Err(e) ==> e == CsrfError::ValidationFailure,
            parsed is Err ==> self.decoded_token(token@) is None,
    ;

    /// Provides the random number generator for the other functions: the
    /// one that the backend holds.
    fn rng(&self) -> (rng: &SystemRandom)
        ensures
            *rng == self.generator(),
    ;

    /// Given a token and a cookie that have been decoded, returns whether the
    /// token matches the cookie and the cookie has not expired at the clock
    /// reading taken here.
    fn verify_token_pair(
        &self,
        token: &UnencryptedCsrfToken,
        cookie: &UnencryptedCsrfCookie,
    ) -> (valid: bool)
        ensures
            exists|now: i64|
                clock_reading(now) && valid == #[trigger] pair_valid_at(token@, cookie@, now),
            valid ==> token@ == cookie@.secret,
    {
        let now: i64 = clock_seconds();
        verify_token_pair_at(token, cookie, now)
    }

    /// Given a buffer, fills it with random bytes or reports that this was
    /// not possible.
    fn random_bytes(&self, buf: &mut [u8]) -> (filled: Result<(), CsrfError>)
        ensures
            final(buf)@.len() == old(buf)@.len(),
            filled matches Err(e) ==> e == CsrfError::InternalError,
    {
        random_outcome(fill_random(self.rng(), buf))
    }

    /// Given an optional previous secret value and a time to live, generates
    /// a matching token and cookie pair. A previous secret is used again, so
    /// that tokens already handed out stay valid; without one, 64 fresh
    /// random bytes are drawn.
    fn generate_token_pair(
        &self,
        previous_token_value: Option<&[u8; 64]>,
        ttl_seconds: i64,
    ) -> (issued: Result<(CsrfToken, CsrfCookie), CsrfError>)
        ensures
            issued matches Ok(pair) ==> pair.0@.len() == self.token_len(),
            issued matches Ok(pair) ==> pair.1@.len() == self.cookie_len(),
            issued matches Ok(pair) ==> pair_as_issued(
                self.decoded_token(pair.0@),
                self.decoded_cookie(pair.1@),
                previous_token_value,
                ttl_seconds,
            ),
            issued matches Ok(pair) ==> self.encodes_token(
                pair.0@,
                self.decoded_token(pair.0@)->Some_0,
            ),
            issued matches Ok(pair) ==> self.encodes_cookie(
                pair.1@,
                self.decoded_token(pair.0@)->Some_0,
                self.decoded_cookie(pair.1@)->Some_0.expires,
            ),
            issued is Err ==> previous_token_value is None || self.randomized(),
            issued matches Err(e) ==> e == CsrfError::InternalError ==> previous_token_value
                is None,
            issued matches Err(e) ==> e == CsrfError::ValidationFailure ==> self.randomized(),
    {
        let token = match previous_token_value {
            Some(previous) => *previous,
            None => {
                let mut token = [0u8; 64];
                self.random_bytes(&mut token)?;
                token
            },
        };
        let token_half = self.generate_token(&token);
        let cookie_half = self.generate_cookie(&token, ttl_seconds);
        pair_of_halves(token_half, cookie_half)
    }
}

/// What one issuance put into a token and a cookie verifies at every clock
/// reading before the cookie's expiry, and at none from the expiry on.
pub proof fn lemma_issued_pair_verifies_until_expiry(
    token: Option<Seq<u8>>,
    cookie: Option<CookiePayload>,
    previous: Option<&[u8; 64]>,
    ttl_seconds: i64,
    now: i64,
)
    requires
        pair_as_issued(token, cookie, previous, ttl_seconds),
    ensures
        token is Some,
        cookie is Some,
        pair_valid_at(token->Some_0, cookie->Some_0, now) == (now < cookie->Some_0.expires),
{
}

/// A decoded token and a decoded cookie that hold different secrets never
/// verify, whatever the clock reads and however fresh the cookie is.
pub proof fn lemma_mismatched_pair_fails(token: Seq<u8>, cookie: CookiePayload, now: i64)
    requires
        token != cookie.secret,
    ensures
        !pair_valid_at(token, cookie, now),
{
}

/// A cookie issued with a time to live that is negative, or zero, does not
/// verify at the clock reading it was issued at, nor at any later one,
/// whatever token comes with it.
pub proof fn lemma_stale_cookie_fails(
    token: Seq<u8>,
    secret: Seq<u8>,
    issued_at: i64,
    ttl_seconds: i64,
    now: i64,
)
    requires
        clock_reading(issued_at),
        ttl_seconds <= 0,
        issued_at <= now,
    ensures
        !pair_valid_at(
            token,
            CookiePayload { expires: expiry_after(issued_at, ttl_seconds), secret },
            now,
        ),
{
}

} // verus!
