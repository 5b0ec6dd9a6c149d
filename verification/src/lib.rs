//! Double-submit-cookie CSRF protection.
//!
//! A server issues a *token*, which it embeds in the page, and a *cookie*,
//! which the browser stores. Both carry the same 64-byte secret; the cookie also
//! carries the second at which it expires. A forged cross-origin request brings
//! the cookie along but cannot read or make up the token, so a request is
//! genuine when its token and its cookie decode under the server's key, hold the
//! same secret, and the cookie is still fresh.
//!
//! [`CsrfProtection`] is that capability. Three backends implement it, each with
//! a wire format of its own:
//!
//! * [`HmacCsrfProtection`]: payload in the clear, followed by its HMAC-SHA-256
//!   code;
//! * [`AesGcmCsrfProtection`]: payload encrypted and authenticated with
//!   AES-256-GCM;
//! * [`ChaCha20Poly1305CsrfProtection`]: payload encrypted and authenticated
//!   with ChaCha20-Poly1305.
//!
//! The byte layouts, the decisions and the arithmetic are verified against the
//! contracts in this crate. The ciphers, the MAC, the key derivation, base64,
//! the random source and the clock come from other crates; [`primitives`] holds
//! every call into them, with what is relied upon of each.

pub mod aead;
pub mod aes_gcm;
pub mod bytes;
pub mod chacha20poly1305;
pub mod error;
pub mod hmac;
pub mod primitives;
pub mod protection;
pub mod timestamp;
pub mod values;

pub use aes_gcm::AesGcmCsrfProtection;
pub use chacha20poly1305::ChaCha20Poly1305CsrfProtection;
pub use error::CsrfError;
pub use hmac::HmacCsrfProtection;
pub use protection::CsrfProtection;
pub use protection::CSRF_COOKIE_NAME;
pub use protection::CSRF_FORM_FIELD;
pub use protection::CSRF_HEADER;
pub use protection::CSRF_QUERY_STRING;
pub use values::CookiePayload;
pub use values::CsrfCookie;
pub use values::CsrfToken;
pub use values::UnencryptedCsrfCookie;
pub use values::UnencryptedCsrfToken;
