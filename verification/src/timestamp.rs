//! Expiry timestamps: how an expiry is computed from a clock reading and how it
//! is laid out on the wire.
//!
//! An expiry is a signed 64-bit count of seconds. On the wire it occupies eight
//! bytes in little-endian order, in two's complement, on every platform.

use crate::primitives::clock_reading;
use crate::primitives::CLOCK_MAX;
use vstd::prelude::*;

verus! {

/// Number of bytes an expiry occupies on the wire.
pub const EXPIRY_LEN: usize = 8;

/// The value of the 64-bit two's complement pattern of `x` read as unsigned.
pub open spec fn unsigned_of(x: i64) -> int {
    if x >= 0 {
        x as int
    } else {
        x + 0x1_0000_0000_0000_0000
    }
}

/// The signed value whose 64-bit two's complement pattern reads `u` as unsigned.
pub open spec fn signed_of(u: int) -> int {
    if u < 0x8000_0000_0000_0000 {
        u
    } else {
        u - 0x1_0000_0000_0000_0000
    }
}

/// The eight wire bytes of `x`, least significant first.
#[verifier::opaque]
pub open spec fn expiry_bytes(x: i64) -> Seq<u8> {
    let u = unsigned_of(x);
    seq![
        (u % 0x100) as u8,
        (u / 0x100 % 0x100) as u8,
        (u / 0x1_0000 % 0x100) as u8,
        (u / 0x100_0000 % 0x100) as u8,
        (u / 0x1_0000_0000 % 0x100) as u8,
        (u / 0x100_0000_0000 % 0x100) as u8,
        (u / 0x1_0000_0000_0000 % 0x100) as u8,
        (u / 0x100_0000_0000_0000 % 0x100) as u8,
    ]
}

/// The unsigned value that eight little-endian bytes spell.
pub open spec fn unsigned_from_bytes(b: Seq<u8>) -> int {
    b[0] + b[1] * 0x100 + b[2] * 0x1_0000 + b[3] * 0x100_0000 + b[4] * 0x1_0000_0000 + b[5]
        * 0x100_0000_0000 + b[6] * 0x1_0000_0000_0000 + b[7] * 0x100_0000_0000_0000
}

/// The expiry that eight wire bytes spell. Meaningful for `b.len() == 8`.
#[verifier::opaque]
pub open spec fn expiry_from_bytes(b: Seq<u8>) -> i64 {
    signed_of(unsigned_from_bytes(b)) as i64
}

/// The expiry of a cookie issued at clock reading `now` with the given time to
/// live: their sum, wrapped into the 64-bit range.
pub open spec fn expiry_after(now: i64, ttl_seconds: i64) -> i64 {
    vstd::wrapping::i64_specs::wrapping_add(now, ttl_seconds)
}

/// An unsigned 64-bit value is the sum of its bytes, each at its weight.
proof fn lemma_bytes_sum_to_value(u: u64)
    by (bit_vector)
    ensures
        u == (u % 0x100) + (u / 0x100 % 0x100) * 0x100 + (u / 0x1_0000 % 0x100) * 0x1_0000 + (u
            / 0x100_0000 % 0x100) * 0x100_0000 + (u / 0x1_0000_0000 % 0x100) * 0x1_0000_0000 + (u
            / 0x100_0000_0000 % 0x100) * 0x100_0000_0000 + (u / 0x1_0000_0000_0000 % 0x100)
            * 0x1_0000_0000_0000 + (u / 0x100_0000_0000_0000 % 0x100) * 0x100_0000_0000_0000,
{
}

/// The bytes of a weighted sum of eight bytes are those bytes.
proof fn lemma_value_splits_to_bytes(
    b0: u8,
    b1: u8,
    b2: u8,
    b3: u8,
    b4: u8,
    b5: u8,
    b6: u8,
    b7: u8,
    u: u64,
)
    by (bit_vector)
    requires
        u == b0 + b1 * 0x100 + b2 * 0x1_0000 + b3 * 0x100_0000 + b4 * 0x1_0000_0000 + b5
            * 0x100_0000_0000 + b6 * 0x1_0000_0000_0000 + b7 * 0x100_0000_0000_0000,
    ensures
        u % 0x100 == b0,
        u / 0x100 % 0x100 == b1,
        u / 0x1_0000 % 0x100 == b2,
        u / 0x100_0000 % 0x100 == b3,
        u / 0x1_0000_0000 % 0x100 == b4,
        u / 0x100_0000_0000 % 0x100 == b5,
        u / 0x1_0000_0000_0000 % 0x100 == b6,
        u / 0x100_0000_0000_0000 % 0x100 == b7,
{
}

/// Decoding the wire bytes of an expiry gives the expiry back.
pub proof fn lemma_expiry_round_trip(x: i64)
    ensures
        expiry_bytes(x).len() == 8,
        expiry_from_bytes(expiry_bytes(x)) == x,
{
    reveal(expiry_bytes);
    reveal(expiry_from_bytes);
    let u = unsigned_of(x) as u64;
    lemma_bytes_sum_to_value(u);
    assert(unsigned_from_bytes(expiry_bytes(x)) == u);
}

/// Encoding the expiry that eight wire bytes spell gives the same bytes back:
/// every eight-byte string is the encoding of exactly one expiry.
pub proof fn lemma_bytes_round_trip(b: Seq<u8>)
    requires
        b.len() == 8,
    ensures
        expiry_bytes(expiry_from_bytes(b)) == b,
{
    reveal(expiry_bytes);
    reveal(expiry_from_bytes);
    let u = unsigned_from_bytes(b) as u64;
    lemma_value_splits_to_bytes(b[0], b[1], b[2], b[3], b[4], b[5], b[6], b[7], u);
    assert(unsigned_of(expiry_from_bytes(b)) == u);
    assert(expiry_bytes(expiry_from_bytes(b)) =~= b);
}

/// Whether `expires` is the expiry of a cookie with the given time to live
/// that was issued at some reading of the clock.
pub open spec fn expires_after_reading(expires: i64, ttl_seconds: i64) -> bool {
    exists|now: i64| clock_reading(now) && expires == #[trigger] expiry_after(now, ttl_seconds)
}

/// Whenever the sum of clock reading and time to live is representable, the
/// expiry is exactly that sum.
pub proof fn lemma_expiry_is_sum(now: i64, ttl_seconds: i64)
    requires
        i64::MIN <= now + ttl_seconds <= i64::MAX,
    ensures
        expiry_after(now, ttl_seconds) == now + ttl_seconds,
{
}

/// At every reading of the clock, the expiry is exactly the sum of reading
/// and time to live, unless the time to live is within [`CLOCK_MAX`] of the
/// largest one.
pub proof fn lemma_expiry_of_reading(now: i64, ttl_seconds: i64)
    requires
        clock_reading(now),
        ttl_seconds <= i64::MAX - CLOCK_MAX,
    ensures
        expiry_after(now, ttl_seconds) == now + ttl_seconds,
{
}

/// Computes the expiry of a cookie issued at `now` that lives `ttl_seconds`.
/// A negative time to live gives an expiry in the past.
pub fn expiry_at(now: i64, ttl_seconds: i64) -> (expires: i64)
    ensures
        expires == expiry_after(now, ttl_seconds),
{
    now.wrapping_add(ttl_seconds)
}

/// Lays an expiry out as its eight wire bytes.
pub fn encode_expiry(x: i64) -> (bytes: [u8; 8])
    ensures
        bytes@ == expiry_bytes(x),
{
    let u: u64 = if x >= 0 {
        x as u64
    } else {
        (x - i64::MIN) as u64 + 0x8000_0000_0000_0000u64
    };
    proof {
        reveal(expiry_bytes);
    }
    let bytes: [u8; 8] = [
        (u % 0x100) as u8,
        (u / 0x100 % 0x100) as u8,
        (u / 0x1_0000 % 0x100) as u8,
        (u / 0x100_0000 % 0x100) as u8,
        (u / 0x1_0000_0000 % 0x100) as u8,
        (u / 0x100_0000_0000 % 0x100) as u8,
        (u / 0x1_0000_0000_0000 % 0x100) as u8,
        (u / 0x100_0000_0000_0000 % 0x100) as u8,
    ];
    assert(bytes@ =~= expiry_bytes(x));
    bytes
}

/// Reads an expiry back from its eight wire bytes.
pub fn decode_expiry(bytes: &[u8]) -> (x: i64)
    requires
        bytes@.len() == 8,
    ensures
        x == expiry_from_bytes(bytes@),
{
    proof {
        reveal(expiry_from_bytes);
    }
    let u: u64 = bytes[0] as u64 + bytes[1] as u64 * 0x100 + bytes[2] as u64 * 0x1_0000
        + bytes[3] as u64 * 0x100_0000 + bytes[4] as u64 * 0x1_0000_0000 + bytes[5] as u64
        * 0x100_0000_0000 + bytes[6] as u64 * 0x1_0000_0000_0000 + bytes[7] as u64
        * 0x100_0000_0000_0000;
    if u < 0x8000_0000_0000_0000u64 {
        u as i64
    } else {
        (u - 0x8000_0000_0000_0000u64) as i64 + i64::MIN
    }
}

} // verus!
