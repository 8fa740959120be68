//! Reading a price out of the bytes of a price account.
//!
//! The account keeps its fields at fixed places, each as a little-endian
//! integer: the price in bytes 208 to 215, the time of publication in bytes
//! 224 to 231 and the decimal exponent in bytes 232 to 235. Signed fields are
//! in two's complement.

use vstd::prelude::*;
use crate::state::{Identity, OracleReading};

verus! {

/// Least number of bytes that a price account has.
pub const PRICE_ACCOUNT_MIN_LEN: usize = 240;

/// Where the price starts.
pub const PRICE_OFFSET: usize = 208;

/// Where the time of publication starts.
pub const PUBLISH_TIME_OFFSET: usize = 224;

/// Where the exponent starts.
pub const EXPONENT_OFFSET: usize = 232;

/// The number that the bytes spell, least significant byte first.
pub open spec fn le_value(bytes: Seq<u8>) -> int
    decreases bytes.len(),
{
    if bytes.len() == 0 {
        0
    } else {
        bytes[0] + 256 * le_value(bytes.drop_first())
    }
}

/// 256 to the power of `k`.
pub open spec fn pow256(k: nat) -> int
    decreases k,
{
    if k == 0 {
        1
    } else {
        256 * pow256((k - 1) as nat)
    }
}

/// The signed number that eight bytes spell in two's complement.
pub open spec fn le_i64(bytes: Seq<u8>) -> int {
    if le_value(bytes) >= 0x8000_0000_0000_0000 {
        le_value(bytes) - 0x1_0000_0000_0000_0000
    } else {
        le_value(bytes)
    }
}

/// The signed number that four bytes spell in two's complement.
pub open spec fn le_i32(bytes: Seq<u8>) -> int {
    if le_value(bytes) >= 0x8000_0000 {
        le_value(bytes) - 0x1_0000_0000
    } else {
        le_value(bytes)
    }
}

/// The reading that the bytes of a price account of the feed `feed_id`
/// hold, if there are enough bytes.
pub open spec fn decoded_reading(feed_id: Identity, data: Seq<u8>) -> Option<OracleReading> {
    if data.len() < PRICE_ACCOUNT_MIN_LEN {
        None
    } else {
        Some(
            OracleReading {
                feed_id,
                price: le_i64(data.subrange(208, 216)) as i64,
                published_at: le_i64(data.subrange(224, 232)) as i64,
                exponent: le_i32(data.subrange(232, 236)) as i32,
            },
        )
    }
}

/// The first powers of 256.
pub proof fn lemma_pow256_values()
    ensures
        pow256(0) == 1,
        pow256(1) == 0x100,
        pow256(2) == 0x1_0000,
        pow256(3) == 0x100_0000,
        pow256(4) == 0x1_0000_0000,
        pow256(5) == 0x100_0000_0000,
        pow256(6) == 0x1_0000_0000_0000,
        pow256(7) == 0x100_0000_0000_0000,
        pow256(8) == 0x1_0000_0000_0000_0000,
{
    reveal_with_fuel(pow256, 10);
}

/// The number that `k` bytes spell is below 256 to the power of `k`.
pub proof fn lemma_le_value_bounded(bytes: Seq<u8>)
    ensures
        0 <= le_value(bytes) < pow256(bytes.len()),
    decreases bytes.len(),
{
    if bytes.len() > 0 {
        lemma_le_value_bounded(bytes.drop_first());
    }
}

/// The number that the `width` bytes from `start` on spell, least
/// significant byte first.
fn read_le(data: &[u8], start: usize, width: usize) -> (value: u64)
    requires
        width <= 8,
        start + width <= data@.len(),
    ensures
        value == le_value(data@.subrange(start as int, start + width)),
{
    let mut value: u64 = 0;
    let mut i: usize = width;
    while i > 0
        invariant
            i <= width <= 8,
            start + width <= data.len(),
            value == le_value(data@.subrange(start + i, start + width)),
            value < pow256((width - i) as nat),
        decreases i,
    {
        i -= 1;
        proof {
            let rest = data@.subrange(start + i + 1, start + width);
            let here = data@.subrange(start + i, start + width);
            assert(here.drop_first() =~= rest);
            assert(here[0] == data@[start + i]);
            lemma_le_value_bounded(here);
            lemma_pow256_values();
            let k = width - i - 1;
            assert(k == 0 || k == 1 || k == 2 || k == 3 || k == 4 || k == 5 || k == 6 || k == 7);
            assert(value < pow256(7));
        }
        value = value * 256 + data[start + i] as u64;
    }
    value
}

/// The reading that a price account of the feed `feed_id` holds, or `None`
/// if the account has fewer than 240 bytes.
pub fn decode_price_account(feed_id: Identity, data: &[u8]) -> (r: Option<OracleReading>)
    ensures
        r == decoded_reading(feed_id, data@),
{
    if data.len() < PRICE_ACCOUNT_MIN_LEN {
        return None;
    }
    let raw_price: u64 = read_le(data, PRICE_OFFSET, 8);
    let raw_time: u64 = read_le(data, PUBLISH_TIME_OFFSET, 8);
    let raw_exponent: u64 = read_le(data, EXPONENT_OFFSET, 4);
    proof {
        lemma_pow256_values();
        lemma_le_value_bounded(data@.subrange(232, 236));
    }
    let exponent: i32 = if raw_exponent >= 0x8000_0000 {
        ((raw_exponent - 0x8000_0000) as i64 - 0x8000_0000) as i32
    } else {
        raw_exponent as i32
    };
    Some(
        OracleReading {
            feed_id,
            price: signed_64(raw_price),
            published_at: signed_64(raw_time),
            exponent,
        },
    )
}

/// The signed number that has the bits of `raw` in two's complement.
fn signed_64(raw: u64) -> (value: i64)
    ensures
        value == if raw >= 0x8000_0000_0000_0000 {
            raw - 0x1_0000_0000_0000_0000
        } else {
            raw as int
        },
{
    if raw >= 0x8000_0000_0000_0000 {
        (raw - 0x8000_0000_0000_0000) as i64 + i64::MIN
    } else {
        raw as i64
    }
}

} // verus!
