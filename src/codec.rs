//! Fixed little-endian layouts of the results that the confidential compute
//! network delivers to the callbacks.
use vstd::prelude::*;
use vstd::bytes::{spec_u64_from_le_bytes, u64_from_le_bytes};
use vstd::slice::slice_subrange;
use crate::errors::MarketError;

verus! {

/// Byte length of an encrypted amount or prediction, and of a public key.
pub const CIPHERTEXT_LEN: usize = 32;

/// Byte length of an encryption nonce.
pub const NONCE_LEN: usize = 16;

/// Bytes read from a bet receipt:
/// `[0,32)` amount, `[32,64)` prediction, `[64,80)` nonce, `[80,112)` public key.
pub const RECEIPT_LEN: usize = 112;

/// Bytes read from a resolution result:
/// `[0]` winning side, `[1,9)` total pool, `[9,17)` winning pool, `[17,25)` payout ratio.
pub const RESOLUTION_DATA_LEN: usize = 25;

/// The ciphertext fields of an accepted bet.
pub struct ReceiptFields {
    pub encrypted_amount: Vec<u8>,
    pub encrypted_prediction: Vec<u8>,
    pub nonce: Vec<u8>,
    pub pub_key: Vec<u8>,
}

/// The figures that a resolution reveals.
pub struct ResolutionFields {
    pub winning_side: u8,
    pub total_pool: u64,
    pub winning_pool: u64,
    pub payout_ratio: u64,
}

/// The receipt fields that the layout assigns to `data`.
pub open spec fn receipt_of(data: Seq<u8>) -> (Seq<u8>, Seq<u8>, Seq<u8>, Seq<u8>) {
    (data.subrange(0, 32), data.subrange(32, 64), data.subrange(64, 80), data.subrange(80, 112))
}

/// A little-endian `u64` at `start` in `data`.
pub open spec fn le_u64_at(data: Seq<u8>, start: int) -> u64 {
    spec_u64_from_le_bytes(data.subrange(start, start + 8))
}

/// Copies `src[lo..hi]` into a new vector.
pub fn copy_range(src: &Vec<u8>, lo: usize, hi: usize) -> (r: Vec<u8>)
    requires
        lo <= hi <= src@.len(),
    ensures
        r@ == src@.subrange(lo as int, hi as int),
{
    let mut out: Vec<u8> = Vec::with_capacity(hi - lo);
    let mut i: usize = lo;
    while i < hi
        invariant
            lo <= i <= hi <= src@.len(),
            out@ == src@.subrange(lo as int, i as int),
        decreases hi - i,
    {
        out.push(src[i]);
        proof {
            assert(src@.subrange(lo as int, i + 1) =~= src@.subrange(lo as int, i as int).push(src@[i as int]));
        }
        i = i + 1;
    }
    out
}

/// Splits a bet receipt into its fields; `InvalidEncryptedData` when it is
/// shorter than the layout.
pub fn decode_receipt(data: &Vec<u8>) -> (r: Result<ReceiptFields, MarketError>)
    ensures
        match r {
            Ok(f) => data@.len() >= RECEIPT_LEN
                && (f.encrypted_amount@, f.encrypted_prediction@, f.nonce@, f.pub_key@) == receipt_of(data@),
            Err(e) => e == MarketError::InvalidEncryptedData && data@.len() < RECEIPT_LEN,
        },
{
    if data.len() < RECEIPT_LEN {
        return Err(MarketError::InvalidEncryptedData);
    }
    Ok(ReceiptFields {
        encrypted_amount: copy_range(data, 0, 32),
        encrypted_prediction: copy_range(data, 32, 64),
        nonce: copy_range(data, 64, 80),
        pub_key: copy_range(data, 80, 112),
    })
}

fn read_u64_le(data: &Vec<u8>, start: usize) -> (r: u64)
    requires
        start + 8 <= data@.len(),
    ensures
        r == le_u64_at(data@, start as int),
{
    let len = data.len();
    assert(start + 8 <= len);
    let bytes = slice_subrange(data.as_slice(), start, start + 8);
    u64_from_le_bytes(bytes)
}

/// Reads the figures of a resolution result; `InvalidEncryptedData` when it
/// is shorter than the layout.
pub fn decode_resolution(data: &Vec<u8>) -> (r: Result<ResolutionFields, MarketError>)
    ensures
        match r {
            Ok(f) => data@.len() >= RESOLUTION_DATA_LEN
                && f.winning_side == data@[0]
                && f.total_pool == le_u64_at(data@, 1)
                && f.winning_pool == le_u64_at(data@, 9)
                && f.payout_ratio == le_u64_at(data@, 17),
            Err(e) => e == MarketError::InvalidEncryptedData && data@.len() < RESOLUTION_DATA_LEN,
        },
{
    if data.len() < RESOLUTION_DATA_LEN {
        return Err(MarketError::InvalidEncryptedData);
    }
    Ok(ResolutionFields {
        winning_side: data[0],
        total_pool: read_u64_le(data, 1),
        winning_pool: read_u64_le(data, 9),
        payout_ratio: read_u64_le(data, 17),
    })
}

} // verus!
