//! Fair randomness and bet receipts computed inside the confidential compute
//! network: seeds combined by several parties, and the receipt handed back
//! when a bet is accepted.
use vstd::prelude::*;

verus! {

/// Seeds contributed by independent parties, and an optional modulus.
pub struct RandomInput {
    pub seed1: u64,
    pub seed2: u64,
    pub seed3: u64,
    /// 0 leaves the combined value unreduced.
    pub modulus: u64,
}

/// `(seed1 XOR seed2) + seed3`, reduced modulo `modulus` unless it is 0.
pub open spec fn combined_seed(input: RandomInput) -> int {
    let c = (input.seed1 ^ input.seed2) as int + input.seed3 as int;
    if input.modulus > 0 { c % (input.modulus as int) } else { c }
}

/// Combines the seeds into one revealed value; `None` when the sum
/// `(seed1 XOR seed2) + seed3` overflows a `u64`.
pub fn generate_random(input: &RandomInput) -> (r: Option<u64>)
    ensures
        match r {
            Some(v) => (input.seed1 ^ input.seed2) as int + input.seed3 as int <= u64::MAX
                && v as int == combined_seed(*input),
            None => (input.seed1 ^ input.seed2) as int + input.seed3 as int > u64::MAX,
        },
{
    let combined = match (input.seed1 ^ input.seed2).checked_add(input.seed3) {
        Some(c) => c,
        None => return None,
    };
    if input.modulus > 0 {
        Some(combined % input.modulus)
    } else {
        Some(combined)
    }
}

/// A coin flip: the parity of the seed.
pub fn random_boolean(seed: u64) -> (r: u8)
    ensures
        r as int == seed as int % 2,
{
    (seed % 2) as u8
}

/// What a bettor submits, encrypted, to the network.
pub struct BetInput {
    pub market_id: u64,
    pub bet_amount: u64,
    /// 0 = NO, 1 = YES.
    pub prediction: u8,
    pub user_nonce: u64,
}

/// The encrypted receipt of an accepted bet.
pub struct BetReceipt {
    pub bet_id: u64,
    pub encrypted_amount: u64,
    pub encrypted_prediction: u8,
    /// Set later from the ledger's clock; 0 here.
    pub timestamp: u64,
}

/// Stride between the receipt ids of two consecutive markets.
pub const RECEIPT_ID_STRIDE: u64 = 1000000;

/// Builds the receipt of a bet: its id is `market_id * 10^6 + user_nonce`.
/// `None` when that id does not fit in a `u64`.
pub fn place_encrypted_bet(input: &BetInput) -> (r: Option<BetReceipt>)
    ensures
        ({
            let id = input.market_id as int * RECEIPT_ID_STRIDE as int + input.user_nonce as int;
            match r {
                Some(rc) => id <= u64::MAX
                    && rc.bet_id as int == id
                    && rc.encrypted_amount == input.bet_amount
                    && rc.encrypted_prediction == input.prediction
                    && rc.timestamp == 0,
                None => id > u64::MAX,
            }
        }),
{
    let scaled = match input.market_id.checked_mul(RECEIPT_ID_STRIDE) {
        Some(v) => v,
        None => return None,
    };
    let bet_id = match scaled.checked_add(input.user_nonce) {
        Some(v) => v,
        None => return None,
    };
    Some(BetReceipt {
        bet_id,
        encrypted_amount: input.bet_amount,
        encrypted_prediction: input.prediction,
        timestamp: 0,
    })
}

} // verus!
