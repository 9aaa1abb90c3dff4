//! The persisted records of a market: the market itself, its bets, and its
//! resolution.
use vstd::prelude::*;
use crate::engine::payout_ratio_of;

verus! {

/// An account identity: a 32-byte public key.
pub type Pubkey = [u8; 32];

/// Longest question a market may ask, in bytes.
pub const MAX_QUESTION_LEN: usize = 200;

/// One binary-outcome event.
pub struct Market {
    pub market_id: u64,
    pub question: String,
    pub creator: Pubkey,
    pub end_time: i64,
    /// Number of bets finalized so far; the next bet gets this id.
    pub total_bets: u64,
    pub resolved: bool,
    /// 0 = NO, 1 = YES, once resolved.
    pub winning_side: Option<u8>,
}

/// One encrypted bet.
pub struct Bet {
    pub bet_id: u64,
    pub market_id: u64,
    pub bettor: Pubkey,
    pub encrypted_amount: Vec<u8>,
    pub encrypted_prediction: Vec<u8>,
    pub nonce: Vec<u8>,
    pub pub_key: Vec<u8>,
    pub timestamp: i64,
    pub claimed: bool,
}

/// The final outcome of a market and its settlement figures.
pub struct Resolution {
    pub market_id: u64,
    pub winning_side: u8,
    pub total_pool: u64,
    pub winning_pool: u64,
    /// Scaled by 10^6.
    pub payout_ratio: u64,
    pub resolved_at: i64,
}

/// Length in bytes of a question, as `str::len` counts it.
pub open spec fn question_len(q: &String) -> usize {
    vstd::utf8::encode_utf8(q@).len() as usize
}

impl Bet {
    /// The ciphertext fields have their fixed sizes.
    pub open spec fn wf(&self) -> bool {
        &&& self.encrypted_amount@.len() == 32
        &&& self.encrypted_prediction@.len() == 32
        &&& self.nonce@.len() == 16
        &&& self.pub_key@.len() == 32
    }
}

impl Resolution {
    /// The figures are consistent: a side of 0 or 1, a winning pool within the
    /// total, and the ratio that the pools give.
    pub open spec fn wf(&self) -> bool {
        &&& self.winning_side <= 1
        &&& self.winning_pool <= self.total_pool
        &&& self.payout_ratio as nat == payout_ratio_of(self.total_pool as nat, self.winning_pool as nat)
    }
}

/// Whether two identities are the same key.
pub fn same_key(a: &Pubkey, b: &Pubkey) -> (r: bool)
    ensures
        r == (a@ == b@),
{
    let mut i: usize = 0;
    while i < 32
        invariant
            0 <= i <= 32,
            a@.len() == 32,
            b@.len() == 32,
            forall|j: int| 0 <= j < i ==> a@[j] == b@[j],
        decreases 32 - i,
    {
        if a[i] != b[i] {
            return false;
        }
        i = i + 1;
    }
    assert(a@ =~= b@);
    true
}

} // verus!
