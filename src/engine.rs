//! The settlement arithmetic that runs inside the confidential compute
//! network: pool aggregation, the payout ratio and per-bet payouts.
//!
//! All ratio math is fixed point with scale `SCALE` (10^6) and integer floor
//! division. The scheme is deliberately lossy: a payout is rounded down.
use vstd::prelude::*;
use crate::errors::MarketError;

verus! {

/// Fixed-point scale of a payout ratio.
pub const SCALE: u64 = 1000000;

/// Outcome value of a YES bet or resolution.
pub const YES: u8 = 1;

/// Aggregated, still confidential, state of one market at resolution.
pub struct MarketState {
    pub market_id: u64,
    pub total_yes_bets: u64,
    pub total_no_bets: u64,
    pub bet_count: u32,
    /// 0 = NO, 1 = YES.
    pub actual_outcome: u8,
}

/// One bet as the payout computation sees it.
pub struct BetData {
    pub bet_id: u64,
    pub amount: u64,
    pub prediction: u8,
}

/// The only figures a resolution reveals.
pub struct ResolutionResult {
    pub market_id: u64,
    pub winning_side: u8,
    pub total_pool: u64,
    pub winning_pool: u64,
    /// Scaled by `SCALE`.
    pub payout_ratio: u64,
}

/// The pool of the side that won.
pub open spec fn winning_pool_of(yes: nat, no: nat, outcome: u8) -> nat {
    if outcome == YES { yes } else { no }
}

/// Payout ratio for a total pool and a winning pool: total / winning scaled by
/// 10^6 and rounded down, or exactly 1:1 when nobody backed the winning side.
pub open spec fn payout_ratio_of(total: nat, winning: nat) -> nat {
    if winning > 0 { (total * SCALE as nat) / winning } else { SCALE as nat }
}

/// What one bet is paid: its amount times the ratio, rounded down, if it
/// predicted the outcome, and nothing otherwise.
pub open spec fn payout_of(amount: nat, prediction: u8, outcome: u8, ratio: nat) -> nat {
    if prediction == outcome { (amount * ratio) / SCALE as nat } else { 0 }
}

/// The payout ratio of two pools, or `None` when it does not fit in a `u64`.
/// The product `total_pool * 10^6` is formed in 128 bits, so only the ratio
/// itself can overflow.
pub fn payout_ratio(total_pool: u64, winning_pool: u64) -> (r: Option<u64>)
    ensures
        match r {
            Some(v) => v as nat == payout_ratio_of(total_pool as nat, winning_pool as nat),
            None => payout_ratio_of(total_pool as nat, winning_pool as nat) > u64::MAX,
        },
{
    if winning_pool == 0 {
        return Some(SCALE);
    }
    proof {
        assert((total_pool as nat) * (SCALE as nat) <= u64::MAX * 1000000) by (nonlinear_arith)
            requires total_pool <= u64::MAX;
    }
    let wide: u128 = (total_pool as u128 * SCALE as u128) / winning_pool as u128;
    if wide > u64::MAX as u128 {
        None
    } else {
        Some(wide as u64)
    }
}

/// Aggregates the pools of a market and derives its payout ratio.
/// Fails with `ArithmeticOverflow` when the total pool or the ratio does not fit in a `u64`.
pub fn resolve_encrypted_market(state: &MarketState) -> (r: Result<ResolutionResult, MarketError>)
    ensures
        ({
            let total = state.total_yes_bets + state.total_no_bets;
            let winning = winning_pool_of(state.total_yes_bets as nat, state.total_no_bets as nat, state.actual_outcome);
            let ratio = payout_ratio_of(total as nat, winning);
            match r {
                Ok(res) => total <= u64::MAX && ratio <= u64::MAX
                    && res.market_id == state.market_id
                    && res.winning_side == state.actual_outcome
                    && res.total_pool == total
                    && res.winning_pool == winning
                    && res.payout_ratio == ratio
                    && res.winning_pool <= res.total_pool,
                Err(e) => e == MarketError::ArithmeticOverflow
                    && (total > u64::MAX || ratio > u64::MAX),
            }
        }),
{
    let total_pool = match state.total_yes_bets.checked_add(state.total_no_bets) {
        Some(t) => t,
        None => return Err(MarketError::ArithmeticOverflow),
    };
    let winning_pool = if state.actual_outcome == YES {
        state.total_yes_bets
    } else {
        state.total_no_bets
    };
    let ratio = match payout_ratio(total_pool, winning_pool) {
        Some(v) => v,
        None => return Err(MarketError::ArithmeticOverflow),
    };
    Ok(ResolutionResult {
        market_id: state.market_id,
        winning_side: state.actual_outcome,
        total_pool,
        winning_pool,
        payout_ratio: ratio,
    })
}

/// The payout of one bet under a revealed outcome and payout ratio.
/// Fails with `ArithmeticOverflow` when the payout does not fit in a `u64`.
pub fn calculate_payout(bet: &BetData, outcome: u8, payout_ratio: u64) -> (r: Result<u64, MarketError>)
    ensures
        ({
            let p = payout_of(bet.amount as nat, bet.prediction, outcome, payout_ratio as nat);
            match r {
                Ok(v) => p <= u64::MAX && v == p,
                Err(e) => e == MarketError::ArithmeticOverflow && p > u64::MAX,
            }
        }),
{
    if bet.prediction != outcome {
        return Ok(0);
    }
    proof {
        assert((bet.amount as nat) * (payout_ratio as nat) <= u64::MAX * u64::MAX) by (nonlinear_arith)
            requires bet.amount <= u64::MAX, payout_ratio <= u64::MAX;
    }
    let wide: u128 = (bet.amount as u128 * payout_ratio as u128) / SCALE as u128;
    if wide > u64::MAX as u128 {
        return Err(MarketError::ArithmeticOverflow);
    }
    Ok(wide as u64)
}

/// A payout is never negative and never exceeds `amount * ratio / 10^6`
/// rounded up; a winning bet is paid exactly that quotient rounded down.
pub proof fn lemma_payout_bounded(amount: u64, prediction: u8, outcome: u8, payout_ratio: u64)
    ensures
        payout_of(amount as nat, prediction, outcome, payout_ratio as nat) >= 0,
        payout_of(amount as nat, prediction, outcome, payout_ratio as nat) * (SCALE as nat)
            <= (amount as nat) * (payout_ratio as nat),
        payout_of(amount as nat, prediction, outcome, payout_ratio as nat)
            <= ((amount as int) * (payout_ratio as int) + (SCALE as int) - 1) / (SCALE as int),
        prediction == outcome ==> payout_of(amount as nat, prediction, outcome, payout_ratio as nat)
            == ((amount as nat) * (payout_ratio as nat)) / (SCALE as nat),
        prediction != outcome ==> payout_of(amount as nat, prediction, outcome, payout_ratio as nat) == 0,
{
    let prod = (amount as int) * (payout_ratio as int);
    let s = SCALE as int;
    if prediction == outcome {
        assert((prod / s) * s <= prod) by (nonlinear_arith)
            requires s > 0, prod >= 0;
        assert(prod / s <= (prod + s - 1) / s) by (nonlinear_arith)
            requires s > 0, prod >= 0;
    } else {
        assert(0 <= (prod + s - 1) / s) by (nonlinear_arith)
            requires s > 0, prod >= 0;
    }
}

} // verus!
