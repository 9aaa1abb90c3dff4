//! The settlement state machine of one market. Each instruction validates
//! timing, lifecycle and authorization, and either changes nothing and
//! returns an error, or applies all of its changes.
//!
//! Work done by the confidential compute network is split in two: a request
//! records an outstanding computation under a caller-chosen correlation id,
//! and the matching callback consumes that entry exactly once.
use vstd::prelude::*;
use crate::codec::{copy_range, decode_receipt, decode_resolution, receipt_of, le_u64_at, RECEIPT_LEN, RESOLUTION_DATA_LEN};
use crate::engine::{payout_ratio, payout_ratio_of};
use crate::errors::MarketError;
use crate::state::{question_len, same_key, Bet, Market, Pubkey, Resolution, MAX_QUESTION_LEN};

verus! {

/// What an outstanding computation will produce.
#[derive(Clone, Copy, Debug, PartialEq, Eq, Structural)]
pub enum ComputationKind {
    /// The receipt of one bet.
    PlaceBet,
    /// The resolution of the market under the outcome its creator gave.
    ResolveMarket { outcome: u8 },
}

/// A request handed to the compute network whose callback has not come yet.
#[derive(Clone, Copy, Debug, PartialEq, Eq, Structural)]
pub struct PendingComputation {
    pub correlation_id: u64,
    pub kind: ComputationKind,
}

/// Who signs a market's creation, and the ledger's clock.
pub struct InitializeMarket {
    pub creator: Pubkey,
    pub now: i64,
}

/// Who requests a bet, and the ledger's clock.
pub struct PlaceBet {
    pub bettor: Pubkey,
    pub now: i64,
}

/// Whom a delivered bet receipt belongs to, and the ledger's clock.
pub struct PlaceBetCallback {
    pub bettor: Pubkey,
    pub now: i64,
}

/// Who requests a resolution, and the ledger's clock.
pub struct ResolveMarket {
    pub resolver: Pubkey,
    pub now: i64,
}

/// Who submits a delivered resolution, and the ledger's clock.
pub struct ResolveMarketCallback {
    pub resolver: Pubkey,
    pub now: i64,
}

/// Who claims a bet.
pub struct ClaimWinnings {
    pub bettor: Pubkey,
}

/// A bet request to hand to the compute network: the ciphertexts, the
/// bettor's public key and nonce, under the request's correlation id.
#[derive(Clone, Copy, Debug, PartialEq, Eq)]
pub struct BetSubmission {
    pub correlation_id: u64,
    pub ciphertext_bet_amount: [u8; 32],
    pub ciphertext_prediction: [u8; 32],
    pub pub_key: [u8; 32],
    pub nonce: u128,
}

/// The encrypted part of one bet, as the compute network needs it to
/// compute on the bet.
#[derive(Clone, Debug, PartialEq, Eq)]
pub struct EncryptedBet {
    pub bet_id: u64,
    pub encrypted_amount: Vec<u8>,
    pub encrypted_prediction: Vec<u8>,
    pub nonce: Vec<u8>,
    pub pub_key: Vec<u8>,
}

/// The id and ciphertext bytes of an encrypted bet.
pub open spec fn encrypted_view(e: EncryptedBet) -> (u64, Seq<u8>, Seq<u8>, Seq<u8>, Seq<u8>) {
    (e.bet_id, e.encrypted_amount@, e.encrypted_prediction@, e.nonce@, e.pub_key@)
}

/// The id and ciphertext bytes of a stored bet.
pub open spec fn bet_ciphertexts(b: Bet) -> (u64, Seq<u8>, Seq<u8>, Seq<u8>, Seq<u8>) {
    (b.bet_id, b.encrypted_amount@, b.encrypted_prediction@, b.nonce@, b.pub_key@)
}

/// A resolution request to hand to the compute network: it aggregates the
/// market's encrypted bets under the given outcome.
#[derive(Clone, Debug, PartialEq, Eq)]
pub struct ResolutionSubmission {
    pub correlation_id: u64,
    pub market_id: u64,
    pub actual_outcome: u8,
    pub bets: Vec<EncryptedBet>,
}

/// A payout computation to hand to the compute network for a claimed bet:
/// its ciphertexts under the resolution's outcome and payout ratio.
#[derive(Clone, Debug, PartialEq, Eq)]
pub struct PayoutRequest {
    pub outcome: u8,
    pub payout_ratio: u64,
    pub bet: EncryptedBet,
}

/// A market with its bets, its resolution once there is one, and the
/// computations that are still outstanding for it.
pub struct MarketBook {
    pub market: Market,
    pub bets: Vec<Bet>,
    pub resolution: Option<Resolution>,
    pub pending: Vec<PendingComputation>,
}

impl MarketBook {
    /// The invariant that every instruction preserves.
    pub open spec fn wf(&self) -> bool {
        &&& self.market.total_bets == self.bets@.len()
        &&& question_len(&self.market.question) <= MAX_QUESTION_LEN
        &&& forall|i: int| #![trigger self.bets@[i]] 0 <= i < self.bets@.len() ==> {
            &&& self.bets@[i].bet_id == i
            &&& self.bets@[i].market_id == self.market.market_id
            &&& self.bets@[i].wf()
            &&& (self.bets@[i].claimed ==> self.market.resolved)
        }
        &&& self.market.resolved <==> self.resolution.is_some()
        &&& match self.resolution {
            Some(r) => r.market_id == self.market.market_id && r.wf()
                && self.market.winning_side == Some(r.winning_side),
            None => self.market.winning_side.is_none(),
        }
        &&& forall|i: int, j: int| 0 <= i < j < self.pending@.len()
            ==> #[trigger] self.pending@[i].correlation_id != #[trigger] self.pending@[j].correlation_id
    }

    /// Whether a computation with this id is outstanding.
    pub open spec fn is_pending(&self, id: u64) -> bool {
        exists|i: int| 0 <= i < self.pending@.len() && #[trigger] self.pending@[i].correlation_id == id
    }

    /// Whether a computation with this id and kind is outstanding.
    pub open spec fn is_pending_as(&self, id: u64, kind: ComputationKind) -> bool {
        exists|i: int| 0 <= i < self.pending@.len() && #[trigger] self.pending@[i] == (PendingComputation { correlation_id: id, kind })
    }

    /// The kind of the outstanding computation with this id, if there is one.
    pub open spec fn pending_kind(&self, id: u64) -> Option<ComputationKind> {
        if self.is_pending(id) {
            Some(self.pending@[choose|i: int| 0 <= i < self.pending@.len() && #[trigger] self.pending@[i].correlation_id == id].kind)
        } else {
            None
        }
    }

    /// `other` is this book with the entry of `id` taken out of the pending table.
    pub open spec fn pending_consumed(&self, other: &MarketBook, id: u64) -> bool {
        exists|i: int| 0 <= i < self.pending@.len() && #[trigger] self.pending@[i].correlation_id == id
            && other.pending@ == self.pending@.remove(i)
    }
}

/// The position of the entry for `id` in the pending table, if any.
pub fn find_pending(pending: &Vec<PendingComputation>, id: u64) -> (r: Option<usize>)
    ensures
        match r {
            Some(i) => i < pending@.len() && pending@[i as int].correlation_id == id,
            None => forall|j: int| 0 <= j < pending@.len() ==> #[trigger] pending@[j].correlation_id != id,
        },
{
    let mut i: usize = 0;
    while i < pending.len()
        invariant
            0 <= i <= pending@.len(),
            forall|j: int| 0 <= j < i ==> #[trigger] pending@[j].correlation_id != id,
        decreases pending@.len() - i,
    {
        if pending[i].correlation_id == id {
            return Some(i);
        }
        i = i + 1;
    }
    None
}

/// Copies the id and ciphertexts of a bet.
pub fn encrypted_bet(b: &Bet) -> (r: EncryptedBet)
    ensures
        encrypted_view(r) == bet_ciphertexts(*b),
{
    let r = EncryptedBet {
        bet_id: b.bet_id,
        encrypted_amount: copy_range(&b.encrypted_amount, 0, b.encrypted_amount.len()),
        encrypted_prediction: copy_range(&b.encrypted_prediction, 0, b.encrypted_prediction.len()),
        nonce: copy_range(&b.nonce, 0, b.nonce.len()),
        pub_key: copy_range(&b.pub_key, 0, b.pub_key.len()),
    };
    assert(r.encrypted_amount@ =~= b.encrypted_amount@);
    assert(r.encrypted_prediction@ =~= b.encrypted_prediction@);
    assert(r.nonce@ =~= b.nonce@);
    assert(r.pub_key@ =~= b.pub_key@);
    r
}

/// Copies the ids and ciphertexts of all bets, in order.
pub fn encrypted_bets(bets: &Vec<Bet>) -> (r: Vec<EncryptedBet>)
    ensures
        r@.len() == bets@.len(),
        forall|i: int| 0 <= i < bets@.len() ==> encrypted_view(#[trigger] r@[i]) == bet_ciphertexts(bets@[i]),
{
    let mut out: Vec<EncryptedBet> = Vec::new();
    let mut i: usize = 0;
    while i < bets.len()
        invariant
            0 <= i <= bets@.len(),
            out@.len() == i,
            forall|j: int| 0 <= j < i ==> encrypted_view(#[trigger] out@[j]) == bet_ciphertexts(bets@[j]),
        decreases bets@.len() - i,
    {
        out.push(encrypted_bet(&bets[i]));
        i = i + 1;
    }
    out
}

/// Creates a market, open for bets until `end_time`.
/// Fails with `MarketEnded` when `end_time <= ctx.now`, and with
/// `InvalidEncryptedData` when the question is longer than 200 bytes.
pub fn initialize_market(ctx: &InitializeMarket, market_id: u64, question: String, end_time: i64) -> (r: Result<MarketBook, MarketError>)
    ensures
        end_time <= ctx.now ==> r == Err::<MarketBook, MarketError>(MarketError::MarketEnded),
        end_time > ctx.now && question_len(&question) > MAX_QUESTION_LEN
            ==> r == Err::<MarketBook, MarketError>(MarketError::InvalidEncryptedData),
        end_time > ctx.now && question_len(&question) <= MAX_QUESTION_LEN ==> r is Ok,
        r matches Ok(b) ==> {
            &&& b.wf()
            &&& b.market.market_id == market_id
            &&& b.market.question@ == question@
            &&& b.market.creator == ctx.creator
            &&& b.market.end_time == end_time
            &&& b.market.total_bets == 0
            &&& !b.market.resolved
            &&& b.bets@.len() == 0
            &&& b.pending@.len() == 0
        },
{
    if end_time <= ctx.now {
        return Err(MarketError::MarketEnded);
    }
    if question.as_str().len() > MAX_QUESTION_LEN {
        return Err(MarketError::InvalidEncryptedData);
    }
    let market = Market {
        market_id,
        question,
        creator: ctx.creator,
        end_time,
        total_bets: 0,
        resolved: false,
        winning_side: None,
    };
    Ok(MarketBook { market, bets: Vec::new(), resolution: None, pending: Vec::new() })
}

/// Accepts a bet request while the market is open, records the computation
/// `computation_offset` that will deliver its receipt, and returns what is
/// to be submitted to the compute network.
/// Fails with `MarketEnded` when `ctx.now >= end_time`, `MarketAlreadyResolved`
/// when the market is resolved, and `DuplicateComputation` when the id is
/// already outstanding.
pub fn place_bet(
    book: &mut MarketBook,
    ctx: &PlaceBet,
    computation_offset: u64,
    ciphertext_bet_amount: [u8; 32],
    ciphertext_prediction: [u8; 32],
    pub_key: [u8; 32],
    nonce: u128,
) -> (r: Result<BetSubmission, MarketError>)
    requires
        old(book).wf(),
    ensures
        final(book).wf(),
        ctx.now >= old(book).market.end_time ==> r == Err::<BetSubmission, MarketError>(MarketError::MarketEnded),
        ctx.now < old(book).market.end_time && old(book).market.resolved
            ==> r == Err::<BetSubmission, MarketError>(MarketError::MarketAlreadyResolved),
        ctx.now < old(book).market.end_time && !old(book).market.resolved && old(book).is_pending(computation_offset)
            ==> r == Err::<BetSubmission, MarketError>(MarketError::DuplicateComputation),
        ctx.now < old(book).market.end_time && !old(book).market.resolved && !old(book).is_pending(computation_offset)
            ==> r is Ok,
        r is Err ==> *final(book) == *old(book),
        r matches Ok(sub) ==> {
            &&& sub == (BetSubmission {
                correlation_id: computation_offset,
                ciphertext_bet_amount,
                ciphertext_prediction,
                pub_key,
                nonce,
            })
            &&& ctx.now < old(book).market.end_time
            &&& !old(book).market.resolved
            &&& !old(book).is_pending(computation_offset)
            &&& final(book).market == old(book).market
            &&& final(book).bets == old(book).bets
            &&& final(book).resolution == old(book).resolution
            &&& final(book).pending@ == old(book).pending@.push(
                PendingComputation { correlation_id: computation_offset, kind: ComputationKind::PlaceBet })
        },
{
    if ctx.now >= book.market.end_time {
        return Err(MarketError::MarketEnded);
    }
    if book.market.resolved {
        return Err(MarketError::MarketAlreadyResolved);
    }
    if find_pending(&book.pending, computation_offset).is_some() {
        return Err(MarketError::DuplicateComputation);
    }
    book.pending.push(PendingComputation { correlation_id: computation_offset, kind: ComputationKind::PlaceBet });
    Ok(BetSubmission { correlation_id: computation_offset, ciphertext_bet_amount, ciphertext_prediction, pub_key, nonce })
}

/// Taking one entry out of a table whose ids are distinct leaves them distinct.
proof fn lemma_remove_keeps_distinct(p: Seq<PendingComputation>, k: int)
    requires
        0 <= k < p.len(),
        forall|i: int, j: int| 0 <= i < j < p.len() ==> #[trigger] p[i].correlation_id != #[trigger] p[j].correlation_id,
    ensures
        forall|i: int, j: int| 0 <= i < j < p.remove(k).len()
            ==> #[trigger] p.remove(k)[i].correlation_id != #[trigger] p.remove(k)[j].correlation_id,
{
    assert forall|i: int, j: int| 0 <= i < j < p.remove(k).len()
        implies #[trigger] p.remove(k)[i].correlation_id != #[trigger] p.remove(k)[j].correlation_id by {
        let oi = if i < k { i } else { i + 1 };
        let oj = if j < k { j } else { j + 1 };
        assert(p.remove(k)[i] == p[oi]);
        assert(p.remove(k)[j] == p[oj]);
        assert(p[oi].correlation_id != p[oj].correlation_id);
    }
}

/// Finalizes a bet from the receipt that computation `computation_offset`
/// delivered: the bet gets the next id of the market, belongs to `ctx.bettor`
/// and keeps the receipt's ciphertexts; the market counts one bet more.
/// Returns the new bet's id.
/// Fails with `UnknownComputation` when no bet computation with that id is
/// outstanding, `InvalidEncryptedData` when the receipt is shorter than its
/// layout, and `ArithmeticOverflow` when the bet counter is full.
pub fn place_bet_callback(book: &mut MarketBook, ctx: &PlaceBetCallback, computation_offset: u64, encrypted_receipt: &Vec<u8>) -> (r: Result<u64, MarketError>)
    requires
        old(book).wf(),
    ensures
        final(book).wf(),
        !old(book).is_pending_as(computation_offset, ComputationKind::PlaceBet)
            ==> r == Err::<u64, MarketError>(MarketError::UnknownComputation),
        old(book).is_pending_as(computation_offset, ComputationKind::PlaceBet) && encrypted_receipt@.len() < RECEIPT_LEN
            ==> r == Err::<u64, MarketError>(MarketError::InvalidEncryptedData),
        old(book).is_pending_as(computation_offset, ComputationKind::PlaceBet) && encrypted_receipt@.len() >= RECEIPT_LEN
            && old(book).market.total_bets == u64::MAX
            ==> r == Err::<u64, MarketError>(MarketError::ArithmeticOverflow),
        old(book).is_pending_as(computation_offset, ComputationKind::PlaceBet) && encrypted_receipt@.len() >= RECEIPT_LEN
            && old(book).market.total_bets < u64::MAX
            ==> r is Ok,
        r is Err ==> *final(book) == *old(book),
        r matches Ok(id) ==> {
            let b = final(book).bets@.last();
            &&& old(book).is_pending_as(computation_offset, ComputationKind::PlaceBet)
            &&& encrypted_receipt@.len() >= RECEIPT_LEN
            &&& id == old(book).market.total_bets
            &&& final(book).market.total_bets == old(book).market.total_bets + 1
            &&& final(book).market == (Market { total_bets: final(book).market.total_bets, ..old(book).market })
            &&& final(book).bets@.len() == old(book).bets@.len() + 1
            &&& final(book).bets@.drop_last() == old(book).bets@
            &&& b.bet_id == id
            &&& b.market_id == old(book).market.market_id
            &&& b.bettor == ctx.bettor
            &&& (b.encrypted_amount@, b.encrypted_prediction@, b.nonce@, b.pub_key@) == receipt_of(encrypted_receipt@)
            &&& b.timestamp == ctx.now
            &&& !b.claimed
            &&& final(book).resolution == old(book).resolution
            &&& old(book).pending_consumed(&*final(book), computation_offset)
        },
{
    let idx = match find_pending(&book.pending, computation_offset) {
        Some(i) => i,
        None => {
            proof {
                if book.is_pending_as(computation_offset, ComputationKind::PlaceBet) {
                    let k = choose|k: int| 0 <= k < book.pending@.len() && #[trigger] book.pending@[k]
                        == (PendingComputation { correlation_id: computation_offset, kind: ComputationKind::PlaceBet });
                    assert(book.pending@[k].correlation_id == computation_offset);
                }
            }
            return Err(MarketError::UnknownComputation);
        },
    };
    if book.pending[idx].kind != ComputationKind::PlaceBet {
        proof {
            assert forall|j: int| 0 <= j < book.pending@.len()
                implies #[trigger] book.pending@[j] != (PendingComputation { correlation_id: computation_offset, kind: ComputationKind::PlaceBet }) by {
                if j != idx {
                    assert(book.pending@[j].correlation_id != book.pending@[idx as int].correlation_id);
                }
            }
        }
        return Err(MarketError::UnknownComputation);
    }
    let fields = match decode_receipt(encrypted_receipt) {
        Ok(f) => f,
        Err(e) => return Err(e),
    };
    let next = match book.market.total_bets.checked_add(1) {
        Some(n) => n,
        None => return Err(MarketError::ArithmeticOverflow),
    };
    let bet_id = book.market.total_bets;
    let bet = Bet {
        bet_id,
        market_id: book.market.market_id,
        bettor: ctx.bettor,
        encrypted_amount: fields.encrypted_amount,
        encrypted_prediction: fields.encrypted_prediction,
        nonce: fields.nonce,
        pub_key: fields.pub_key,
        timestamp: ctx.now,
        claimed: false,
    };
    let ghost old_pending = book.pending@;
    book.pending.remove(idx);
    proof {
        lemma_remove_keeps_distinct(old_pending, idx as int);
    }
    book.bets.push(bet);
    book.market.total_bets = next;
    proof {
        assert(book.bets@.drop_last() =~= old(book).bets@);
    }
    Ok(bet_id)
}

/// Accepts the creator's request to resolve the ended market with
/// `actual_outcome` (0 = NO, 1 = YES), records the computation
/// `computation_offset` that will deliver the resolution, and returns what is
/// to be submitted to the compute network.
/// Fails, in this order, with `MarketNotEnded` when `ctx.now < end_time`,
/// `MarketAlreadyResolved`, `InvalidPrediction` when the outcome is above 1,
/// `Unauthorized` when `ctx.resolver` is not the creator, and
/// `DuplicateComputation` when the id is already outstanding.
pub fn resolve_market(book: &mut MarketBook, ctx: &ResolveMarket, computation_offset: u64, actual_outcome: u8) -> (r: Result<ResolutionSubmission, MarketError>)
    requires
        old(book).wf(),
    ensures
        final(book).wf(),
        ctx.now < old(book).market.end_time ==> r == Err::<ResolutionSubmission, MarketError>(MarketError::MarketNotEnded),
        ctx.now >= old(book).market.end_time && old(book).market.resolved
            ==> r == Err::<ResolutionSubmission, MarketError>(MarketError::MarketAlreadyResolved),
        ctx.now >= old(book).market.end_time && !old(book).market.resolved && actual_outcome > 1
            ==> r == Err::<ResolutionSubmission, MarketError>(MarketError::InvalidPrediction),
        ctx.now >= old(book).market.end_time && !old(book).market.resolved && actual_outcome <= 1
            && ctx.resolver@ != old(book).market.creator@
            ==> r == Err::<ResolutionSubmission, MarketError>(MarketError::Unauthorized),
        ctx.now >= old(book).market.end_time && !old(book).market.resolved && actual_outcome <= 1
            && ctx.resolver@ == old(book).market.creator@ && old(book).is_pending(computation_offset)
            ==> r == Err::<ResolutionSubmission, MarketError>(MarketError::DuplicateComputation),
        ctx.now >= old(book).market.end_time && !old(book).market.resolved && actual_outcome <= 1
            && ctx.resolver@ == old(book).market.creator@ && !old(book).is_pending(computation_offset)
            ==> r is Ok,
        r is Err ==> *final(book) == *old(book),
        r matches Ok(sub) ==> {
            &&& sub.correlation_id == computation_offset
            &&& sub.market_id == old(book).market.market_id
            &&& sub.actual_outcome == actual_outcome
            &&& sub.bets@.len() == old(book).bets@.len()
            &&& forall|i: int| 0 <= i < old(book).bets@.len()
                ==> encrypted_view(#[trigger] sub.bets@[i]) == bet_ciphertexts(old(book).bets@[i])
            &&& ctx.now >= old(book).market.end_time
            &&& !old(book).market.resolved
            &&& actual_outcome <= 1
            &&& ctx.resolver@ == old(book).market.creator@
            &&& !old(book).is_pending(computation_offset)
            &&& final(book).market == old(book).market
            &&& final(book).bets == old(book).bets
            &&& final(book).resolution == old(book).resolution
            &&& final(book).pending@ == old(book).pending@.push(PendingComputation {
                correlation_id: computation_offset,
                kind: ComputationKind::ResolveMarket { outcome: actual_outcome },
            })
        },
{
    if ctx.now < book.market.end_time {
        return Err(MarketError::MarketNotEnded);
    }
    if book.market.resolved {
        return Err(MarketError::MarketAlreadyResolved);
    }
    if actual_outcome > 1 {
        return Err(MarketError::InvalidPrediction);
    }
    if !same_key(&ctx.resolver, &book.market.creator) {
        return Err(MarketError::Unauthorized);
    }
    if find_pending(&book.pending, computation_offset).is_some() {
        return Err(MarketError::DuplicateComputation);
    }
    book.pending.push(PendingComputation {
        correlation_id: computation_offset,
        kind: ComputationKind::ResolveMarket { outcome: actual_outcome },
    });
    Ok(ResolutionSubmission {
        correlation_id: computation_offset,
        market_id: book.market.market_id,
        actual_outcome,
        bets: encrypted_bets(&book.bets),
    })
}

/// The pending table has one entry for `id`, at `idx`.
proof fn lemma_pending_at(book: &MarketBook, id: u64, idx: int)
    requires
        book.wf(),
        0 <= idx < book.pending@.len(),
        book.pending@[idx].correlation_id == id,
    ensures
        book.is_pending(id),
        book.pending_kind(id) == Some(book.pending@[idx].kind),
{
    assert(book.is_pending(id));
    let k = choose|i: int| 0 <= i < book.pending@.len() && #[trigger] book.pending@[i].correlation_id == id;
    if k != idx {
        if k < idx {
            assert(book.pending@[k].correlation_id != book.pending@[idx].correlation_id);
        } else {
            assert(book.pending@[idx].correlation_id != book.pending@[k].correlation_id);
        }
    }
}

/// The figures of a resolution result agree with the outcome that was asked
/// for and with each other.
pub open spec fn resolution_consistent(data: Seq<u8>, outcome: u8) -> bool {
    &&& data[0] == outcome
    &&& data[0] <= 1
    &&& le_u64_at(data, 9) <= le_u64_at(data, 1)
    &&& le_u64_at(data, 17) as nat == payout_ratio_of(le_u64_at(data, 1) as nat, le_u64_at(data, 9) as nat)
}

/// Whether `ratio` is the payout ratio of the two pools.
fn ratio_matches(total_pool: u64, winning_pool: u64, ratio: u64) -> (r: bool)
    ensures
        r == (ratio as nat == payout_ratio_of(total_pool as nat, winning_pool as nat)),
{
    match payout_ratio(total_pool, winning_pool) {
        Some(expected) => expected == ratio,
        None => false,
    }
}

/// Records the resolution that computation `computation_offset` delivered:
/// the market becomes resolved with the delivered winning side, and the
/// resolution keeps the delivered figures and the time `ctx.now`.
/// Fails, in this order, with `MarketAlreadyResolved` when the market is
/// already resolved, `UnknownComputation` when no resolution computation with
/// that id is outstanding, and `InvalidEncryptedData` when the data is shorter
/// than its layout or its figures are inconsistent.
pub fn resolve_market_callback(book: &mut MarketBook, ctx: &ResolveMarketCallback, computation_offset: u64, resolution_data: &Vec<u8>) -> (r: Result<(), MarketError>)
    requires
        old(book).wf(),
    ensures
        final(book).wf(),
        old(book).market.resolved ==> r == Err::<(), MarketError>(MarketError::MarketAlreadyResolved),
        !old(book).market.resolved && !(old(book).pending_kind(computation_offset) is Some
            && old(book).pending_kind(computation_offset).unwrap() is ResolveMarket)
            ==> r == Err::<(), MarketError>(MarketError::UnknownComputation),
        old(book).pending_kind(computation_offset) matches Some(ComputationKind::ResolveMarket { outcome })
            ==> (!old(book).market.resolved ==> ((r is Ok <==> resolution_data@.len() >= RESOLUTION_DATA_LEN
                && resolution_consistent(resolution_data@, outcome))
                && (r is Err ==> r == Err::<(), MarketError>(MarketError::InvalidEncryptedData)))),
        r is Err ==> *final(book) == *old(book),
        r is Ok ==> {
            &&& !old(book).market.resolved
            &&& resolution_data@.len() >= RESOLUTION_DATA_LEN
            &&& final(book).market == (Market { resolved: true, winning_side: Some(resolution_data@[0]), ..old(book).market })
            &&& final(book).resolution == Some(Resolution {
                market_id: old(book).market.market_id,
                winning_side: resolution_data@[0],
                total_pool: le_u64_at(resolution_data@, 1),
                winning_pool: le_u64_at(resolution_data@, 9),
                payout_ratio: le_u64_at(resolution_data@, 17),
                resolved_at: ctx.now,
            })
            &&& final(book).bets == old(book).bets
            &&& old(book).pending_consumed(&*final(book), computation_offset)
        },
{
    if book.market.resolved {
        return Err(MarketError::MarketAlreadyResolved);
    }
    let idx = match find_pending(&book.pending, computation_offset) {
        Some(i) => i,
        None => return Err(MarketError::UnknownComputation),
    };
    proof {
        lemma_pending_at(&*book, computation_offset, idx as int);
    }
    let outcome = match book.pending[idx].kind {
        ComputationKind::ResolveMarket { outcome } => outcome,
        ComputationKind::PlaceBet => return Err(MarketError::UnknownComputation),
    };
    let fields = match decode_resolution(resolution_data) {
        Ok(f) => f,
        Err(e) => return Err(e),
    };
    if fields.winning_side != outcome || fields.winning_side > 1 || fields.winning_pool > fields.total_pool
        || !ratio_matches(fields.total_pool, fields.winning_pool, fields.payout_ratio) {
        return Err(MarketError::InvalidEncryptedData);
    }
    let ghost old_pending = book.pending@;
    book.pending.remove(idx);
    proof {
        lemma_remove_keeps_distinct(old_pending, idx as int);
    }
    book.market.resolved = true;
    book.market.winning_side = Some(fields.winning_side);
    book.resolution = Some(Resolution {
        market_id: book.market.market_id,
        winning_side: fields.winning_side,
        total_pool: fields.total_pool,
        winning_pool: fields.winning_pool,
        payout_ratio: fields.payout_ratio,
        resolved_at: ctx.now,
    });
    Ok(())
}

/// Takes the report that computation `computation_offset` was aborted: its
/// entry leaves the pending table and nothing else changes. Returns
/// `AbortedComputation` then, and `UnknownComputation` with nothing changed
/// when no computation with that id is outstanding.
pub fn abort_computation(book: &mut MarketBook, computation_offset: u64) -> (r: MarketError)
    requires
        old(book).wf(),
    ensures
        final(book).wf(),
        final(book).market == old(book).market,
        final(book).bets == old(book).bets,
        final(book).resolution == old(book).resolution,
        old(book).is_pending(computation_offset) ==> r == MarketError::AbortedComputation
            && old(book).pending_consumed(&*final(book), computation_offset),
        !old(book).is_pending(computation_offset) ==> r == MarketError::UnknownComputation
            && *final(book) == *old(book),
{
    let idx = match find_pending(&book.pending, computation_offset) {
        Some(i) => i,
        None => return MarketError::UnknownComputation,
    };
    let ghost old_pending = book.pending@;
    book.pending.remove(idx);
    proof {
        lemma_remove_keeps_distinct(old_pending, idx as int);
    }
    MarketError::AbortedComputation
}

/// Marks bet `bet_id` as claimed by its bettor once the market is resolved,
/// and returns the payout computation to run on the bet's encrypted amount
/// under the resolution's outcome and payout ratio.
/// Fails, in this order, with `MarketNotResolved`, `BetNotFound` when the
/// market has no such bet, `BetAlreadyClaimed`, and `Unauthorized` when
/// `ctx.bettor` is not the one who placed the bet.
pub fn claim_winnings(book: &mut MarketBook, ctx: &ClaimWinnings, bet_id: u64) -> (r: Result<PayoutRequest, MarketError>)
    requires
        old(book).wf(),
    ensures
        final(book).wf(),
        !old(book).market.resolved ==> r == Err::<PayoutRequest, MarketError>(MarketError::MarketNotResolved),
        old(book).market.resolved && bet_id >= old(book).bets@.len()
            ==> r == Err::<PayoutRequest, MarketError>(MarketError::BetNotFound),
        old(book).market.resolved && bet_id < old(book).bets@.len() && old(book).bets@[bet_id as int].claimed
            ==> r == Err::<PayoutRequest, MarketError>(MarketError::BetAlreadyClaimed),
        old(book).market.resolved && bet_id < old(book).bets@.len() && !old(book).bets@[bet_id as int].claimed
            && ctx.bettor@ != old(book).bets@[bet_id as int].bettor@
            ==> r == Err::<PayoutRequest, MarketError>(MarketError::Unauthorized),
        old(book).market.resolved && bet_id < old(book).bets@.len() && !old(book).bets@[bet_id as int].claimed
            && ctx.bettor@ == old(book).bets@[bet_id as int].bettor@
            ==> r is Ok,
        r is Err ==> *final(book) == *old(book),
        r matches Ok(req) ==> {
            &&& old(book).resolution matches Some(res) && req.outcome == res.winning_side
                && req.payout_ratio == res.payout_ratio
            &&& encrypted_view(req.bet) == bet_ciphertexts(old(book).bets@[bet_id as int])
            &&& old(book).market.resolved
            &&& bet_id < old(book).bets@.len()
            &&& !old(book).bets@[bet_id as int].claimed
            &&& ctx.bettor@ == old(book).bets@[bet_id as int].bettor@
            &&& final(book).bets@ == old(book).bets@.update(bet_id as int,
                Bet { claimed: true, ..old(book).bets@[bet_id as int] })
            &&& final(book).market == old(book).market
            &&& final(book).resolution == old(book).resolution
            &&& final(book).pending == old(book).pending
        },
{
    let (outcome, ratio) = match &book.resolution {
        Some(res) => (res.winning_side, res.payout_ratio),
        None => return Err(MarketError::MarketNotResolved),
    };
    if bet_id >= book.bets.len() as u64 {
        return Err(MarketError::BetNotFound);
    }
    let i = bet_id as usize;
    if book.bets[i].claimed {
        return Err(MarketError::BetAlreadyClaimed);
    }
    if !same_key(&ctx.bettor, &book.bets[i].bettor) {
        return Err(MarketError::Unauthorized);
    }
    let request = PayoutRequest { outcome, payout_ratio: ratio, bet: encrypted_bet(&book.bets[i]) };
    let mut bet = book.bets.remove(i);
    bet.claimed = true;
    book.bets.insert(i, bet);
    proof {
        assert(book.bets@ =~= old(book).bets@.update(bet_id as int, Bet { claimed: true, ..old(book).bets@[bet_id as int] }));
    }
    Ok(request)
}

/// In a well-formed book no two bets share an id, and the market's bet
/// counter is the number of bets.
pub proof fn lemma_bet_ids_unique(book: &MarketBook)
    requires
        book.wf(),
    ensures
        book.market.total_bets == book.bets@.len(),
        forall|i: int, j: int| 0 <= i < book.bets@.len() && 0 <= j < book.bets@.len() && i != j
            ==> #[trigger] book.bets@[i].bet_id != #[trigger] book.bets@[j].bet_id,
{
}

/// Whether every bet stands at the position of its id, belongs to the
/// market, has ciphertexts of their sizes, and is claimed only once the
/// market is resolved.
fn bets_well_formed(book: &MarketBook) -> (r: bool)
    ensures
        r == forall|i: int| #![trigger book.bets@[i]] 0 <= i < book.bets@.len() ==> {
            &&& book.bets@[i].bet_id == i
            &&& book.bets@[i].market_id == book.market.market_id
            &&& book.bets@[i].wf()
            &&& (book.bets@[i].claimed ==> book.market.resolved)
        },
{
    let mut i: usize = 0;
    while i < book.bets.len()
        invariant
            0 <= i <= book.bets@.len(),
            forall|j: int| #![trigger book.bets@[j]] 0 <= j < i ==> {
                &&& book.bets@[j].bet_id == j
                &&& book.bets@[j].market_id == book.market.market_id
                &&& book.bets@[j].wf()
                &&& (book.bets@[j].claimed ==> book.market.resolved)
            },
        decreases book.bets@.len() - i,
    {
        let b = &book.bets[i];
        if b.bet_id != i as u64 || b.market_id != book.market.market_id || b.encrypted_amount.len() != 32
            || b.encrypted_prediction.len() != 32 || b.nonce.len() != 16 || b.pub_key.len() != 32
            || (b.claimed && !book.market.resolved) {
            assert(!({
                &&& book.bets@[i as int].bet_id == i
                &&& book.bets@[i as int].market_id == book.market.market_id
                &&& book.bets@[i as int].wf()
                &&& (book.bets@[i as int].claimed ==> book.market.resolved)
            }));
            return false;
        }
        i = i + 1;
    }
    true
}

/// Whether no two outstanding computations share a correlation id.
fn pending_distinct(pending: &Vec<PendingComputation>) -> (r: bool)
    ensures
        r == forall|i: int, j: int| 0 <= i < j < pending@.len()
            ==> #[trigger] pending@[i].correlation_id != #[trigger] pending@[j].correlation_id,
{
    let mut j: usize = 0;
    while j < pending.len()
        invariant
            0 <= j <= pending@.len(),
            forall|a: int, b: int| 0 <= a < b < j
                ==> #[trigger] pending@[a].correlation_id != #[trigger] pending@[b].correlation_id,
        decreases pending@.len() - j,
    {
        let mut i: usize = 0;
        while i < j
            invariant
                0 <= i <= j < pending@.len(),
                forall|a: int, b: int| 0 <= a < b < j
                    ==> #[trigger] pending@[a].correlation_id != #[trigger] pending@[b].correlation_id,
                forall|a: int| 0 <= a < i ==> #[trigger] pending@[a].correlation_id != pending@[j as int].correlation_id,
            decreases j - i,
        {
            if pending[i].correlation_id == pending[j].correlation_id {
                return false;
            }
            i = i + 1;
        }
        j = j + 1;
    }
    true
}

impl MarketBook {
    /// Tests the invariant, for a book that was read from outside storage.
    pub fn is_well_formed(&self) -> (r: bool)
        ensures
            r == self.wf(),
    {
        if self.market.total_bets != self.bets.len() as u64 {
            return false;
        }
        if self.market.question.as_str().len() > MAX_QUESTION_LEN {
            return false;
        }
        if self.market.resolved != self.resolution.is_some() {
            return false;
        }
        match &self.resolution {
            Some(r) => {
                let consistent = r.market_id == self.market.market_id && r.winning_side <= 1
                    && r.winning_pool <= r.total_pool
                    && ratio_matches(r.total_pool, r.winning_pool, r.payout_ratio);
                if !consistent {
                    return false;
                }
                match self.market.winning_side {
                    Some(w) => {
                        if w != r.winning_side {
                            return false;
                        }
                    },
                    None => return false,
                }
            },
            None => {
                if self.market.winning_side.is_some() {
                    return false;
                }
            },
        }
        bets_well_formed(self) && pending_distinct(&self.pending)
    }
}

} // verus!
