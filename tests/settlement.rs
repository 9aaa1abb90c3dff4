use dark_prediction_market::address::{bet_seeds, market_seeds, resolution_seeds};
use dark_prediction_market::codec::{decode_receipt, decode_resolution};
use dark_prediction_market::engine::{calculate_payout, payout_ratio, resolve_encrypted_market, BetData, MarketState};
use dark_prediction_market::errors::MarketError;
use dark_prediction_market::instructions::{
    abort_computation, claim_winnings, initialize_market, place_bet, place_bet_callback, resolve_market,
    resolve_market_callback, BetSubmission, ClaimWinnings, EncryptedBet, InitializeMarket, MarketBook, PayoutRequest, PlaceBet, PlaceBetCallback,
    ResolutionSubmission, ResolveMarket, ResolveMarketCallback,
};
use dark_prediction_market::randomness::{generate_random, place_encrypted_bet, random_boolean, BetInput, RandomInput};
use dark_prediction_market::state::same_key;

const CREATOR: [u8; 32] = [7u8; 32];
const ALICE: [u8; 32] = [1u8; 32];
const BOB: [u8; 32] = [2u8; 32];
const END: i64 = 1_000;

fn receipt(seed: u8) -> Vec<u8> {
    (0..112u32).map(|i| seed.wrapping_add(i as u8)).collect()
}

fn resolution_bytes(side: u8, total: u64, winning: u64, ratio: u64) -> Vec<u8> {
    let mut v = vec![side];
    v.extend_from_slice(&total.to_le_bytes());
    v.extend_from_slice(&winning.to_le_bytes());
    v.extend_from_slice(&ratio.to_le_bytes());
    v
}

fn init(creator: [u8; 32], now: i64) -> InitializeMarket {
    InitializeMarket { creator, now }
}

fn bet_at(book: &mut MarketBook, id: u64, now: i64) -> Result<BetSubmission, MarketError> {
    place_bet(book, &PlaceBet { bettor: ALICE, now }, id, [3u8; 32], [4u8; 32], [5u8; 32], 99)
}

fn deliver(book: &mut MarketBook, id: u64, bettor: [u8; 32], data: &Vec<u8>, now: i64) -> Result<u64, MarketError> {
    place_bet_callback(book, &PlaceBetCallback { bettor, now }, id, data)
}

fn resolve_at(book: &mut MarketBook, id: u64, resolver: [u8; 32], outcome: u8, now: i64) -> Result<ResolutionSubmission, MarketError> {
    resolve_market(book, &ResolveMarket { resolver, now }, id, outcome)
}

fn settle(book: &mut MarketBook, id: u64, data: &Vec<u8>, now: i64) -> Result<(), MarketError> {
    resolve_market_callback(book, &ResolveMarketCallback { resolver: CREATOR, now }, id, data)
}

fn claim(book: &mut MarketBook, bet_id: u64, bettor: [u8; 32]) -> Result<PayoutRequest, MarketError> {
    claim_winnings(book, &ClaimWinnings { bettor }, bet_id)
}

fn encrypted(bet_id: u64, seed: u8) -> EncryptedBet {
    let r = receipt(seed);
    EncryptedBet {
        bet_id,
        encrypted_amount: r[0..32].to_vec(),
        encrypted_prediction: r[32..64].to_vec(),
        nonce: r[64..80].to_vec(),
        pub_key: r[80..112].to_vec(),
    }
}

fn open_market() -> MarketBook {
    initialize_market(&init(CREATOR, 10), 42, String::from("Will it rain tomorrow?"), END).unwrap()
}

fn market_with_bets(n: u64) -> MarketBook {
    let mut book = open_market();
    for k in 0..n {
        let bettor = if k % 2 == 0 { ALICE } else { BOB };
        bet_at(&mut book, 100 + k, 20).unwrap();
        assert_eq!(deliver(&mut book, 100 + k, bettor, &receipt(k as u8), 30), Ok(k));
    }
    book
}

fn resolved_market() -> MarketBook {
    let mut book = market_with_bets(2);
    resolve_at(&mut book, 900, CREATOR, 1, END).unwrap();
    settle(&mut book, 900, &resolution_bytes(1, 400, 300, 1_333_333), END + 5).unwrap();
    book
}

#[test]
fn scenario_yes_pool_300_no_pool_100() {
    let state = MarketState { market_id: 1, total_yes_bets: 300, total_no_bets: 100, bet_count: 4, actual_outcome: 1 };
    let res = resolve_encrypted_market(&state).unwrap();
    assert_eq!(res.total_pool, 400);
    assert_eq!(res.winning_pool, 300);
    assert_eq!(res.payout_ratio, 1_333_333);
    assert_eq!(res.winning_side, 1);
    assert_eq!(res.market_id, 1);
    let bet = BetData { bet_id: 0, amount: 100, prediction: 1 };
    assert_eq!(calculate_payout(&bet, 1, res.payout_ratio), Ok(133));
}

#[test]
fn scenario_no_winning_bets_pays_one_to_one_ratio() {
    let state = MarketState { market_id: 2, total_yes_bets: 0, total_no_bets: 500, bet_count: 3, actual_outcome: 1 };
    let res = resolve_encrypted_market(&state).unwrap();
    assert_eq!(res.winning_pool, 0);
    assert_eq!(res.total_pool, 500);
    assert_eq!(res.payout_ratio, 1_000_000);
    for amount in [1u64, 250, 249] {
        let bet = BetData { bet_id: 0, amount, prediction: 0 };
        assert_eq!(calculate_payout(&bet, 1, res.payout_ratio), Ok(0));
    }
}

#[test]
fn ratio_for_no_outcome_uses_no_pool() {
    let state = MarketState { market_id: 3, total_yes_bets: 50, total_no_bets: 150, bet_count: 2, actual_outcome: 0 };
    let res = resolve_encrypted_market(&state).unwrap();
    assert_eq!(res.winning_pool, 150);
    assert_eq!(res.payout_ratio, 1_333_333);
}

#[test]
fn resolution_overflow_is_an_error() {
    let state = MarketState { market_id: 3, total_yes_bets: u64::MAX, total_no_bets: 1, bet_count: 2, actual_outcome: 0 };
    assert_eq!(resolve_encrypted_market(&state).err(), Some(MarketError::ArithmeticOverflow));
    let state = MarketState { market_id: 3, total_yes_bets: u64::MAX - 1, total_no_bets: 1, bet_count: 2, actual_outcome: 0 };
    assert_eq!(resolve_encrypted_market(&state).err(), Some(MarketError::ArithmeticOverflow));
}

#[test]
fn payout_rounds_down_and_overflow_is_an_error() {
    let bet = BetData { bet_id: 0, amount: 3, prediction: 0 };
    assert_eq!(calculate_payout(&bet, 0, 1_500_000), Ok(4));
    let big = BetData { bet_id: 0, amount: u64::MAX, prediction: 1 };
    assert_eq!(calculate_payout(&big, 1, 2_000_000), Err(MarketError::ArithmeticOverflow));
    assert_eq!(calculate_payout(&big, 0, 2_000_000), Ok(0));
}

#[test]
fn initialize_market_rejects_past_end_and_long_question() {
    assert_eq!(initialize_market(&init(CREATOR, 10), 1, String::from("q"), 10).err(), Some(MarketError::MarketEnded));
    let long = "x".repeat(201);
    assert_eq!(initialize_market(&init(CREATOR, 10), 1, long, 20).err(), Some(MarketError::InvalidEncryptedData));
    let book = initialize_market(&init(CREATOR, 10), 1, "x".repeat(200), 20).unwrap();
    assert_eq!(book.market.total_bets, 0);
    assert!(!book.market.resolved);
    assert_eq!(book.market.winning_side, None);
}

#[test]
fn scenario_place_bet_after_end_fails() {
    let mut book = open_market();
    assert_eq!(bet_at(&mut book, 1, END), Err(MarketError::MarketEnded));
    assert_eq!(bet_at(&mut book, 1, END + 1), Err(MarketError::MarketEnded));
    assert!(book.pending.is_empty());
}

#[test]
fn scenario_resolve_before_end_fails() {
    let mut book = market_with_bets(1);
    assert_eq!(resolve_at(&mut book, 5, CREATOR, 1, END - 1), Err(MarketError::MarketNotEnded));
}

#[test]
fn scenario_short_receipt_fails() {
    let mut book = open_market();
    bet_at(&mut book, 1, 20).unwrap();
    let short = vec![9u8; 64];
    assert_eq!(deliver(&mut book, 1, ALICE, &short, 30), Err(MarketError::InvalidEncryptedData));
    assert_eq!(book.market.total_bets, 0);
    assert!(book.bets.is_empty());
    assert_eq!(decode_receipt(&short).err(), Some(MarketError::InvalidEncryptedData));
}

#[test]
fn bet_ids_follow_the_counter() {
    let book = market_with_bets(5);
    assert_eq!(book.market.total_bets, 5);
    assert_eq!(book.bets.len(), 5);
    for (i, bet) in book.bets.iter().enumerate() {
        assert_eq!(bet.bet_id, i as u64);
        assert_eq!(bet.market_id, 42);
        assert_eq!(bet.timestamp, 30);
        assert!(!bet.claimed);
    }
    assert!(book.pending.is_empty());
}

#[test]
fn bet_keeps_receipt_fields() {
    let book = market_with_bets(1);
    let r = receipt(0);
    let bet = &book.bets[0];
    assert_eq!(bet.encrypted_amount, r[0..32].to_vec());
    assert_eq!(bet.encrypted_prediction, r[32..64].to_vec());
    assert_eq!(bet.nonce, r[64..80].to_vec());
    assert_eq!(bet.pub_key, r[80..112].to_vec());
    assert_eq!(bet.bettor, ALICE);
}

#[test]
fn bet_request_is_forwarded() {
    let mut book = open_market();
    let sub = bet_at(&mut book, 7, 20).unwrap();
    assert_eq!(sub.correlation_id, 7);
    assert_eq!(sub.ciphertext_bet_amount, [3u8; 32]);
    assert_eq!(sub.ciphertext_prediction, [4u8; 32]);
    assert_eq!(sub.pub_key, [5u8; 32]);
    assert_eq!(sub.nonce, 99);
    assert_eq!(book.pending.len(), 1);
}

#[test]
fn duplicate_and_unknown_computations_are_rejected() {
    let mut book = open_market();
    bet_at(&mut book, 7, 20).unwrap();
    assert_eq!(bet_at(&mut book, 7, 21), Err(MarketError::DuplicateComputation));
    assert_eq!(deliver(&mut book, 8, ALICE, &receipt(1), 30), Err(MarketError::UnknownComputation));
    assert_eq!(deliver(&mut book, 7, ALICE, &receipt(1), 30), Ok(0));
    assert_eq!(deliver(&mut book, 7, ALICE, &receipt(1), 31), Err(MarketError::UnknownComputation));
    assert_eq!(book.market.total_bets, 1);
}

#[test]
fn aborted_computation_leaves_no_bet() {
    let mut book = open_market();
    bet_at(&mut book, 3, 20).unwrap();
    assert_eq!(abort_computation(&mut book, 3), MarketError::AbortedComputation);
    assert_eq!(abort_computation(&mut book, 3), MarketError::UnknownComputation);
    assert_eq!(deliver(&mut book, 3, ALICE, &receipt(1), 30), Err(MarketError::UnknownComputation));
    assert!(book.bets.is_empty());
}

#[test]
fn resolve_request_errors() {
    let mut book = market_with_bets(1);
    assert_eq!(resolve_at(&mut book, 5, CREATOR, 2, END), Err(MarketError::InvalidPrediction));
    assert_eq!(resolve_at(&mut book, 5, ALICE, 1, END), Err(MarketError::Unauthorized));
    assert_eq!(resolve_at(&mut book, 5, CREATOR, 1, END), Ok(ResolutionSubmission { correlation_id: 5, market_id: 42, actual_outcome: 1, bets: vec![encrypted(0, 0)] }));
    assert_eq!(resolve_at(&mut book, 5, CREATOR, 1, END), Err(MarketError::DuplicateComputation));
    assert!(!book.market.resolved);
}

#[test]
fn resolution_callback_records_figures() {
    let book = resolved_market();
    assert!(book.market.resolved);
    assert_eq!(book.market.winning_side, Some(1));
    let res = book.resolution.as_ref().unwrap();
    assert_eq!(res.market_id, 42);
    assert_eq!(res.total_pool, 400);
    assert_eq!(res.winning_pool, 300);
    assert_eq!(res.payout_ratio, 1_333_333);
    assert_eq!(res.resolved_at, END + 5);
    assert!(book.pending.is_empty());
}

#[test]
fn second_resolution_callback_fails() {
    let mut book = market_with_bets(1);
    resolve_at(&mut book, 900, CREATOR, 1, END).unwrap();
    resolve_at(&mut book, 901, CREATOR, 1, END).unwrap();
    settle(&mut book, 900, &resolution_bytes(1, 400, 300, 1_333_333), END).unwrap();
    assert_eq!(
        settle(&mut book, 901, &resolution_bytes(0, 400, 100, 4_000_000), END),
        Err(MarketError::MarketAlreadyResolved)
    );
    assert_eq!(book.resolution.as_ref().unwrap().winning_side, 1);
    assert_eq!(resolve_at(&mut book, 902, CREATOR, 1, END), Err(MarketError::MarketAlreadyResolved));
    assert_eq!(bet_at(&mut book, 903, END - 1), Err(MarketError::MarketAlreadyResolved));
}

#[test]
fn malformed_resolution_data_is_rejected() {
    let mut book = market_with_bets(1);
    resolve_at(&mut book, 900, CREATOR, 1, END).unwrap();
    let short = vec![1u8; 24];
    assert_eq!(settle(&mut book, 900, &short, END), Err(MarketError::InvalidEncryptedData));
    let wrong_side = resolution_bytes(0, 400, 100, 4_000_000);
    assert_eq!(settle(&mut book, 900, &wrong_side, END), Err(MarketError::InvalidEncryptedData));
    let wrong_ratio = resolution_bytes(1, 400, 300, 1_333_334);
    assert_eq!(settle(&mut book, 900, &wrong_ratio, END), Err(MarketError::InvalidEncryptedData));
    let pool_too_big = resolution_bytes(1, 100, 300, 333_333);
    assert_eq!(settle(&mut book, 900, &pool_too_big, END), Err(MarketError::InvalidEncryptedData));
    assert_eq!(settle(&mut book, 77, &resolution_bytes(1, 400, 300, 1_333_333), END), Err(MarketError::UnknownComputation));
    assert!(!book.market.resolved);
    assert_eq!(settle(&mut book, 900, &resolution_bytes(1, 0, 0, 1_000_000), END), Ok(()));
}

#[test]
fn decode_resolution_reads_little_endian() {
    let mut data = resolution_bytes(1, 0x0102030405060708, 300, 1_333_333);
    data.extend_from_slice(&[0xff; 15]);
    let f = decode_resolution(&data).unwrap();
    assert_eq!(f.winning_side, 1);
    assert_eq!(f.total_pool, 0x0102030405060708);
    assert_eq!(f.winning_pool, 300);
    assert_eq!(f.payout_ratio, 1_333_333);
}

#[test]
fn claim_before_resolution_fails() {
    let mut book = market_with_bets(1);
    assert_eq!(claim(&mut book, 0, ALICE), Err(MarketError::MarketNotResolved));
}

#[test]
fn second_claim_fails() {
    let mut book = resolved_market();
    assert_eq!(claim(&mut book, 0, ALICE), Ok(PayoutRequest { outcome: 1, payout_ratio: 1_333_333, bet: encrypted(0, 0) }));
    assert!(book.bets[0].claimed);
    assert!(!book.bets[1].claimed);
    assert_eq!(claim(&mut book, 0, ALICE), Err(MarketError::BetAlreadyClaimed));
}

#[test]
fn claim_by_other_or_missing_bet_fails() {
    let mut book = resolved_market();
    assert_eq!(claim(&mut book, 1, ALICE), Err(MarketError::Unauthorized));
    assert_eq!(claim(&mut book, 2, ALICE), Err(MarketError::BetNotFound));
    assert_eq!(claim(&mut book, 1, BOB), Ok(PayoutRequest { outcome: 1, payout_ratio: 1_333_333, bet: encrypted(1, 1) }));
}

#[test]
fn random_values_combine_seeds() {
    let input = RandomInput { seed1: 0b1100, seed2: 0b1010, seed3: 5, modulus: 0 };
    assert_eq!(generate_random(&input), Some(11));
    let input = RandomInput { seed1: 0b1100, seed2: 0b1010, seed3: 5, modulus: 4 };
    assert_eq!(generate_random(&input), Some(3));
    let input = RandomInput { seed1: u64::MAX, seed2: 0, seed3: 1, modulus: 4 };
    assert_eq!(generate_random(&input), None);
    assert_eq!(random_boolean(7), 1);
    assert_eq!(random_boolean(10), 0);
}

#[test]
fn bet_receipt_id_combines_market_and_nonce() {
    let input = BetInput { market_id: 3, bet_amount: 500, prediction: 1, user_nonce: 17 };
    let r = place_encrypted_bet(&input).unwrap();
    assert_eq!(r.bet_id, 3_000_017);
    assert_eq!(r.encrypted_amount, 500);
    assert_eq!(r.encrypted_prediction, 1);
    assert_eq!(r.timestamp, 0);
    let input = BetInput { market_id: u64::MAX, bet_amount: 1, prediction: 0, user_nonce: 0 };
    assert!(place_encrypted_bet(&input).is_none());
}

#[test]
fn error_messages_and_keys() {
    assert_eq!(MarketError::Unauthorized.message(), "Unauthorized");
    assert_eq!(MarketError::MarketEnded.message(), "Market has already ended");
    assert_eq!(MarketError::BetAlreadyClaimed.message(), "Bet has already been claimed");
    assert!(same_key(&ALICE, &ALICE));
    assert!(!same_key(&ALICE, &BOB));
}

#[test]
fn record_addresses_are_deterministic() {
    let m = market_seeds(42);
    assert_eq!(m, vec![b"market".to_vec(), 42u64.to_le_bytes().to_vec()]);
    let b = bet_seeds(42, 3);
    assert_eq!(b, vec![b"bet".to_vec(), 42u64.to_le_bytes().to_vec(), 3u64.to_le_bytes().to_vec()]);
    let r = resolution_seeds(42);
    assert_eq!(r, vec![b"resolution".to_vec(), 42u64.to_le_bytes().to_vec()]);
    assert_ne!(bet_seeds(42, 3), bet_seeds(3, 42));
    assert_eq!(market_seeds(7), market_seeds(7));
}

#[test]
fn losing_claims_pay_nothing_when_no_one_won() {
    let mut book = market_with_bets(2);
    resolve_at(&mut book, 900, CREATOR, 1, END).unwrap();
    settle(&mut book, 900, &resolution_bytes(1, 500, 0, 1_000_000), END).unwrap();
    for (bet_id, bettor, amount) in [(0u64, ALICE, 200u64), (1, BOB, 300)] {
        let req = claim(&mut book, bet_id, bettor).unwrap();
        assert_eq!(req.payout_ratio, 1_000_000);
        let bet = BetData { bet_id, amount, prediction: 0 };
        assert_eq!(calculate_payout(&bet, req.outcome, req.payout_ratio), Ok(0));
    }
}

#[test]
fn well_formed_books_are_recognised() {
    let mut book = resolved_market();
    assert!(book.is_well_formed());
    book.market.total_bets = 3;
    assert!(!book.is_well_formed());
    book.market.total_bets = 2;
    book.bets[1].bet_id = 0;
    assert!(!book.is_well_formed());
    book.bets[1].bet_id = 1;
    book.resolution.as_mut().unwrap().payout_ratio = 7;
    assert!(!book.is_well_formed());
}

#[test]
fn interleaved_callbacks_get_distinct_ids() {
    let mut book = open_market();
    bet_at(&mut book, 10, 20).unwrap();
    bet_at(&mut book, 11, 21).unwrap();
    bet_at(&mut book, 12, 22).unwrap();
    assert_eq!(deliver(&mut book, 12, BOB, &receipt(3), 30), Ok(0));
    assert_eq!(deliver(&mut book, 10, ALICE, &receipt(1), 31), Ok(1));
    assert_eq!(deliver(&mut book, 11, BOB, &receipt(2), 32), Ok(2));
    let ids: Vec<u64> = book.bets.iter().map(|b| b.bet_id).collect();
    assert_eq!(ids, vec![0, 1, 2]);
    assert_eq!(book.market.total_bets, 3);
    assert_eq!(book.bets[0].bettor, BOB);
}

#[test]
fn resolution_request_forwards_every_bet() {
    let mut book = market_with_bets(3);
    let sub = resolve_at(&mut book, 900, CREATOR, 0, END).unwrap();
    assert_eq!(sub.bets, vec![encrypted(0, 0), encrypted(1, 1), encrypted(2, 2)]);
    assert_eq!(sub.actual_outcome, 0);
    assert_eq!(book.pending.len(), 1);
}

#[test]
fn shared_ratio_helper_matches_formula() {
    assert_eq!(payout_ratio(400, 300), Some(1_333_333));
    assert_eq!(payout_ratio(400, 0), Some(1_000_000));
    assert_eq!(payout_ratio(u64::MAX, 1), None);
}
