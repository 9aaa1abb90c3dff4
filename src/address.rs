//! Deterministic addresses of the records: each record is found from its
//! kind and the public ids of its market (and bet) alone, so no separate
//! index is needed.
use vstd::prelude::*;
use vstd::bytes::{lemma_auto_spec_u64_to_from_le_bytes, spec_u64_to_le_bytes, u64_to_le_bytes};

verus! {

/// `"market"` in ASCII.
pub open spec fn market_prefix() -> Seq<u8> {
    seq![109u8, 97, 114, 107, 101, 116]
}

/// `"bet"` in ASCII.
pub open spec fn bet_prefix() -> Seq<u8> {
    seq![98u8, 101, 116]
}

/// `"resolution"` in ASCII.
pub open spec fn resolution_prefix() -> Seq<u8> {
    seq![114u8, 101, 115, 111, 108, 117, 116, 105, 111, 110]
}

/// Seeds of a market: its prefix and its id in little-endian bytes.
pub open spec fn market_address(market_id: u64) -> Seq<Seq<u8>> {
    seq![market_prefix(), spec_u64_to_le_bytes(market_id)]
}

/// Seeds of a bet: its prefix, the market id and the bet id.
pub open spec fn bet_address(market_id: u64, bet_id: u64) -> Seq<Seq<u8>> {
    seq![bet_prefix(), spec_u64_to_le_bytes(market_id), spec_u64_to_le_bytes(bet_id)]
}

/// Seeds of a resolution: its prefix and the market id.
pub open spec fn resolution_address(market_id: u64) -> Seq<Seq<u8>> {
    seq![resolution_prefix(), spec_u64_to_le_bytes(market_id)]
}

/// The byte contents of a list of seeds.
pub open spec fn seeds_view(seeds: Seq<Vec<u8>>) -> Seq<Seq<u8>> {
    seeds.map_values(|v: Vec<u8>| v@)
}

/// The seeds that address the market `market_id`.
pub fn market_seeds(market_id: u64) -> (r: Vec<Vec<u8>>)
    ensures
        seeds_view(r@) == market_address(market_id),
{
    let prefix: Vec<u8> = vec![109u8, 97, 114, 107, 101, 116];
    let r: Vec<Vec<u8>> = vec![prefix, u64_to_le_bytes(market_id)];
    assert(seeds_view(r@) =~= market_address(market_id));
    r
}

/// The seeds that address bet `bet_id` of market `market_id`.
pub fn bet_seeds(market_id: u64, bet_id: u64) -> (r: Vec<Vec<u8>>)
    ensures
        seeds_view(r@) == bet_address(market_id, bet_id),
{
    let prefix: Vec<u8> = vec![98u8, 101, 116];
    let r: Vec<Vec<u8>> = vec![prefix, u64_to_le_bytes(market_id), u64_to_le_bytes(bet_id)];
    assert(seeds_view(r@) =~= bet_address(market_id, bet_id));
    r
}

/// The seeds that address the resolution of market `market_id`.
pub fn resolution_seeds(market_id: u64) -> (r: Vec<Vec<u8>>)
    ensures
        seeds_view(r@) == resolution_address(market_id),
{
    let prefix: Vec<u8> = vec![114u8, 101, 115, 111, 108, 117, 116, 105, 111, 110];
    let r: Vec<Vec<u8>> = vec![prefix, u64_to_le_bytes(market_id)];
    assert(seeds_view(r@) =~= resolution_address(market_id));
    r
}

/// Distinct records have distinct addresses: a bet address determines its
/// market and bet ids, a market or resolution address its market id, and
/// records of different kinds never share an address.
pub proof fn lemma_addresses_distinct(m1: u64, b1: u64, m2: u64, b2: u64)
    ensures
        bet_address(m1, b1) == bet_address(m2, b2) ==> m1 == m2 && b1 == b2,
        market_address(m1) == market_address(m2) ==> m1 == m2,
        resolution_address(m1) == resolution_address(m2) ==> m1 == m2,
        market_address(m1) != resolution_address(m2),
        market_address(m1) != bet_address(m2, b2),
        resolution_address(m1) != bet_address(m2, b2),
{
    lemma_auto_spec_u64_to_from_le_bytes();
    if bet_address(m1, b1) == bet_address(m2, b2) {
        assert(bet_address(m1, b1)[1] == bet_address(m2, b2)[1]);
        assert(bet_address(m1, b1)[2] == bet_address(m2, b2)[2]);
    }
    if market_address(m1) == market_address(m2) {
        assert(market_address(m1)[1] == market_address(m2)[1]);
    }
    if resolution_address(m1) == resolution_address(m2) {
        assert(resolution_address(m1)[1] == resolution_address(m2)[1]);
    }
    assert(market_address(m1)[0].len() != resolution_address(m2)[0].len());
    assert(market_address(m1).len() != bet_address(m2, b2).len());
    assert(resolution_address(m1).len() != bet_address(m2, b2).len());
}

} // verus!
