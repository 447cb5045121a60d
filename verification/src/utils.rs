//! Midpoint and spread of two prices.

use crate::data::SimpleOrder;
use crate::stats::best_price;
use vstd::prelude::*;

verus! {

/// The mean of two prices, rounded down; 0 where either is 0.
pub open spec fn pair_midpoint(bid: u64, ask: u64) -> int {
    if bid == 0 || ask == 0 {
        0
    } else {
        (bid + ask) / 2
    }
}

/// Ask minus bid; 0 where either is 0.
pub open spec fn pair_spread(bid: u64, ask: u64) -> int {
    if bid == 0 || ask == 0 {
        0
    } else {
        ask - bid
    }
}

pub fn get_midpoint(bid: u64, ask: u64) -> (r: u64)
    ensures
        r == pair_midpoint(bid, ask),
{
    if bid == 0 || ask == 0 {
        return 0;
    }
    ((bid as u128 + ask as u128) / 2) as u64
}

pub fn get_midpoint_from_slices(bid: &[SimpleOrder], ask: &[SimpleOrder]) -> (r: u64)
    ensures
        r == pair_midpoint(best_price(bid@), best_price(ask@)),
{
    let best_bid = if bid.len() > 0 {
        bid[0].price
    } else {
        0
    };
    let best_ask = if ask.len() > 0 {
        ask[0].price
    } else {
        0
    };
    get_midpoint(best_bid, best_ask)
}

pub fn get_spread(bid: u64, ask: u64) -> (r: i128)
    ensures
        r == pair_spread(bid, ask),
{
    if bid == 0 || ask == 0 {
        return 0;
    }
    ask as i128 - bid as i128
}

pub fn get_spread_from_slices(bid: &[SimpleOrder], ask: &[SimpleOrder]) -> (r: i128)
    ensures
        r == pair_spread(best_price(bid@), best_price(ask@)),
{
    let best_bid = if bid.len() > 0 {
        bid[0].price
    } else {
        0
    };
    let best_ask = if ask.len() > 0 {
        ask[0].price
    } else {
        0
    };
    get_spread(best_bid, best_ask)
}

} // verus!
