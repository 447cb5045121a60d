//! Statistics derived from the top of a book.

use crate::data::SimpleOrder;
use vstd::arithmetic::div_mod::{
    lemma_div_is_ordered,
    lemma_div_multiples_vanish,
    lemma_div_multiples_vanish_quotient,
    lemma_hoist_over_denominator,
};
use vstd::prelude::*;

verus! {

/// Figures derived from one book. Prices are micro-units; volumes and total
/// sizes may exceed 64 bits.
#[derive(Debug, Clone, Copy, PartialEq, Eq)]
pub struct MarketStats {
    pub total_volume: u128,
    pub volume_24h: u128,
    pub spread: i128,
    pub mid_price: u64,
    pub best_bid: u64,
    pub best_ask: u64,
    pub total_bid_size: u128,
    pub total_ask_size: u128,
}

/// The liquidity-weighted midpoint of the top of the book: each best price
/// weighted by the size on the other side, rounded down. With no size on
/// either side it is the plain mean; with an empty side it is 0.
pub open spec fn weighted_midpoint_spec(bids: Seq<SimpleOrder>, asks: Seq<SimpleOrder>) -> int {
    if bids.len() == 0 || asks.len() == 0 {
        0
    } else if bids[0].size + asks[0].size == 0 {
        (bids[0].price + asks[0].price) / 2
    } else {
        (bids[0].price * asks[0].size + asks[0].price * bids[0].size) / (bids[0].size
            + asks[0].size)
    }
}

/// The sizes of all levels, added up.
pub open spec fn total_size(s: Seq<SimpleOrder>) -> nat
    decreases s.len(),
{
    if s.len() == 0 {
        0
    } else {
        total_size(s.drop_last()) + s.last().size as nat
    }
}

/// The price of the first level, 0 for an empty side.
pub open spec fn best_price(s: Seq<SimpleOrder>) -> u64 {
    if s.len() > 0 {
        s[0].price
    } else {
        0
    }
}

/// The spread as the statistics report it: 0 unless both best prices are
/// above 0.
pub open spec fn stats_spread(bids: Seq<SimpleOrder>, asks: Seq<SimpleOrder>) -> int {
    if best_price(bids) > 0 && best_price(asks) > 0 {
        best_price(asks) - best_price(bids)
    } else {
        0
    }
}

/// `lo + (hi - lo) * w / t` is the weighted mean of `lo` with weight `t - w`
/// and `hi` with weight `w`, and lies between the two.
proof fn lemma_weighted_mean(lo: int, hi: int, w: int, t: int)
    requires
        0 <= lo <= hi,
        0 <= w <= t,
        0 < t,
    ensures
        (lo * (t - w) + hi * w) / t == lo + ((hi - lo) * w) / t,
        0 <= ((hi - lo) * w) / t <= hi - lo,
{
    let d = hi - lo;
    assert(lo * (t - w) + hi * w == d * w + lo * t) by (nonlinear_arith)
        requires
            d == hi - lo,
    ;
    lemma_hoist_over_denominator(d * w, lo, t as nat);
    assert(0 <= d * w <= d * t) by (nonlinear_arith)
        requires
            0 <= d,
            0 <= w <= t,
    ;
    lemma_div_is_ordered(d * w, d * t, t);
    lemma_div_is_ordered(0, d * w, t);
    lemma_div_multiples_vanish(d, t);
    assert(d * t == t * d) by (nonlinear_arith);
}

/// The weighted midpoint lies between the two best prices.
pub proof fn lemma_weighted_midpoint_between(bids: Seq<SimpleOrder>, asks: Seq<SimpleOrder>)
    requires
        bids.len() > 0,
        asks.len() > 0,
    ensures
        bids[0].price <= asks[0].price ==> bids[0].price <= weighted_midpoint_spec(bids, asks)
            <= asks[0].price,
        asks[0].price <= bids[0].price ==> asks[0].price <= weighted_midpoint_spec(bids, asks)
            <= bids[0].price,
{
    let bp = bids[0].price as int;
    let ap = asks[0].price as int;
    let bs = bids[0].size as int;
    let az = asks[0].size as int;
    let t = bs + az;
    if t > 0 {
        if bp <= ap {
            lemma_weighted_mean(bp, ap, bs, t);
            assert(bp * az + ap * bs == bp * (t - bs) + ap * bs);
        } else {
            lemma_weighted_mean(ap, bp, az, t);
            assert(bp * az + ap * bs == ap * (t - az) + bp * az);
        }
    }
}

/// With the same size on both sides, above 0, the weighted midpoint is the
/// plain mean of the two best prices.
pub proof fn lemma_equal_sizes_give_mean(bids: Seq<SimpleOrder>, asks: Seq<SimpleOrder>)
    requires
        bids.len() > 0,
        asks.len() > 0,
        bids[0].size == asks[0].size,
    ensures
        weighted_midpoint_spec(bids, asks) == (bids[0].price + asks[0].price) / 2,
{
    let bp = bids[0].price as int;
    let ap = asks[0].price as int;
    let s = bids[0].size as int;
    if s > 0 {
        lemma_div_multiples_vanish_quotient(s, bp + ap, 2);
        assert(bp * s + ap * s == s * (bp + ap)) by (nonlinear_arith);
        assert(s + s == s * 2);
    }
}

/// The liquidity-weighted midpoint of the top of the book.
pub fn calculate_weighted_midpoint(bids: &[SimpleOrder], asks: &[SimpleOrder]) -> (r: u64)
    ensures
        r == weighted_midpoint_spec(bids@, asks@),
{
    if bids.len() == 0 || asks.len() == 0 {
        return 0;
    }
    let bp = bids[0].price;
    let ap = asks[0].price;
    let bs = bids[0].size as u128;
    let az = asks[0].size as u128;
    let t = bs + az;
    if t == 0 {
        return ((bp as u128 + ap as u128) / 2) as u64;
    }
    proof {
        lemma_weighted_midpoint_between(bids@, asks@);
        if bp <= ap {
            lemma_weighted_mean(bp as int, ap as int, bs as int, t as int);
            assert(bp * az + ap * bs == bp * (t - bs) + ap * bs);
        } else {
            lemma_weighted_mean(ap as int, bp as int, az as int, t as int);
            assert(bp * az + ap * bs == ap * (t - az) + bp * az);
        }
    }
    // Computed from the lower price upward, which cannot overflow.
    if bp <= ap {
        let d = (ap - bp) as u128;
        assert(d * bs <= 0xffff_ffff_ffff_ffff * 0xffff_ffff_ffff_ffff) by (nonlinear_arith)
            requires
                d <= 0xffff_ffff_ffff_ffff,
                bs <= 0xffff_ffff_ffff_ffff,
        ;
        bp + ((d * bs) / t) as u64
    } else {
        let d = (bp - ap) as u128;
        assert(d * az <= 0xffff_ffff_ffff_ffff * 0xffff_ffff_ffff_ffff) by (nonlinear_arith)
            requires
                d <= 0xffff_ffff_ffff_ffff,
                az <= 0xffff_ffff_ffff_ffff,
        ;
        ap + ((d * az) / t) as u64
    }
}

/// The sizes of all levels of a side, added up.
pub fn sum_sizes(levels: &[SimpleOrder]) -> (r: u128)
    ensures
        r == total_size(levels@),
{
    let mut total: u128 = 0;
    let mut i: usize = 0;
    assert(levels@.take(0) =~= Seq::<SimpleOrder>::empty());
    while i < levels.len()
        invariant
            i <= levels.len(),
            total == total_size(levels@.take(i as int)),
            total <= i * 0xffff_ffff_ffff_ffff,
        decreases levels.len() - i,
    {
        proof {
            assert(levels@.take(i + 1).drop_last() =~= levels@.take(i as int));
            assert(levels@.take(i + 1).last() == levels@[i as int]);
        }
        total = total + levels[i].size as u128;
        i = i + 1;
    }
    assert(levels@.take(levels.len() as int) =~= levels@);
    total
}

/// The statistics of a book, without traded volumes.
pub fn calculate_market_stats(bids: &[SimpleOrder], asks: &[SimpleOrder]) -> (r: MarketStats)
    ensures
        r == (MarketStats {
            total_volume: 0,
            volume_24h: 0,
            spread: stats_spread(bids@, asks@) as i128,
            mid_price: weighted_midpoint_spec(bids@, asks@) as u64,
            best_bid: best_price(bids@),
            best_ask: best_price(asks@),
            total_bid_size: total_size(bids@) as u128,
            total_ask_size: total_size(asks@) as u128,
        }),
{
    with_volumes(bids, asks, 0, 0)
}

/// The statistics of a book, with the traded volumes that the exchange
/// reported for it.
pub fn with_volumes(
    bids: &[SimpleOrder],
    asks: &[SimpleOrder],
    volume_24h: u128,
    total_volume: u128,
) -> (r: MarketStats)
    ensures
        r == (MarketStats {
            total_volume,
            volume_24h,
            spread: stats_spread(bids@, asks@) as i128,
            mid_price: weighted_midpoint_spec(bids@, asks@) as u64,
            best_bid: best_price(bids@),
            best_ask: best_price(asks@),
            total_bid_size: total_size(bids@) as u128,
            total_ask_size: total_size(asks@) as u128,
        }),
{
    let best_bid = if bids.len() > 0 {
        bids[0].price
    } else {
        0
    };
    let best_ask = if asks.len() > 0 {
        asks[0].price
    } else {
        0
    };
    let mid_price = calculate_weighted_midpoint(bids, asks);
    let spread: i128 = if best_bid > 0 && best_ask > 0 {
        best_ask as i128 - best_bid as i128
    } else {
        0
    };
    MarketStats {
        total_volume,
        volume_24h,
        spread,
        mid_price,
        best_bid,
        best_ask,
        total_bid_size: sum_sizes(bids),
        total_ask_size: sum_sizes(asks),
    }
}

} // verus!
