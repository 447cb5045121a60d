//! The cumulative-depth curve of a book, for charting.
//!
//! Prices between 0 and 1 are put into buckets one tick wide. Bid size is
//! added up from the best bid downward, ask size from the best ask upward,
//! over the whole range; a bucket without a level of its own carries on
//! the depth of the nearest bucket on the side of the spread. Of that
//! curve a chart shows the window of buckets around the midpoint.

use crate::data::{OrderBookData, SimpleOrder};
use crate::decimal::SCALE;
use vstd::prelude::*;

verus! {

/// Buckets shown around the midpoint where nothing else is asked for.
pub const DEFAULT_TICKS_AROUND_SPREAD: u64 = 20;

/// Buckets added on each side of the observed prices of a book that is
/// one-sided or crossed.
pub const RANGE_PADDING_TICKS: u64 = 10;

/// One point of the curve: a bucket's price and the size resting at it or
/// beyond.
#[derive(Debug, Clone, Copy, PartialEq, Eq)]
pub struct DepthPoint {
    pub price: u64,
    pub depth: u128,
}

/// The window of buckets that the chart shows: bucket `i` holds the prices
/// nearest to tick `min_tick + i`, for `i` below `max_tick - min_tick`.
#[derive(Debug, Clone, Copy, PartialEq, Eq)]
pub struct ChartWindow {
    pub min_tick: u64,
    pub max_tick: u64,
    pub center_tick: u64,
}

/// The curve of one book: the window, and for each side the points of the
/// buckets that hold depth, by rising price.
#[derive(Debug, Clone, PartialEq, Eq)]
pub struct DepthProjection {
    pub window: ChartWindow,
    pub bids: Vec<DepthPoint>,
    pub asks: Vec<DepthPoint>,
}

/// Whether a price lies in the range of valid prices, 0 to 1.
pub open spec fn in_unit_range(price: u64) -> bool {
    price <= SCALE
}

/// The tick nearest to `price`, halves upward.
pub open spec fn nearest_tick(price: int, tick: int) -> int {
    (2 * price + tick) / (2 * tick)
}

/// The last tick of the valid range.
pub open spec fn max_valid_tick(tick: int) -> int {
    SCALE as int / tick
}

/// Whether the book has both sides with the best bid below the best ask.
pub open spec fn is_two_sided(bids: Seq<SimpleOrder>, asks: Seq<SimpleOrder>) -> bool {
    bids.len() > 0 && asks.len() > 0 && 0 < bids[0].price < asks[0].price
}

/// The least valid price among the levels, `None` where none is valid.
pub open spec fn lowest_valid(s: Seq<SimpleOrder>) -> Option<u64>
    decreases s.len(),
{
    if s.len() == 0 {
        None
    } else {
        let rest = lowest_valid(s.drop_last());
        let p = s.last().price;
        if !in_unit_range(p) {
            rest
        } else {
            match rest {
                Some(r) if r <= p => rest,
                _ => Some(p),
            }
        }
    }
}

/// The greatest valid price among the levels, `None` where none is valid.
pub open spec fn highest_valid(s: Seq<SimpleOrder>) -> Option<u64>
    decreases s.len(),
{
    if s.len() == 0 {
        None
    } else {
        let rest = highest_valid(s.drop_last());
        let p = s.last().price;
        if !in_unit_range(p) {
            rest
        } else {
            match rest {
                Some(r) if r >= p => rest,
                _ => Some(p),
            }
        }
    }
}

/// The window as mathematical integers; it may be empty or inverted.
pub struct WindowModel {
    pub min_tick: int,
    pub max_tick: int,
    pub center_tick: int,
}

pub open spec fn max_int(a: int, b: int) -> int {
    if a >= b {
        a
    } else {
        b
    }
}

pub open spec fn min_int(a: int, b: int) -> int {
    if a <= b {
        a
    } else {
        b
    }
}

/// The window of a book for a tick size above 0. For a two-sided book it
/// is centered on the tick nearest to the midpoint and reaches half of
/// `ticks_around_spread` to each side; otherwise it spans the valid
/// observed prices, padded by ten ticks on each side, and there is none
/// where no price is valid. Either way it stays within ticks 0 to
/// `max_valid_tick`.
pub open spec fn window_spec(
    bids: Seq<SimpleOrder>,
    asks: Seq<SimpleOrder>,
    tick: u64,
    ticks_around_spread: u64,
) -> Option<WindowModel> {
    if tick == 0 {
        None
    } else if is_two_sided(bids, asks) {
        let mid = (bids[0].price + asks[0].price + tick) / (2 * tick);
        let half = ticks_around_spread as int / 2;
        Some(
            WindowModel {
                min_tick: max_int(mid - half, 0),
                max_tick: min_int(mid + half, max_valid_tick(tick as int)),
                center_tick: mid,
            },
        )
    } else {
        match (lowest_valid(bids + asks), highest_valid(bids + asks)) {
            (Some(lo), Some(hi)) => {
                let min_tick = max_int(lo as int / tick as int - RANGE_PADDING_TICKS, 0);
                let max_tick = min_int(
                    (hi + tick - 1) / tick as int + RANGE_PADDING_TICKS,
                    max_valid_tick(tick as int),
                );
                Some(WindowModel { min_tick, max_tick, center_tick: (min_tick + max_tick) / 2 })
            },
            _ => None,
        }
    }
}

/// Whether a level adds to the depth at tick `t`: its price is valid and,
/// for bids (`upward` false), its nearest tick is `t` or above, for asks
/// (`upward` true), `t` or below.
pub open spec fn counts_at(level: SimpleOrder, tick: u64, t: int, upward: bool) -> bool {
    in_unit_range(level.price) && if upward {
        nearest_tick(level.price as int, tick as int) <= t
    } else {
        nearest_tick(level.price as int, tick as int) >= t
    }
}

/// The depth of one side at tick `t`: the sizes of all its levels that
/// count there, added up. For bids that is what rests at `t` or above, for
/// asks what rests at `t` or below, over the whole range of valid prices,
/// whether or not a chart shows it.
pub open spec fn depth_at(s: Seq<SimpleOrder>, tick: u64, t: int, upward: bool) -> nat
    decreases s.len(),
{
    if s.len() == 0 {
        0
    } else {
        depth_at(s.drop_last(), tick, t, upward) + if counts_at(s.last(), tick, t, upward) {
            s.last().size as nat
        } else {
            0
        }
    }
}

/// The best price of one side: the highest of the bids (`upward` false),
/// the lowest of the asks (`upward` true); `None` for an empty side.
pub open spec fn best_of(s: Seq<SimpleOrder>, upward: bool) -> Option<u64>
    decreases s.len(),
{
    if s.len() == 0 {
        None
    } else {
        let p = s.last().price;
        match best_of(s.drop_last(), upward) {
            Some(b) if (if upward {
                b <= p
            } else {
                b >= p
            }) => Some(b),
            _ => Some(p),
        }
    }
}

/// Whether the price of a bucket lies on a side's part of the chart: at or
/// below the best bid for bids, at or above the best ask for asks.
pub open spec fn on_side(s: Seq<SimpleOrder>, upward: bool, price: int) -> bool {
    match best_of(s, upward) {
        Some(best) => if upward {
            price >= best
        } else {
            price <= best
        },
        None => false,
    }
}

/// The point of bucket `i` of a window that starts at `min_tick`, where
/// the bucket holds depth and lies on the side's part of the chart.
pub open spec fn point_at(
    s: Seq<SimpleOrder>,
    tick: u64,
    min_tick: int,
    upward: bool,
    i: int,
) -> Option<DepthPoint> {
    let depth = depth_at(s, tick, min_tick + i, upward);
    let price = (min_tick + i) * tick;
    if depth > 0 && on_side(s, upward, price) {
        Some(DepthPoint { price: price as u64, depth: depth as u128 })
    } else {
        None
    }
}

/// The points of the first `n` buckets of one side, by rising price.
pub open spec fn points_upto(
    s: Seq<SimpleOrder>,
    tick: u64,
    min_tick: int,
    upward: bool,
    n: int,
) -> Seq<DepthPoint>
    decreases n,
{
    if n <= 0 {
        Seq::empty()
    } else {
        let head = points_upto(s, tick, min_tick, upward, n - 1);
        match point_at(s, tick, min_tick, upward, n - 1) {
            Some(p) => head.push(p),
            None => head,
        }
    }
}

/// The points of one side over the whole window.
pub open spec fn side_points(s: Seq<SimpleOrder>, tick: u64, w: WindowModel, upward: bool) -> Seq<
    DepthPoint,
> {
    points_upto(s, tick, w.min_tick, upward, w.max_tick - w.min_tick)
}

/// Added-up sizes fit in 128 bits.
pub proof fn lemma_depth_bound(s: Seq<SimpleOrder>, tick: u64, t: int, upward: bool)
    ensures
        depth_at(s, tick, t, upward) <= s.len() * 0xffff_ffff_ffff_ffff,
    decreases s.len(),
{
    if s.len() > 0 {
        lemma_depth_bound(s.drop_last(), tick, t, upward);
    }
}

/// The depth of the bids never rises, and that of the asks never falls, as
/// the price grows.
pub proof fn lemma_depth_monotone(s: Seq<SimpleOrder>, tick: u64, lower: int, higher: int)
    requires
        lower <= higher,
    ensures
        depth_at(s, tick, higher, false) <= depth_at(s, tick, lower, false),
        depth_at(s, tick, lower, true) <= depth_at(s, tick, higher, true),
    decreases s.len(),
{
    if s.len() > 0 {
        lemma_depth_monotone(s.drop_last(), tick, lower, higher);
    }
}

/// Every point of a side holds depth, lies on the side's part of the
/// chart, and is the point of a bucket of the window; the points come by
/// rising bucket.
pub proof fn lemma_points_upto(
    s: Seq<SimpleOrder>,
    tick: u64,
    min_tick: int,
    upward: bool,
    n: int,
)
    ensures
        points_upto(s, tick, min_tick, upward, n).len() <= if n > 0 {
            n
        } else {
            0
        },
        forall|k: int|
            0 <= k < points_upto(s, tick, min_tick, upward, n).len() ==> exists|i: int|
                0 <= i < n && point_at(s, tick, min_tick, upward, i) == Some(
                    #[trigger] points_upto(s, tick, min_tick, upward, n)[k],
                ),
    decreases n,
{
    if n > 0 {
        lemma_points_upto(s, tick, min_tick, upward, n - 1);
        let head = points_upto(s, tick, min_tick, upward, n - 1);
        let all = points_upto(s, tick, min_tick, upward, n);
        assert forall|k: int| 0 <= k < all.len() implies exists|i: int|
            0 <= i < n && point_at(s, tick, min_tick, upward, i) == Some(#[trigger] all[k]) by {
            if k < head.len() {
                assert(all[k] == head[k]);
                let i = choose|i: int|
                    0 <= i < n - 1 && point_at(s, tick, min_tick, upward, i) == Some(head[k]);
                assert(0 <= i < n && point_at(s, tick, min_tick, upward, i) == Some(all[k]));
            } else {
                assert(point_at(s, tick, min_tick, upward, n - 1) == Some(all[k]));
            }
        }
    }
}

/// Every point of the curve of a side, as a book holds it, over a window
/// within the valid range stands at a bucket of the window, holds the depth of the side at that
/// bucket, which is above 0, and lies on the side's part of the chart.
pub proof fn lemma_side_points(s: Seq<SimpleOrder>, tick: u64, w: WindowModel, upward: bool)
    requires
        tick > 0,
        0 <= w.min_tick,
        w.max_tick <= max_valid_tick(tick as int),
        s.len() <= usize::MAX,
    ensures
        forall|k: int|
            0 <= k < side_points(s, tick, w, upward).len() ==> {
                let p = #[trigger] side_points(s, tick, w, upward)[k];
                &&& p.depth > 0
                &&& on_side(s, upward, p.price as int)
                &&& exists|i: int|
                    w.min_tick <= i < w.max_tick && p.price == i * tick && p.depth == depth_at(
                        s,
                        tick,
                        i,
                        upward,
                    )
            },
{
    let n = w.max_tick - w.min_tick;
    let points = side_points(s, tick, w, upward);
    lemma_points_upto(s, tick, w.min_tick, upward, n);
    assert forall|k: int| 0 <= k < points.len() implies {
        let p = #[trigger] points[k];
        &&& p.depth > 0
        &&& on_side(s, upward, p.price as int)
        &&& exists|i: int|
            w.min_tick <= i < w.max_tick && p.price == i * tick && p.depth == depth_at(
                s,
                tick,
                i,
                upward,
            )
    } by {
        let p = points[k];
        let b = choose|b: int| 0 <= b < n && point_at(s, tick, w.min_tick, upward, b) == Some(p);
        let i = w.min_tick + b;
        lemma_depth_bound(s, tick, i, upward);
        assert(0 <= i * tick <= SCALE) by (nonlinear_arith)
            requires
                0 <= i < w.max_tick,
                w.max_tick <= SCALE as int / tick as int,
                tick > 0,
        ;
        assert(s.len() * 0xffff_ffff_ffff_ffff <= u128::MAX) by (nonlinear_arith)
            requires
                s.len() <= 0xffff_ffff_ffff_ffff,
        ;
        assert(w.min_tick <= i < w.max_tick && p.price == i * tick && p.depth == depth_at(
            s,
            tick,
            i,
            upward,
        ));
    }
}

/// The tick nearest to a price.
fn tick_of(price: u64, tick: u64) -> (r: u128)
    requires
        tick > 0,
    ensures
        r == nearest_tick(price as int, tick as int),
{
    (2 * (price as u128) + tick as u128) / (2 * (tick as u128))
}

/// The least and the greatest valid price of both sides.
fn valid_price_range(bids: &Vec<SimpleOrder>, asks: &Vec<SimpleOrder>) -> (r: Option<(u64, u64)>)
    ensures
        match r {
            Some((lo, hi)) => lowest_valid(bids@ + asks@) == Some(lo) && highest_valid(
                bids@ + asks@,
            ) == Some(hi),
            None => lowest_valid(bids@ + asks@) is None && highest_valid(bids@ + asks@) is None,
        },
{
    let ghost all = bids@ + asks@;
    let mut lo: Option<u64> = None;
    let mut hi: Option<u64> = None;
    let mut i: usize = 0;
    assert(all.take(0) =~= Seq::<SimpleOrder>::empty());
    while i < bids.len()
        invariant
            i <= bids.len(),
            all == bids@ + asks@,
            lo == lowest_valid(all.take(i as int)),
            hi == highest_valid(all.take(i as int)),
            lo is None <==> hi is None,
        decreases bids.len() - i,
    {
        proof {
            assert(all.take(i + 1).drop_last() =~= all.take(i as int));
            assert(all.take(i + 1).last() == bids@[i as int]);
        }
        let p = bids[i].price;
        if p <= SCALE {
            lo = match lo {
                Some(r) if r <= p => lo,
                _ => Some(p),
            };
            hi = match hi {
                Some(r) if r >= p => hi,
                _ => Some(p),
            };
        }
        i = i + 1;
    }
    let mut j: usize = 0;
    while j < asks.len()
        invariant
            j <= asks.len(),
            all == bids@ + asks@,
            lo == lowest_valid(all.take((bids@.len() + j) as int)),
            hi == highest_valid(all.take((bids@.len() + j) as int)),
            lo is None <==> hi is None,
        decreases asks.len() - j,
    {
        proof {
            let n = bids@.len() + j;
            assert(all.take(n + 1).drop_last() =~= all.take(n as int));
            assert(all.take(n + 1).last() == asks@[j as int]);
        }
        let p = asks[j].price;
        if p <= SCALE {
            lo = match lo {
                Some(r) if r <= p => lo,
                _ => Some(p),
            };
            hi = match hi {
                Some(r) if r >= p => hi,
                _ => Some(p),
            };
        }
        j = j + 1;
    }
    assert(all.take((bids@.len() + asks@.len()) as int) =~= all);
    match (lo, hi) {
        (Some(l), Some(h)) => Some((l, h)),
        _ => None,
    }
}

/// The window as computed: ticks as wide integers; it may be empty.
struct WideWindow {
    min_tick: u128,
    max_tick: u128,
    center_tick: u128,
}

impl WideWindow {
    spec fn model(self) -> WindowModel {
        WindowModel {
            min_tick: self.min_tick as int,
            max_tick: self.max_tick as int,
            center_tick: self.center_tick as int,
        }
    }
}

fn compute_window(
    bids: &Vec<SimpleOrder>,
    asks: &Vec<SimpleOrder>,
    tick: u64,
    ticks_around_spread: u64,
) -> (r: Option<WideWindow>)
    ensures
        match r {
            Some(w) => window_spec(bids@, asks@, tick, ticks_around_spread) == Some(w.model())
                && w.max_tick <= SCALE,
            None => window_spec(bids@, asks@, tick, ticks_around_spread) is None,
        },
{
    if tick == 0 {
        return None;
    }
    let max_valid: u128 = (SCALE / tick) as u128;
    if bids.len() > 0 && asks.len() > 0 && 0 < bids[0].price && bids[0].price < asks[0].price {
        let mid: u128 = (bids[0].price as u128 + asks[0].price as u128 + tick as u128) / (2 * (
        tick as u128));
        let half: u128 = (ticks_around_spread / 2) as u128;
        let min_tick: u128 = if mid >= half {
            mid - half
        } else {
            0
        };
        let max_tick: u128 = if mid + half <= max_valid {
            mid + half
        } else {
            max_valid
        };
        Some(WideWindow { min_tick, max_tick, center_tick: mid })
    } else {
        match valid_price_range(bids, asks) {
            Some((lo, hi)) => {
                let low_tick = (lo / tick) as u128;
                let min_tick: u128 = if low_tick >= RANGE_PADDING_TICKS as u128 {
                    low_tick - RANGE_PADDING_TICKS as u128
                } else {
                    0
                };
                let high_tick: u128 = (hi as u128 + tick as u128 - 1) / (tick as u128);
                let max_tick: u128 = if high_tick + RANGE_PADDING_TICKS as u128 <= max_valid {
                    high_tick + RANGE_PADDING_TICKS as u128
                } else {
                    max_valid
                };
                Some(WideWindow { min_tick, max_tick, center_tick: (min_tick + max_tick) / 2 })
            },
            None => None,
        }
    }
}

/// The price on which a chart of the book is centered: that of the window's
/// center tick, `Some(None)` where that price does not fit in 64 bits,
/// `None` where the book has no window.
pub fn chart_center(
    bids: &Vec<SimpleOrder>,
    asks: &Vec<SimpleOrder>,
    tick: u64,
    ticks_around_spread: u64,
) -> (r: Option<Option<u64>>)
    ensures
        match window_spec(bids@, asks@, tick, ticks_around_spread) {
            Some(w) => r == Some(
                if w.center_tick * tick <= u64::MAX {
                    Some((w.center_tick * tick) as u64)
                } else {
                    None
                },
            ),
            None => r is None,
        },
{
    match compute_window(bids, asks, tick, ticks_around_spread) {
        Some(w) => {
            if w.center_tick <= u64::MAX as u128 {
                let center = w.center_tick as u64;
                match center.checked_mul(tick) {
                    Some(price) => Some(Some(price)),
                    None => Some(None),
                }
            } else {
                assert(w.center_tick * tick > u64::MAX) by (nonlinear_arith)
                    requires
                        w.center_tick > u64::MAX,
                        tick >= 1,
                ;
                Some(None)
            }
        },
        None => None,
    }
}

/// The depth of one side at a tick.
fn depth_of(levels: &Vec<SimpleOrder>, tick: u64, t: u64, upward: bool) -> (r: u128)
    requires
        tick > 0,
    ensures
        r == depth_at(levels@, tick, t as int, upward),
{
    let mut total: u128 = 0;
    let mut k: usize = 0;
    assert(levels@.take(0) =~= Seq::<SimpleOrder>::empty());
    while k < levels.len()
        invariant
            k <= levels.len(),
            tick > 0,
            total == depth_at(levels@.take(k as int), tick, t as int, upward),
            total <= k * 0xffff_ffff_ffff_ffff,
        decreases levels.len() - k,
    {
        proof {
            assert(levels@.take(k + 1).drop_last() =~= levels@.take(k as int));
            assert(levels@.take(k + 1).last() == levels@[k as int]);
        }
        let level = levels[k];
        if level.price <= SCALE {
            let nearest = tick_of(level.price, tick);
            let counts = if upward {
                nearest <= t as u128
            } else {
                nearest >= t as u128
            };
            if counts {
                total = total + level.size as u128;
            }
        }
        k = k + 1;
    }
    assert(levels@.take(levels.len() as int) =~= levels@);
    total
}

/// The best price of one side.
fn best_price_of(levels: &Vec<SimpleOrder>, upward: bool) -> (r: Option<u64>)
    ensures
        r == best_of(levels@, upward),
{
    let mut best: Option<u64> = None;
    let mut k: usize = 0;
    assert(levels@.take(0) =~= Seq::<SimpleOrder>::empty());
    while k < levels.len()
        invariant
            k <= levels.len(),
            best == best_of(levels@.take(k as int), upward),
        decreases levels.len() - k,
    {
        proof {
            assert(levels@.take(k + 1).drop_last() =~= levels@.take(k as int));
            assert(levels@.take(k + 1).last() == levels@[k as int]);
        }
        let p = levels[k].price;
        best = match best {
            Some(b) if (if upward {
                b <= p
            } else {
                b >= p
            }) => best,
            _ => Some(p),
        };
        k = k + 1;
    }
    assert(levels@.take(levels.len() as int) =~= levels@);
    best
}

/// The points of one side over a window.
fn collect_points(
    levels: &Vec<SimpleOrder>,
    tick: u64,
    min_tick: u64,
    max_tick: u64,
    upward: bool,
) -> (r: Vec<DepthPoint>)
    requires
        tick > 0,
        min_tick < max_tick <= SCALE,
        max_tick <= max_valid_tick(tick as int),
    ensures
        r@ == points_upto(levels@, tick, min_tick as int, upward, max_tick - min_tick),
{
    let best = best_price_of(levels, upward);
    let buckets = max_tick - min_tick;
    let mut points: Vec<DepthPoint> = Vec::new();
    let mut i: u64 = 0;
    while i < buckets
        invariant
            i <= buckets,
            buckets == max_tick - min_tick,
            tick > 0,
            min_tick < max_tick <= SCALE,
            max_tick <= max_valid_tick(tick as int),
            best == best_of(levels@, upward),
            points@ == points_upto(levels@, tick, min_tick as int, upward, i as int),
        decreases buckets - i,
    {
        let depth = depth_of(levels, tick, min_tick + i, upward);
        proof {
            assert((min_tick + i) * tick <= SCALE) by (nonlinear_arith)
                requires
                    min_tick + i < max_tick,
                    max_tick <= SCALE as int / tick as int,
                    tick > 0,
            ;
        }
        let price: u64 = (min_tick + i) * tick;
        let shown = match best {
            Some(b) => if upward {
                price >= b
            } else {
                price <= b
            },
            None => false,
        };
        if depth > 0 && shown {
            points.push(DepthPoint { price, depth });
        }
        i = i + 1;
    }
    points
}

/// What [`OrderBookData::depth_projection`] returns: the curve over the
/// window, or `None` where there is no window or the window holds no
/// bucket.
pub open spec fn has_projection(
    bids: Seq<SimpleOrder>,
    asks: Seq<SimpleOrder>,
    tick: u64,
    ticks_around_spread: u64,
) -> bool {
    match window_spec(bids, asks, tick, ticks_around_spread) {
        Some(w) => w.min_tick < w.max_tick,
        None => false,
    }
}

impl OrderBookData {
    /// The window of buckets that a chart of this book shows; `None` where
    /// the tick size is 0, where a book that is one-sided or crossed has no
    /// valid price, or where the window holds no bucket.
    pub fn chart_window(&self, ticks_around_spread: u64) -> (r: Option<ChartWindow>)
        ensures
            r is Some <==> has_projection(
                self.bids@,
                self.asks@,
                self.tick_size,
                ticks_around_spread,
            ),
            r matches Some(w) ==> window_spec(
                self.bids@,
                self.asks@,
                self.tick_size,
                ticks_around_spread,
            ) == Some(
                WindowModel {
                    min_tick: w.min_tick as int,
                    max_tick: w.max_tick as int,
                    center_tick: w.center_tick as int,
                },
            ) && w.min_tick < w.max_tick <= SCALE,
    {
        match compute_window(&self.bids, &self.asks, self.tick_size, ticks_around_spread) {
            Some(w) => {
                if w.min_tick < w.max_tick {
                    // The window is not empty, so its center is near it.
                    assert(w.center_tick <= w.max_tick + ticks_around_spread);
                    Some(
                        ChartWindow {
                            min_tick: w.min_tick as u64,
                            max_tick: w.max_tick as u64,
                            center_tick: w.center_tick as u64,
                        },
                    )
                } else {
                    None
                }
            },
            None => None,
        }
    }

    /// The cumulative-depth curve of this book over its chart window.
    pub fn depth_projection(&self, ticks_around_spread: u64) -> (r: Option<DepthProjection>)
        ensures
            r is Some <==> has_projection(
                self.bids@,
                self.asks@,
                self.tick_size,
                ticks_around_spread,
            ),
            r matches Some(p) ==> {
                let w = WindowModel {
                    min_tick: p.window.min_tick as int,
                    max_tick: p.window.max_tick as int,
                    center_tick: p.window.center_tick as int,
                };
                &&& window_spec(self.bids@, self.asks@, self.tick_size, ticks_around_spread)
                    == Some(w)
                &&& p.bids@ == side_points(self.bids@, self.tick_size, w, false)
                &&& p.asks@ == side_points(self.asks@, self.tick_size, w, true)
            },
    {
        match self.chart_window(ticks_around_spread) {
            Some(window) => {
                let bids = collect_points(
                    &self.bids,
                    self.tick_size,
                    window.min_tick,
                    window.max_tick,
                    false,
                );
                let asks = collect_points(
                    &self.asks,
                    self.tick_size,
                    window.min_tick,
                    window.max_tick,
                    true,
                );
                Some(DepthProjection { window, bids, asks })
            },
            None => None,
        }
    }
}

} // verus!
