//! What holds of every book, whatever snapshots and changes it has seen.

use crate::book::{
    apply_change,
    apply_changes,
    delta_spec,
    parsed_levels,
    side_of,
    sides_wf,
    snapshot_spec,
    Side,
    Sides,
};
use crate::data::{lemma_add_price_twice, BookModel, SimpleOrder};
use crate::decimal::parse_decimal_spec;
use crate::levels::{
    change_side,
    insert_level,
    precedes,
    distinct_prices,
    first_near,
    lemma_first_near,
    lemma_sort_of_ordered,
    lemma_sort_ordered,
    lemma_sort_strict,
    lemma_strict_is_ordered,
    lemma_take_ordered,
    lemma_without_near,
    lemma_without_near_absent,
    near,
    ordered,
    sort_and_limit,
    sort_levels,
    strictly_ordered,
    without_near,
};
use crate::stats::weighted_midpoint_spec;
use crate::websocket::clob::{OrderSummaryModel, PriceChangeModel};
use vstd::prelude::*;

verus! {

/// Sorting and cutting always leaves a side sorted and within the depth.
pub proof fn lemma_limit_ordered(s: Seq<SimpleOrder>, descending: bool, depth: usize)
    ensures
        ordered(sort_and_limit(s, descending, depth), descending),
        sort_and_limit(s, descending, depth).len() <= depth,
        sort_and_limit(s, descending, depth).len() <= s.len(),
{
    lemma_sort_ordered(s, descending);
    let sorted = sort_levels(s, descending);
    if sorted.len() > depth {
        lemma_take_ordered(sorted, descending, depth as int);
    }
}

/// Levels at pairwise different prices come out strictly sorted.
pub proof fn lemma_limit_strict(s: Seq<SimpleOrder>, descending: bool, depth: usize)
    requires
        distinct_prices(s),
    ensures
        strictly_ordered(sort_and_limit(s, descending, depth), descending),
{
    lemma_sort_strict(s, descending);
    let sorted = sort_levels(s, descending);
    if sorted.len() > depth {
        lemma_take_ordered(sorted, descending, depth as int);
    }
}

/// A side that is sorted and within the depth is left as it is.
pub proof fn lemma_limit_settled(s: Seq<SimpleOrder>, descending: bool, depth: usize)
    requires
        ordered(s, descending),
        s.len() <= depth,
    ensures
        sort_and_limit(s, descending, depth) == s,
{
    lemma_sort_of_ordered(s, descending);
}

/// After a snapshot, and after a batch of changes, bids are sorted downward,
/// asks upward, and neither side is longer than the depth.
pub proof fn lemma_sides_always_sorted(
    book: BookModel,
    bids: Seq<OrderSummaryModel>,
    asks: Seq<OrderSummaryModel>,
    changes: Seq<PriceChangeModel>,
    depth: usize,
    now: i64,
)
    ensures
        sides_wf(snapshot_spec(book, bids, asks, depth, now), depth),
        sides_wf(delta_spec(book, changes, depth, now), depth),
{
    lemma_limit_ordered(parsed_levels(bids, now), true, depth);
    lemma_limit_ordered(parsed_levels(asks, now), false, depth);
    let sides = apply_changes(Sides { bids: book.bids, asks: book.asks }, changes, now);
    lemma_limit_ordered(sides.bids, true, depth);
    lemma_limit_ordered(sides.asks, false, depth);
}

/// A snapshot whose entries name each price once per side leaves both sides
/// strictly sorted.
pub proof fn lemma_snapshot_strict(
    book: BookModel,
    bids: Seq<OrderSummaryModel>,
    asks: Seq<OrderSummaryModel>,
    depth: usize,
    now: i64,
)
    requires
        distinct_prices(parsed_levels(bids, now)),
        distinct_prices(parsed_levels(asks, now)),
    ensures
        strictly_ordered(snapshot_spec(book, bids, asks, depth, now).bids, true),
        strictly_ordered(snapshot_spec(book, bids, asks, depth, now).asks, false),
{
    lemma_limit_strict(parsed_levels(bids, now), true, depth);
    lemma_limit_strict(parsed_levels(asks, now), false, depth);
}

/// Every level left by a removal was a level before, and the levels left
/// from a sorted side are sorted.
pub proof fn lemma_without_near_keeps(s: Seq<SimpleOrder>, price: u64, descending: bool)
    ensures
        forall|k: int|
            0 <= k < without_near(s, price).len() ==> exists|j: int|
                0 <= j < s.len() && s[j] == #[trigger] without_near(s, price)[k],
        ordered(s, descending) ==> ordered(without_near(s, price), descending),
        distinct_prices(s) ==> distinct_prices(without_near(s, price)),
    decreases s.len(),
{
    let r = without_near(s, price);
    if s.len() > 0 {
        let head = s.drop_last();
        let rh = without_near(head, price);
        lemma_without_near_keeps(head, price, descending);
        assert forall|k: int| 0 <= k < r.len() implies exists|j: int|
            0 <= j < s.len() && s[j] == #[trigger] r[k] by {
            if k < rh.len() {
                assert(r[k] == rh[k]);
                let j = choose|j: int| 0 <= j < head.len() && head[j] == rh[k];
                assert(s[j] == r[k]);
            } else {
                assert(s[s.len() - 1] == r[k]);
            }
        }
        if ordered(s, descending) {
            assert forall|i: int, j: int| 0 <= i < j < head.len() implies !crate::levels::precedes(
                head[j],
                head[i],
                descending,
            ) by {
                assert(head[i] == s[i] && head[j] == s[j]);
            }
            assert forall|i: int, j: int| 0 <= i < j < r.len() implies !crate::levels::precedes(
                r[j],
                r[i],
                descending,
            ) by {
                if j < rh.len() {
                    assert(r[i] == rh[i] && r[j] == rh[j]);
                } else {
                    assert(r[i] == rh[i]);
                    let m = choose|m: int| 0 <= m < head.len() && head[m] == rh[i];
                    assert(s[m] == r[i]);
                    assert(r[j] == s[s.len() - 1]);
                }
            }
        }
        if distinct_prices(s) {
            assert forall|i: int, j: int| 0 <= i < j < head.len() implies head[i].price
                != head[j].price by {
                assert(head[i] == s[i] && head[j] == s[j]);
            }
            assert forall|i: int, j: int| 0 <= i < j < r.len() implies r[i].price
                != r[j].price by {
                if j < rh.len() {
                    assert(r[i] == rh[i] && r[j] == rh[j]);
                } else {
                    assert(r[i] == rh[i]);
                    let m = choose|m: int| 0 <= m < head.len() && head[m] == rh[i];
                    assert(s[m] == r[i]);
                    assert(r[j] == s[s.len() - 1]);
                }
            }
        }
    }
}

/// One change keeps the prices of a side pairwise different.
pub proof fn lemma_change_side_distinct(s: Seq<SimpleOrder>, price: u64, size: u64, now: i64)
    requires
        distinct_prices(s),
    ensures
        distinct_prices(change_side(s, price, size, now)),
{
    let r = change_side(s, price, size, now);
    let i = first_near(s, price);
    lemma_first_near(s, price);
    if i < s.len() {
        if size == 0 {
            lemma_without_near_keeps(s, price, true);
        } else {
            assert forall|a: int, b: int| 0 <= a < b < r.len() implies r[a].price != r[b].price by {
                assert(r[a].price == s[a].price && r[b].price == s[b].price);
            }
        }
    } else if size > 0 {
        assert forall|a: int, b: int| 0 <= a < b < r.len() implies r[a].price != r[b].price by {
            if b == s.len() {
                assert(!near(s[a].price, price));
                assert(r[a] == s[a]);
            } else {
                assert(r[a] == s[a] && r[b] == s[b]);
            }
        }
    }
}

/// A batch of changes keeps the prices of each side pairwise different.
pub proof fn lemma_changes_distinct(sides: Sides, changes: Seq<PriceChangeModel>, now: i64)
    requires
        distinct_prices(sides.bids),
        distinct_prices(sides.asks),
    ensures
        distinct_prices(apply_changes(sides, changes, now).bids),
        distinct_prices(apply_changes(sides, changes, now).asks),
    decreases changes.len(),
{
    if changes.len() > 0 {
        lemma_changes_distinct(sides, changes.drop_last(), now);
        let before = apply_changes(sides, changes.drop_last(), now);
        let c = changes.last();
        match (parse_decimal_spec(c.price), parse_decimal_spec(c.size)) {
            (Some(price), Some(size)) => {
                lemma_change_side_distinct(before.bids, price, size, now);
                lemma_change_side_distinct(before.asks, price, size, now);
            },
            _ => {},
        }
    }
}

/// A batch of changes to a book whose sides are strictly sorted leaves them
/// strictly sorted.
pub proof fn lemma_delta_strict(
    book: BookModel,
    changes: Seq<PriceChangeModel>,
    depth: usize,
    now: i64,
)
    requires
        strictly_ordered(book.bids, true),
        strictly_ordered(book.asks, false),
    ensures
        strictly_ordered(delta_spec(book, changes, depth, now).bids, true),
        strictly_ordered(delta_spec(book, changes, depth, now).asks, false),
{
    lemma_strict_is_ordered(book.bids, true);
    lemma_strict_is_ordered(book.asks, false);
    let start = Sides { bids: book.bids, asks: book.asks };
    lemma_changes_distinct(start, changes, now);
    let sides = apply_changes(start, changes, now);
    lemma_limit_strict(sides.bids, true, depth);
    lemma_limit_strict(sides.asks, false, depth);
}

/// Applying the same snapshot a second time, at the same time, changes
/// nothing.
pub proof fn lemma_snapshot_idempotent(
    book: BookModel,
    bids: Seq<OrderSummaryModel>,
    asks: Seq<OrderSummaryModel>,
    depth: usize,
    now: i64,
)
    ensures
        snapshot_spec(snapshot_spec(book, bids, asks, depth, now), bids, asks, depth, now)
            == snapshot_spec(book, bids, asks, depth, now),
{
    let once = snapshot_spec(book, bids, asks, depth, now);
    let mid = weighted_midpoint_spec(once.bids, once.asks) as u64;
    lemma_add_price_twice(book.points, book.max_points, mid, now, now);
}

/// A level with `t` as the time of its last change.
pub open spec fn stamped_level(level: SimpleOrder, t: i64) -> SimpleOrder {
    SimpleOrder { change_timestamp: Some(t), ..level }
}

/// A side with `t` as the time of the last change of every level.
pub open spec fn stamped(s: Seq<SimpleOrder>, t: i64) -> Seq<SimpleOrder> {
    Seq::new(s.len(), |i: int| stamped_level(s[i], t))
}

/// The levels that a snapshot's entries denote at one time are those that
/// they denote at another, but for the time.
pub proof fn lemma_parsed_stamped(entries: Seq<OrderSummaryModel>, t1: i64, t2: i64)
    ensures
        parsed_levels(entries, t2) == stamped(parsed_levels(entries, t1), t2),
    decreases entries.len(),
{
    if entries.len() == 0 {
        assert(parsed_levels(entries, t2) =~= stamped(parsed_levels(entries, t1), t2));
    } else {
        lemma_parsed_stamped(entries.drop_last(), t1, t2);
        assert(parsed_levels(entries, t2) =~= stamped(parsed_levels(entries, t1), t2));
    }
}

/// Where a level is put does not depend on times of change.
pub proof fn lemma_insert_stamped(s: Seq<SimpleOrder>, x: SimpleOrder, descending: bool, t: i64)
    ensures
        insert_level(stamped(s, t), stamped_level(x, t), descending) == stamped(
            insert_level(s, x, descending),
            t,
        ),
    decreases s.len(),
{
    let st = stamped(s, t);
    let xt = stamped_level(x, t);
    if s.len() > 0 && precedes(x, s.last(), descending) {
        assert(st.last() == stamped_level(s.last(), t));
        assert(precedes(xt, st.last(), descending));
        lemma_insert_stamped(s.drop_last(), x, descending, t);
        assert(st.drop_last() =~= stamped(s.drop_last(), t));
        assert(insert_level(st, xt, descending) =~= stamped(insert_level(s, x, descending), t));
    } else {
        if s.len() > 0 {
            assert(st.last() == stamped_level(s.last(), t));
        }
        assert(st.push(xt) =~= stamped(s.push(x), t));
    }
}

/// The order of a sorted side does not depend on times of change.
pub proof fn lemma_sort_stamped(s: Seq<SimpleOrder>, descending: bool, depth: usize, t: i64)
    ensures
        sort_levels(stamped(s, t), descending) == stamped(sort_levels(s, descending), t),
        sort_and_limit(stamped(s, t), descending, depth) == stamped(
            sort_and_limit(s, descending, depth),
            t,
        ),
    decreases s.len(),
{
    let st = stamped(s, t);
    if s.len() > 0 {
        lemma_sort_stamped(s.drop_last(), descending, depth, t);
        assert(st.drop_last() =~= stamped(s.drop_last(), t));
        assert(st.last() == stamped_level(s.last(), t));
        lemma_insert_stamped(sort_levels(s.drop_last(), descending), s.last(), descending, t);
    } else {
        assert(sort_levels(st, descending) =~= stamped(sort_levels(s, descending), t));
    }
    lemma_sort_ordered(s, descending);
    let sorted = sort_levels(s, descending);
    if sorted.len() > depth {
        assert(stamped(sorted, t).take(depth as int) =~= stamped(sorted.take(depth as int), t));
    }
}

/// Applying the same snapshot again at a later time changes nothing but
/// times: the levels keep their prices, sizes and order, and the price
/// history stays as it is.
pub proof fn lemma_snapshot_again(
    book: BookModel,
    bids: Seq<OrderSummaryModel>,
    asks: Seq<OrderSummaryModel>,
    depth: usize,
    first: i64,
    second: i64,
)
    ensures
        ({
            let once = snapshot_spec(book, bids, asks, depth, first);
            snapshot_spec(once, bids, asks, depth, second) == (BookModel {
                bids: stamped(once.bids, second),
                asks: stamped(once.asks, second),
                last_updated: second,
                ..once
            })
        }),
{
    let once = snapshot_spec(book, bids, asks, depth, first);
    lemma_parsed_stamped(bids, first, second);
    lemma_parsed_stamped(asks, first, second);
    lemma_sort_stamped(parsed_levels(bids, first), true, depth, second);
    lemma_sort_stamped(parsed_levels(asks, first), false, depth, second);
    let again_bids = stamped(once.bids, second);
    let again_asks = stamped(once.asks, second);
    if once.bids.len() > 0 {
        assert(again_bids[0] == stamped_level(once.bids[0], second));
    }
    if once.asks.len() > 0 {
        assert(again_asks[0] == stamped_level(once.asks[0], second));
    }
    assert(weighted_midpoint_spec(again_bids, again_asks) == weighted_midpoint_spec(
        once.bids,
        once.asks,
    ));
    let mid = weighted_midpoint_spec(once.bids, once.asks) as u64;
    lemma_add_price_twice(book.points, book.max_points, mid, first, second);
}

/// The side that a change edits, and the side that it leaves alone.
pub open spec fn side_levels(book: BookModel, side: Side) -> Seq<SimpleOrder> {
    match side {
        Side::Bid => book.bids,
        Side::Ask => book.asks,
    }
}

pub open spec fn other_side(side: Side) -> Side {
    match side {
        Side::Bid => Side::Ask,
        Side::Ask => Side::Bid,
    }
}

/// A change of size 0 to a book in its settled state removes the levels
/// within the tolerance of its price and nothing else; where no level is
/// within the tolerance, both sides stay exactly as they were.
pub proof fn lemma_zero_size_change(
    book: BookModel,
    change: PriceChangeModel,
    side: Side,
    price: u64,
    depth: usize,
    now: i64,
)
    requires
        sides_wf(book, depth),
        parse_decimal_spec(change.price) == Some(price),
        parse_decimal_spec(change.size) == Some(0u64),
        side_of(change.side) == Some(side),
    ensures
        side_levels(delta_spec(book, seq![change], depth, now), side) == without_near(
            side_levels(book, side),
            price,
        ),
        forall|k: int|
            0 <= k < side_levels(delta_spec(book, seq![change], depth, now), side).len() ==> !near(
                (#[trigger] side_levels(delta_spec(book, seq![change], depth, now), side)[k]).price,
                price,
            ),
        side_levels(delta_spec(book, seq![change], depth, now), other_side(side)) == side_levels(
            book,
            other_side(side),
        ),
        first_near(side_levels(book, side), price) == side_levels(book, side).len()
            ==> side_levels(delta_spec(book, seq![change], depth, now), side) == side_levels(
            book,
            side,
        ),
{
    let start = Sides { bids: book.bids, asks: book.asks };
    let batch = seq![change];
    assert(batch.drop_last() =~= Seq::<PriceChangeModel>::empty());
    assert(batch.last() == change);
    assert(apply_changes(start, batch.drop_last(), now) == start);
    assert(apply_changes(start, batch, now) == apply_change(start, change, now));
    let before = side_levels(book, side);
    let descending = side == Side::Bid;
    lemma_first_near(before, price);
    lemma_without_near(before, price);
    lemma_without_near_keeps(before, price, descending);
    if first_near(before, price) == before.len() {
        lemma_without_near_absent(before, price);
    }
    assert(change_side(before, price, 0, now) == without_near(before, price));
    lemma_limit_settled(without_near(before, price), descending, depth);
    lemma_limit_settled(side_levels(book, other_side(side)), !descending, depth);
}

} // verus!
