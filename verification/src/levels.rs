//! One side of a book as a sequence of levels: ordering, stable sorting,
//! and the effect of a single incremental change.

use crate::config::PRICE_TOLERANCE;
use crate::data::SimpleOrder;
use vstd::prelude::*;

verus! {

/// Whether `a` must stand before `b`: at a higher price on a descending
/// side (bids), at a lower price on an ascending side (asks).
pub open spec fn precedes(a: SimpleOrder, b: SimpleOrder, descending: bool) -> bool {
    if descending {
        a.price > b.price
    } else {
        a.price < b.price
    }
}

/// No level stands after one that it must precede.
pub open spec fn ordered(s: Seq<SimpleOrder>, descending: bool) -> bool {
    forall|i: int, j: int| 0 <= i < j < s.len() ==> !precedes(s[j], s[i], descending)
}

/// Every level precedes all that follow it: sorted, and no price twice.
pub open spec fn strictly_ordered(s: Seq<SimpleOrder>, descending: bool) -> bool {
    forall|i: int, j: int| 0 <= i < j < s.len() ==> precedes(s[i], s[j], descending)
}

/// No two levels share a price.
pub open spec fn distinct_prices(s: Seq<SimpleOrder>) -> bool {
    forall|i: int, j: int| 0 <= i < j < s.len() ==> s[i].price != s[j].price
}

/// Whether some level of `s` has the price `p`.
pub open spec fn has_price(s: Seq<SimpleOrder>, p: u64) -> bool {
    exists|i: int| 0 <= i < s.len() && (#[trigger] s[i]).price == p
}

/// `x` put into `s` behind every level that it does not precede.
pub open spec fn insert_level(s: Seq<SimpleOrder>, x: SimpleOrder, descending: bool) -> Seq<
    SimpleOrder,
>
    decreases s.len(),
{
    if s.len() > 0 && precedes(x, s.last(), descending) {
        insert_level(s.drop_last(), x, descending).push(s.last())
    } else {
        s.push(x)
    }
}

/// The stable sort of `s`: its levels by price, levels of equal price in
/// the order in which they came.
pub open spec fn sort_levels(s: Seq<SimpleOrder>, descending: bool) -> Seq<SimpleOrder>
    decreases s.len(),
{
    if s.len() == 0 {
        s
    } else {
        insert_level(sort_levels(s.drop_last(), descending), s.last(), descending)
    }
}

/// The first `depth` levels of the stable sort of `s`.
pub open spec fn sort_and_limit(s: Seq<SimpleOrder>, descending: bool, depth: usize) -> Seq<
    SimpleOrder,
> {
    let sorted = sort_levels(s, descending);
    if sorted.len() > depth {
        sorted.take(depth as int)
    } else {
        sorted
    }
}

/// Inserting puts `x` at the position behind which every level is one that
/// `x` precedes, and before which stands one that it does not.
pub proof fn lemma_insert_at(s: Seq<SimpleOrder>, x: SimpleOrder, descending: bool, pos: int)
    requires
        0 <= pos <= s.len(),
        forall|k: int| pos <= k < s.len() ==> precedes(x, #[trigger] s[k], descending),
        pos > 0 ==> !precedes(x, s[pos - 1], descending),
    ensures
        insert_level(s, x, descending) == s.insert(pos, x),
    decreases s.len() - pos,
{
    if pos == s.len() {
        assert(s.push(x) =~= s.insert(pos, x));
    } else {
        assert(precedes(x, s[s.len() - 1], descending));
        let head = s.drop_last();
        lemma_insert_at(head, x, descending, pos);
        assert(head.insert(pos, x).push(s.last()) =~= s.insert(pos, x));
    }
}

/// The position at which `insert_level` puts `x`.
pub open spec fn insert_position(s: Seq<SimpleOrder>, x: SimpleOrder, descending: bool) -> int
    decreases s.len(),
{
    if s.len() > 0 && precedes(x, s.last(), descending) {
        insert_position(s.drop_last(), x, descending)
    } else {
        s.len() as int
    }
}

pub proof fn lemma_insert_position(s: Seq<SimpleOrder>, x: SimpleOrder, descending: bool)
    ensures
        0 <= insert_position(s, x, descending) <= s.len(),
        forall|k: int|
            insert_position(s, x, descending) <= k < s.len() ==> precedes(
                x,
                #[trigger] s[k],
                descending,
            ),
        insert_position(s, x, descending) > 0 ==> !precedes(
            x,
            s[insert_position(s, x, descending) - 1],
            descending,
        ),
        insert_level(s, x, descending) == s.insert(insert_position(s, x, descending), x),
    decreases s.len(),
{
    if s.len() > 0 && precedes(x, s.last(), descending) {
        let head = s.drop_last();
        lemma_insert_position(head, x, descending);
        let pos = insert_position(head, x, descending);
        assert forall|k: int| pos <= k < s.len() implies precedes(x, #[trigger] s[k], descending) by {
            if k < head.len() {
                assert(head[k] == s[k]);
            }
        }
        if pos > 0 {
            assert(head[pos - 1] == s[pos - 1]);
        }
    }
    lemma_insert_at(s, x, descending, insert_position(s, x, descending));
}

/// Inserting into a sorted side leaves it sorted.
pub proof fn lemma_insert_ordered(s: Seq<SimpleOrder>, x: SimpleOrder, descending: bool)
    requires
        ordered(s, descending),
    ensures
        ordered(insert_level(s, x, descending), descending),
        insert_level(s, x, descending).len() == s.len() + 1,
{
    lemma_insert_position(s, x, descending);
    let pos = insert_position(s, x, descending);
    let r = s.insert(pos, x);
    assert forall|i: int, j: int| 0 <= i < j < r.len() implies !precedes(r[j], r[i], descending) by {
        if j == pos {
            // r[j] is x; r[i] stands before the position.
            assert(r[i] == s[i]);
            if pos > 0 {
                assert(!precedes(s[pos - 1], s[i], descending) || i == pos - 1);
            }
        } else if i == pos {
            assert(r[j] == s[j - 1]);
            assert(precedes(x, s[j - 1], descending));
        } else {
            let si = if i < pos {
                i
            } else {
                i - 1
            };
            let sj = if j < pos {
                j
            } else {
                j - 1
            };
            assert(r[i] == s[si] && r[j] == s[sj]);
        }
    }
}

/// A sort is sorted, and as long as what it sorts.
pub proof fn lemma_sort_ordered(s: Seq<SimpleOrder>, descending: bool)
    ensures
        ordered(sort_levels(s, descending), descending),
        sort_levels(s, descending).len() == s.len(),
    decreases s.len(),
{
    if s.len() > 0 {
        lemma_sort_ordered(s.drop_last(), descending);
        lemma_insert_ordered(sort_levels(s.drop_last(), descending), s.last(), descending);
    }
}

/// A sort holds the levels that were sorted, each as often as before.
pub proof fn lemma_sort_permutes(s: Seq<SimpleOrder>, descending: bool)
    ensures
        sort_levels(s, descending).to_multiset() == s.to_multiset(),
    decreases s.len(),
{
    broadcast use vstd::seq_lib::group_to_multiset_ensures;

    if s.len() > 0 {
        let head = s.drop_last();
        let sorted = sort_levels(head, descending);
        lemma_sort_permutes(head, descending);
        lemma_insert_position(sorted, s.last(), descending);
        let pos = insert_position(sorted, s.last(), descending);
        vstd::seq_lib::to_multiset_insert(sorted, pos, s.last());
        assert(s =~= head.push(s.last()));
        assert(sort_levels(s, descending).to_multiset() =~= s.to_multiset());
    } else {
        assert(sort_levels(s, descending) =~= s);
    }
}

/// Sorting a sorted side changes nothing.
pub proof fn lemma_sort_of_ordered(s: Seq<SimpleOrder>, descending: bool)
    requires
        ordered(s, descending),
    ensures
        sort_levels(s, descending) == s,
    decreases s.len(),
{
    if s.len() > 0 {
        let head = s.drop_last();
        assert forall|i: int, j: int| 0 <= i < j < head.len() implies !precedes(
            head[j],
            head[i],
            descending,
        ) by {
            assert(head[i] == s[i] && head[j] == s[j]);
        }
        lemma_sort_of_ordered(head, descending);
        if head.len() > 0 {
            assert(!precedes(s[s.len() - 1], s[head.len() - 1], descending));
            assert(head.last() == s[head.len() - 1]);
        }
        assert(head.push(s.last()) =~= s);
    }
}

/// Inserting adds the price of `x` to the prices of `s` and no other.
pub proof fn lemma_insert_prices(s: Seq<SimpleOrder>, x: SimpleOrder, descending: bool, p: u64)
    ensures
        has_price(insert_level(s, x, descending), p) <==> (has_price(s, p) || p == x.price),
{
    lemma_insert_position(s, x, descending);
    let pos = insert_position(s, x, descending);
    let r = s.insert(pos, x);
    if has_price(r, p) {
        let i = choose|i: int| 0 <= i < r.len() && (#[trigger] r[i]).price == p;
        if i < pos {
            assert(s[i].price == p);
        } else if i > pos {
            assert(s[i - 1].price == p);
        }
    }
    if has_price(s, p) {
        let i = choose|i: int| 0 <= i < s.len() && (#[trigger] s[i]).price == p;
        if i < pos {
            assert(r[i].price == p);
        } else {
            assert(r[i + 1].price == p);
        }
    }
    if p == x.price {
        assert(r[pos].price == p);
    }
}

/// A sort has the prices of what was sorted.
pub proof fn lemma_sort_prices(s: Seq<SimpleOrder>, descending: bool, p: u64)
    ensures
        has_price(sort_levels(s, descending), p) <==> has_price(s, p),
    decreases s.len(),
{
    if s.len() > 0 {
        let head = s.drop_last();
        lemma_sort_prices(head, descending, p);
        lemma_insert_prices(sort_levels(head, descending), s.last(), descending, p);
        if has_price(head, p) {
            let i = choose|i: int| 0 <= i < head.len() && (#[trigger] head[i]).price == p;
            assert(s[i].price == p);
        }
        if has_price(s, p) {
            let i = choose|i: int| 0 <= i < s.len() && (#[trigger] s[i]).price == p;
            if i < head.len() {
                assert(head[i].price == p);
            }
        }
        if p == s.last().price {
            assert(s[s.len() - 1].price == p);
        }
    }
}

/// Inserting a level at a new price into a strictly sorted side leaves it
/// strictly sorted.
pub proof fn lemma_insert_strict(s: Seq<SimpleOrder>, x: SimpleOrder, descending: bool)
    requires
        strictly_ordered(s, descending),
        !has_price(s, x.price),
    ensures
        strictly_ordered(insert_level(s, x, descending), descending),
{
    lemma_insert_position(s, x, descending);
    let pos = insert_position(s, x, descending);
    let r = s.insert(pos, x);
    assert forall|i: int, j: int| 0 <= i < j < r.len() implies precedes(r[i], r[j], descending) by {
        if j == pos {
            assert(r[i] == s[i]);
            assert(s[i].price != x.price);
            assert(!precedes(x, s[pos - 1], descending));
            if i < pos - 1 {
                assert(precedes(s[i], s[pos - 1], descending));
            }
        } else if i == pos {
            assert(r[j] == s[j - 1]);
            assert(precedes(x, s[j - 1], descending));
        } else {
            let si = if i < pos {
                i
            } else {
                i - 1
            };
            let sj = if j < pos {
                j
            } else {
                j - 1
            };
            assert(r[i] == s[si] && r[j] == s[sj]);
        }
    }
}

/// The sort of levels at pairwise different prices is strictly sorted.
pub proof fn lemma_sort_strict(s: Seq<SimpleOrder>, descending: bool)
    requires
        distinct_prices(s),
    ensures
        strictly_ordered(sort_levels(s, descending), descending),
    decreases s.len(),
{
    if s.len() > 0 {
        let head = s.drop_last();
        assert forall|i: int, j: int| 0 <= i < j < head.len() implies head[i].price
            != head[j].price by {
            assert(head[i] == s[i] && head[j] == s[j]);
        }
        lemma_sort_strict(head, descending);
        lemma_sort_prices(head, descending, s.last().price);
        if has_price(head, s.last().price) {
            let i = choose|i: int| 0 <= i < head.len() && (#[trigger] head[i]).price
                == s.last().price;
            assert(s[i].price == s[s.len() - 1].price);
        }
        lemma_insert_strict(sort_levels(head, descending), s.last(), descending);
    }
}

/// A strictly sorted side is sorted and has no price twice.
pub proof fn lemma_strict_is_ordered(s: Seq<SimpleOrder>, descending: bool)
    requires
        strictly_ordered(s, descending),
    ensures
        ordered(s, descending),
        distinct_prices(s),
{
    assert forall|i: int, j: int| 0 <= i < j < s.len() implies !precedes(s[j], s[i], descending) by {
        assert(precedes(s[i], s[j], descending));
    }
    assert forall|i: int, j: int| 0 <= i < j < s.len() implies s[i].price != s[j].price by {
        assert(precedes(s[i], s[j], descending));
    }
}

/// Cutting a sorted side short leaves it sorted.
pub proof fn lemma_take_ordered(s: Seq<SimpleOrder>, descending: bool, n: int)
    requires
        0 <= n <= s.len(),
    ensures
        ordered(s, descending) ==> ordered(s.take(n), descending),
        strictly_ordered(s, descending) ==> strictly_ordered(s.take(n), descending),
{
    let t = s.take(n);
    if ordered(s, descending) {
        assert forall|i: int, j: int| 0 <= i < j < t.len() implies !precedes(t[j], t[i], descending) by {
            assert(t[i] == s[i] && t[j] == s[j]);
        }
    }
    if strictly_ordered(s, descending) {
        assert forall|i: int, j: int| 0 <= i < j < t.len() implies precedes(t[i], t[j], descending) by {
            assert(t[i] == s[i] && t[j] == s[j]);
        }
    }
}

/// Whether `a` must stand before `b`.
pub fn level_precedes(a: &SimpleOrder, b: &SimpleOrder, descending: bool) -> (r: bool)
    ensures
        r == precedes(*a, *b, descending),
{
    if descending {
        a.price > b.price
    } else {
        a.price < b.price
    }
}

/// Sorts a side by price, stably, and keeps its first `depth` levels.
pub fn sort_and_truncate(levels: Vec<SimpleOrder>, descending: bool, depth: usize) -> (r: Vec<
    SimpleOrder,
>)
    ensures
        r@ == sort_and_limit(levels@, descending, depth),
        ordered(r@, descending),
        r@.len() <= depth,
        r@.len() <= levels@.len(),
{
    let mut sorted: Vec<SimpleOrder> = Vec::new();
    let mut i: usize = 0;
    assert(levels@.take(0) =~= Seq::<SimpleOrder>::empty());
    while i < levels.len()
        invariant
            i <= levels.len(),
            sorted@ == sort_levels(levels@.take(i as int), descending),
        decreases levels.len() - i,
    {
        let x = levels[i];
        let mut pos: usize = sorted.len();
        while pos > 0 && level_precedes(&x, &sorted[pos - 1], descending)
            invariant
                pos <= sorted.len(),
                forall|k: int|
                    pos <= k < sorted.len() ==> precedes(x, #[trigger] sorted@[k], descending),
            decreases pos,
        {
            pos = pos - 1;
        }
        proof {
            lemma_insert_at(sorted@, x, descending, pos as int);
            assert(levels@.take(i + 1).drop_last() =~= levels@.take(i as int));
            assert(levels@.take(i + 1).last() == x);
        }
        sorted.insert(pos, x);
        i = i + 1;
    }
    proof {
        assert(levels@.take(levels.len() as int) =~= levels@);
        lemma_sort_ordered(levels@, descending);
        lemma_take_ordered(
            sort_levels(levels@, descending),
            descending,
            if sorted@.len() > depth {
                depth as int
            } else {
                sorted@.len() as int
            },
        );
    }
    if sorted.len() > depth {
        sorted.truncate(depth);
    }
    proof {
        if sort_levels(levels@, descending).len() <= depth {
            assert(sort_levels(levels@, descending).take(sorted@.len() as int) =~= sort_levels(
                levels@,
                descending,
            ));
        }
    }
    sorted
}

/// Whether two prices differ by less than the matching tolerance.
pub open spec fn near(a: u64, b: u64) -> bool {
    if a >= b {
        a - b < PRICE_TOLERANCE
    } else {
        b - a < PRICE_TOLERANCE
    }
}

/// The index of the first level whose price is near `price`, or `s.len()`
/// where there is none.
pub open spec fn first_near(s: Seq<SimpleOrder>, price: u64) -> int
    decreases s.len(),
{
    if s.len() == 0 || near(s[0].price, price) {
        0
    } else {
        1 + first_near(s.skip(1), price)
    }
}

/// `s` without the levels whose price is near `price`.
pub open spec fn without_near(s: Seq<SimpleOrder>, price: u64) -> Seq<SimpleOrder>
    decreases s.len(),
{
    if s.len() == 0 {
        s
    } else if near(s.last().price, price) {
        without_near(s.drop_last(), price)
    } else {
        without_near(s.drop_last(), price).push(s.last())
    }
}

/// One side after the change `(price, size)` at `now`, before it is sorted
/// again. Where a level is near `price`: size 0 removes every such level,
/// any other size is set on the first of them. Where none is: a size above 0
/// adds a level at the end, size 0 does nothing.
pub open spec fn change_side(s: Seq<SimpleOrder>, price: u64, size: u64, now: i64) -> Seq<
    SimpleOrder,
> {
    let i = first_near(s, price);
    if i < s.len() {
        if size == 0 {
            without_near(s, price)
        } else {
            s.update(i, s[i].spec_update_size(size, now))
        }
    } else if size > 0 {
        s.push(SimpleOrder::spec_new(price, size, now))
    } else {
        s
    }
}

pub proof fn lemma_first_near(s: Seq<SimpleOrder>, price: u64)
    ensures
        0 <= first_near(s, price) <= s.len(),
        forall|j: int| 0 <= j < first_near(s, price) ==> !near((#[trigger] s[j]).price, price),
        first_near(s, price) < s.len() ==> near(s[first_near(s, price)].price, price),
    decreases s.len(),
{
    if s.len() == 0 || near(s[0].price, price) {
    } else {
        let t = s.skip(1);
        lemma_first_near(t, price);
        assert forall|j: int| 0 <= j < first_near(s, price) implies !near(
            (#[trigger] s[j]).price,
            price,
        ) by {
            if j > 0 {
                assert(t[j - 1] == s[j]);
            }
        }
        if first_near(s, price) < s.len() {
            assert(t[first_near(t, price)] == s[first_near(s, price)]);
        }
    }
}

/// A position at which the first level near `price` stands, or the end
/// where none does, is `first_near`.
pub proof fn lemma_first_near_is(s: Seq<SimpleOrder>, price: u64, i: int)
    requires
        0 <= i <= s.len(),
        forall|j: int| 0 <= j < i ==> !near((#[trigger] s[j]).price, price),
        i < s.len() ==> near(s[i].price, price),
    ensures
        first_near(s, price) == i,
{
    lemma_first_near(s, price);
    let d = first_near(s, price);
    if d < i {
        assert(near(s[d].price, price));
    } else if i < d {
        assert(near(s[i].price, price));
    }
}

/// Where no level is near `price`, removing those levels changes nothing.
pub proof fn lemma_without_near_absent(s: Seq<SimpleOrder>, price: u64)
    requires
        first_near(s, price) == s.len(),
    ensures
        without_near(s, price) == s,
    decreases s.len(),
{
    lemma_first_near(s, price);
    if s.len() > 0 {
        let head = s.drop_last();
        assert forall|j: int| 0 <= j < head.len() implies !near((#[trigger] head[j]).price, price) by {
            assert(head[j] == s[j]);
        }
        lemma_first_near_is(head, price, head.len() as int);
        lemma_without_near_absent(head, price);
        assert(!near(s[s.len() - 1].price, price));
        assert(head.push(s.last()) =~= s);
    }
}

/// What is left after the removal is a sub-sequence in the old order, none
/// of it near `price`.
pub proof fn lemma_without_near(s: Seq<SimpleOrder>, price: u64)
    ensures
        without_near(s, price).len() <= s.len(),
        forall|k: int|
            0 <= k < without_near(s, price).len() ==> !near(
                (#[trigger] without_near(s, price)[k]).price,
                price,
            ),
        first_near(without_near(s, price), price) == without_near(s, price).len(),
    decreases s.len(),
{
    let r = without_near(s, price);
    if s.len() > 0 {
        lemma_without_near(s.drop_last(), price);
    }
    assert forall|k: int| 0 <= k < r.len() implies !near((#[trigger] r[k]).price, price) by {
        if s.len() > 0 && k < without_near(s.drop_last(), price).len() {
            assert(r[k] == without_near(s.drop_last(), price)[k]);
        }
    }
    lemma_first_near_is(r, price, r.len() as int);
}

/// Whether two prices differ by less than the matching tolerance.
pub fn prices_near(a: u64, b: u64) -> (r: bool)
    ensures
        r == near(a, b),
{
    if a >= b {
        a - b < PRICE_TOLERANCE
    } else {
        b - a < PRICE_TOLERANCE
    }
}

/// Applies one change to one side, in place; the side is not sorted again.
pub fn apply_change_to_side(levels: &mut Vec<SimpleOrder>, price: u64, size: u64, now: i64)
    ensures
        final(levels)@ == change_side(old(levels)@, price, size, now),
{
    let n = levels.len();
    let mut i: usize = 0;
    while i < n && !prices_near(levels[i].price, price)
        invariant
            i <= n,
            n == levels@.len(),
            levels@ == old(levels)@,
            forall|j: int| 0 <= j < i ==> !near((#[trigger] levels@[j]).price, price),
        decreases n - i,
    {
        i = i + 1;
    }
    proof {
        lemma_first_near_is(levels@, price, i as int);
    }
    if i < n {
        if size == 0 {
            let mut kept: Vec<SimpleOrder> = Vec::new();
            let mut k: usize = 0;
            assert(levels@.take(0) =~= Seq::<SimpleOrder>::empty());
            while k < n
                invariant
                    k <= n,
                    n == levels@.len(),
                    levels@ == old(levels)@,
                    kept@ == without_near(levels@.take(k as int), price),
                decreases n - k,
            {
                proof {
                    assert(levels@.take(k + 1).drop_last() =~= levels@.take(k as int));
                    assert(levels@.take(k + 1).last() == levels@[k as int]);
                }
                if !prices_near(levels[k].price, price) {
                    kept.push(levels[k]);
                }
                k = k + 1;
            }
            assert(levels@.take(n as int) =~= levels@);
            *levels = kept;
        } else {
            let mut level = levels[i];
            level.update_size_at(size, now);
            levels.set(i, level);
        }
    } else if size > 0 {
        levels.push(SimpleOrder::new_at(price, size, now));
    }
}

/// A copy of a side.
pub fn copy_levels(levels: &Vec<SimpleOrder>) -> (r: Vec<SimpleOrder>)
    ensures
        r@ == levels@,
{
    let mut r: Vec<SimpleOrder> = Vec::new();
    let mut i: usize = 0;
    while i < levels.len()
        invariant
            i <= levels.len(),
            r@ == levels@.take(i as int),
        decreases levels.len() - i,
    {
        r.push(levels[i]);
        assert(levels@.take(i + 1) =~= levels@.take(i as int).push(levels@[i as int]));
        i = i + 1;
    }
    assert(levels@.take(levels.len() as int) =~= levels@);
    r
}

} // verus!
