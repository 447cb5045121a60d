//! Order-book levels, the book of one instrument, and bounded price
//! histories. Prices and sizes are micro-units (see [`crate::decimal`]);
//! times are milliseconds since the Unix epoch.

use crate::clock::{elapsed_ms, elapsed_spec, now_millis};
use crate::config::{HIGHLIGHT_DURATION_MS, MAX_PRICE_HISTORY_POINTS};
use vstd::prelude::*;

verus! {

/// How the size of a level last moved.
#[derive(Debug, Clone, Copy, PartialEq, Eq, Structural)]
pub enum OrderChangeDirection {
    NoChange,
    Increase,
    Decrease,
}

/// One price level of one side of a book.
#[derive(Debug, Clone, Copy, PartialEq, Eq)]
pub struct SimpleOrder {
    pub price: u64,
    pub size: u64,
    pub previous_size: u64,
    pub change_direction: OrderChangeDirection,
    pub change_timestamp: Option<i64>,
}

impl SimpleOrder {
    /// A level first seen at `now`: it counts as an increase.
    pub open spec fn spec_new(price: u64, size: u64, now: i64) -> SimpleOrder {
        SimpleOrder {
            price,
            size,
            previous_size: size,
            change_direction: OrderChangeDirection::Increase,
            change_timestamp: Some(now),
        }
    }

    /// The level after its size is set to `new_size` at `now`. The direction
    /// moves only where the size does; the time of change is `now` either
    /// way.
    pub open spec fn spec_update_size(self, new_size: u64, now: i64) -> SimpleOrder {
        SimpleOrder {
            price: self.price,
            size: new_size,
            previous_size: self.size,
            change_direction: if new_size > self.size {
                OrderChangeDirection::Increase
            } else if new_size < self.size {
                OrderChangeDirection::Decrease
            } else {
                self.change_direction
            },
            change_timestamp: Some(now),
        }
    }

    /// Whether the level's last change is younger than the highlight
    /// duration at `now`.
    pub open spec fn spec_should_highlight(self, now: i64) -> bool {
        match self.change_timestamp {
            Some(t) => elapsed_spec(now, t) < HIGHLIGHT_DURATION_MS,
            None => false,
        }
    }

    /// The level with an expired highlight wiped.
    pub open spec fn spec_clear_highlight(self, now: i64) -> SimpleOrder {
        match self.change_timestamp {
            Some(t) if elapsed_spec(now, t) >= HIGHLIGHT_DURATION_MS => SimpleOrder {
                change_direction: OrderChangeDirection::NoChange,
                change_timestamp: None,
                ..self
            },
            _ => self,
        }
    }

    /// A level first seen at `now`.
    pub fn new_at(price: u64, size: u64, now: i64) -> (r: Self)
        ensures
            r == Self::spec_new(price, size, now),
    {
        SimpleOrder {
            price,
            size,
            previous_size: size,
            change_direction: OrderChangeDirection::Increase,
            change_timestamp: Some(now),
        }
    }

    /// A level first seen at the current time.
    pub fn new(price: u64, size: u64) -> (r: Self)
        ensures
            exists|now: i64| r == Self::spec_new(price, size, now),
    {
        let now = now_millis();
        let r = Self::new_at(price, size, now);
        assert(r == Self::spec_new(price, size, now));
        r
    }

    /// Sets the size at `now`.
    pub fn update_size_at(&mut self, new_size: u64, now: i64)
        ensures
            *final(self) == old(self).spec_update_size(new_size, now),
    {
        self.previous_size = self.size;
        if new_size > self.size {
            self.change_direction = OrderChangeDirection::Increase;
        } else if new_size < self.size {
            self.change_direction = OrderChangeDirection::Decrease;
        }
        self.change_timestamp = Some(now);
        self.size = new_size;
    }

    /// Sets the size at the current time.
    pub fn update_size(&mut self, new_size: u64)
        ensures
            exists|now: i64| *final(self) == old(self).spec_update_size(new_size, now),
    {
        let now = now_millis();
        self.update_size_at(new_size, now);
        assert(*self == old(self).spec_update_size(new_size, now));
    }

    /// Whether the level is still highlighted at `now`.
    pub fn should_highlight_at(&self, now: i64) -> (r: bool)
        ensures
            r == self.spec_should_highlight(now),
    {
        match self.change_timestamp {
            Some(t) => elapsed_ms(now, t) < HIGHLIGHT_DURATION_MS,
            None => false,
        }
    }

    /// Whether the level is still highlighted at the current time.
    pub fn should_highlight(&self) -> (r: bool)
        ensures
            exists|now: i64| r == self.spec_should_highlight(now),
    {
        let now = now_millis();
        let r = self.should_highlight_at(now);
        assert(r == self.spec_should_highlight(now));
        r
    }

    /// Wipes direction and time of change once the highlight has expired at
    /// `now`.
    pub fn clear_highlight_if_expired_at(&mut self, now: i64)
        ensures
            *final(self) == old(self).spec_clear_highlight(now),
    {
        if let Some(t) = self.change_timestamp {
            if elapsed_ms(now, t) >= HIGHLIGHT_DURATION_MS {
                self.change_direction = OrderChangeDirection::NoChange;
                self.change_timestamp = None;
            }
        }
    }

    /// Wipes an expired highlight, by the current time.
    pub fn clear_highlight_if_expired(&mut self)
        ensures
            exists|now: i64| *final(self) == old(self).spec_clear_highlight(now),
    {
        let now = now_millis();
        self.clear_highlight_if_expired_at(now);
        assert(*self == old(self).spec_clear_highlight(now));
    }
}

/// A level that was created, or whose size was changed, at `t0` is
/// highlighted at every time before `t0 + 1000 ms` and at none from then on;
/// from then on clearing resets its direction to `NoChange`.
pub proof fn lemma_highlight_expiry(level: SimpleOrder, t0: i64, now: i64)
    requires
        level.change_timestamp == Some(t0),
    ensures
        now < t0 + HIGHLIGHT_DURATION_MS ==> level.spec_should_highlight(now),
        now < t0 + HIGHLIGHT_DURATION_MS ==> level.spec_clear_highlight(now) == level,
        now >= t0 + HIGHLIGHT_DURATION_MS ==> !level.spec_should_highlight(now),
        now >= t0 + HIGHLIGHT_DURATION_MS ==> level.spec_clear_highlight(now).change_direction
            == OrderChangeDirection::NoChange,
        now >= t0 + HIGHLIGHT_DURATION_MS ==> !level.spec_clear_highlight(
            now,
        ).spec_should_highlight(now),
{
}

/// Creating a level, and changing a level's size, both stamp it with the
/// time of the change.
pub proof fn lemma_change_stamps(level: SimpleOrder, price: u64, size: u64, t0: i64)
    ensures
        SimpleOrder::spec_new(price, size, t0).change_timestamp == Some(t0),
        level.spec_update_size(size, t0).change_timestamp == Some(t0),
{
}

/// One observation of a price.
#[derive(Debug, Clone, Copy, PartialEq, Eq)]
pub struct PricePoint {
    pub timestamp: i64,
    pub price: u64,
}

/// A bounded series of price observations, oldest first.
#[derive(Debug, Clone, PartialEq, Eq)]
pub struct PriceHistory {
    pub points: Vec<PricePoint>,
    pub max_points: usize,
}

/// The points after `price` is observed at `now`: nothing changes where the
/// last point has that very price; otherwise the point is appended and, where
/// the series then exceeds `max_points`, the oldest point leaves.
pub open spec fn add_price_spec(
    points: Seq<PricePoint>,
    max_points: usize,
    price: u64,
    now: i64,
) -> Seq<PricePoint> {
    if points.len() > 0 && points.last().price == price {
        points
    } else {
        let pushed = points.push(PricePoint { timestamp: now, price });
        if pushed.len() > max_points {
            pushed.skip(1)
        } else {
            pushed
        }
    }
}

/// The least price among the points; meaningful for a non-empty series.
pub open spec fn min_price(points: Seq<PricePoint>) -> u64
    decreases points.len(),
{
    if points.len() <= 1 {
        if points.len() == 1 {
            points[0].price
        } else {
            0
        }
    } else {
        let rest = min_price(points.drop_last());
        if points.last().price < rest {
            points.last().price
        } else {
            rest
        }
    }
}

/// The greatest price among the points; meaningful for a non-empty series.
pub open spec fn max_price(points: Seq<PricePoint>) -> u64
    decreases points.len(),
{
    if points.len() <= 1 {
        if points.len() == 1 {
            points[0].price
        } else {
            0
        }
    } else {
        let rest = max_price(points.drop_last());
        if points.last().price > rest {
            points.last().price
        } else {
            rest
        }
    }
}

/// `min_price` and `max_price` bound every point and are each attained.
pub proof fn lemma_price_bounds(points: Seq<PricePoint>)
    requires
        points.len() > 0,
    ensures
        forall|i: int| 0 <= i < points.len() ==> min_price(points) <= (#[trigger] points[i]).price,
        forall|i: int| 0 <= i < points.len() ==> (#[trigger] points[i]).price <= max_price(points),
        exists|i: int| 0 <= i < points.len() && (#[trigger] points[i]).price == min_price(points),
        exists|i: int| 0 <= i < points.len() && (#[trigger] points[i]).price == max_price(points),
    decreases points.len(),
{
    if points.len() == 1 {
        assert(points[0].price == min_price(points));
        assert(points[0].price == max_price(points));
    } else {
        let rest = points.drop_last();
        lemma_price_bounds(rest);
        assert forall|i: int| 0 <= i < points.len() implies min_price(points) <= (
        #[trigger] points[i]).price && points[i].price <= max_price(points) by {
            if i < rest.len() {
                assert(rest[i] == points[i]);
            }
        }
        let lo = choose|i: int| 0 <= i < rest.len() && (#[trigger] rest[i]).price == min_price(rest);
        let hi = choose|i: int| 0 <= i < rest.len() && (#[trigger] rest[i]).price == max_price(rest);
        let n = points.len() - 1;
        if points.last().price < min_price(rest) {
            assert(points[n].price == min_price(points));
        } else {
            assert(points[lo] == rest[lo]);
            assert(points[lo].price == min_price(points));
        }
        if points.last().price > max_price(rest) {
            assert(points[n].price == max_price(points));
        } else {
            assert(points[hi] == rest[hi]);
            assert(points[hi].price == max_price(points));
        }
    }
}

/// The frame for charting a series whose prices span `lo..=hi`: each bound
/// moved outward by 5% of the span, rounded down.
pub open spec fn padded_range(lo: u64, hi: u64) -> (i128, i128) {
    let padding = (hi - lo) * 5 / 100;
    ((lo - padding) as i128, (hi + padding) as i128)
}

impl PriceHistory {
    /// Whether the series respects its bound.
    pub open spec fn wf(&self) -> bool {
        self.points@.len() <= self.max_points
    }

    /// An empty series that keeps at most `max_points` points.
    pub fn new(max_points: usize) -> (r: Self)
        ensures
            r.points@ == Seq::<PricePoint>::empty(),
            r.max_points == max_points,
            r.wf(),
    {
        PriceHistory { points: Vec::new(), max_points }
    }

    /// Records `price` as observed at `now`.
    pub fn add_price_at(&mut self, price: u64, now: i64)
        ensures
            final(self).max_points == old(self).max_points,
            final(self).points@ == add_price_spec(
                old(self).points@,
                old(self).max_points,
                price,
                now,
            ),
            old(self).wf() ==> final(self).wf(),
    {
        let n = self.points.len();
        if n > 0 && self.points[n - 1].price == price {
            return ;
        }
        self.points.push(PricePoint { timestamp: now, price });
        if self.points.len() > self.max_points {
            let _ = self.points.remove(0);
            assert(self.points@ =~= old(self).points@.push(PricePoint { timestamp: now, price }).skip(
                1,
            ));
        }
    }

    /// Records `price` as observed now.
    pub fn add_price(&mut self, price: u64)
        ensures
            final(self).max_points == old(self).max_points,
            exists|now: i64|
                final(self).points@ == add_price_spec(
                    old(self).points@,
                    old(self).max_points,
                    price,
                    now,
                ),
            old(self).wf() ==> final(self).wf(),
    {
        let now = now_millis();
        self.add_price_at(price, now);
        assert(self.points@ == add_price_spec(old(self).points@, old(self).max_points, price, now));
    }

    /// The padded span of the recorded prices, `None` for an empty series.
    pub fn get_price_range(&self) -> (r: Option<(i128, i128)>)
        ensures
            self.points@.len() == 0 ==> r is None,
            self.points@.len() > 0 ==> r == Some(
                padded_range(min_price(self.points@), max_price(self.points@)),
            ),
    {
        let n = self.points.len();
        if n == 0 {
            return None;
        }
        let mut lo: u64 = self.points[0].price;
        let mut hi: u64 = self.points[0].price;
        let mut i: usize = 1;
        assert(self.points@.take(1) =~= seq![self.points@[0]]);
        while i < n
            invariant
                1 <= i <= n,
                n == self.points@.len(),
                lo == min_price(self.points@.take(i as int)),
                hi == max_price(self.points@.take(i as int)),
                lo <= hi,
            decreases n - i,
        {
            let p = self.points[i].price;
            proof {
                let next = self.points@.take(i + 1);
                assert(next.drop_last() =~= self.points@.take(i as int));
                assert(next.last() == self.points@[i as int]);
            }
            if p < lo {
                lo = p;
            }
            if p > hi {
                hi = p;
            }
            i = i + 1;
        }
        assert(self.points@.take(n as int) =~= self.points@);
        let padding: u128 = (hi - lo) as u128 * 5 / 100;
        Some(((lo as i128) - (padding as i128), (hi as i128) + (padding as i128)))
    }

    /// The times of the oldest and the newest point, `None` for an empty
    /// series.
    pub fn get_time_range(&self) -> (r: Option<(i64, i64)>)
        ensures
            self.points@.len() == 0 ==> r is None,
            self.points@.len() > 0 ==> r == Some(
                (self.points@.first().timestamp, self.points@.last().timestamp),
            ),
    {
        let n = self.points.len();
        if n == 0 {
            None
        } else {
            Some((self.points[0].timestamp, self.points[n - 1].timestamp))
        }
    }

    /// The newest recorded price, `None` for an empty series.
    pub fn current_price(&self) -> (r: Option<u64>)
        ensures
            self.points@.len() == 0 ==> r is None,
            self.points@.len() > 0 ==> r == Some(self.points@.last().price),
    {
        let n = self.points.len();
        if n == 0 {
            None
        } else {
            Some(self.points[n - 1].price)
        }
    }

    /// A copy of the series.
    pub fn duplicate(&self) -> (r: Self)
        ensures
            r.points@ == self.points@,
            r.max_points == self.max_points,
    {
        let mut points: Vec<PricePoint> = Vec::new();
        let mut i: usize = 0;
        while i < self.points.len()
            invariant
                i <= self.points.len(),
                points@ == self.points@.take(i as int),
            decreases self.points.len() - i,
        {
            points.push(self.points[i]);
            assert(self.points@.take(i + 1) =~= self.points@.take(i as int).push(
                self.points@[i as int],
            ));
            i = i + 1;
        }
        assert(self.points@.take(self.points.len() as int) =~= self.points@);
        PriceHistory { points, max_points: self.max_points }
    }
}

/// Observing the same price twice in a row changes nothing the second time.
pub proof fn lemma_add_price_twice(
    points: Seq<PricePoint>,
    max_points: usize,
    price: u64,
    first: i64,
    second: i64,
)
    ensures
        add_price_spec(add_price_spec(points, max_points, price, first), max_points, price, second)
            == add_price_spec(points, max_points, price, first),
{
    let once = add_price_spec(points, max_points, price, first);
    if points.len() > 0 && points.last().price == price {
    } else {
        let pushed = points.push(PricePoint { timestamp: first, price });
        if pushed.len() > max_points {
            if pushed.len() == 1 {
                // An empty series that may hold no point stays empty.
                assert(once =~= Seq::<PricePoint>::empty());
                let again = once.push(PricePoint { timestamp: second, price });
                assert(again.skip(1) =~= once);
            } else {
                assert(once.last() == pushed.last());
            }
        }
    }
}

/// No two neighbours of a series share a price, and adding a price keeps it
/// so.
pub open spec fn no_repeats(points: Seq<PricePoint>) -> bool {
    forall|i: int| 0 <= i < points.len() - 1 ==> (#[trigger] points[i]).price != points[i + 1].price
}

pub proof fn lemma_add_price_no_repeats(
    points: Seq<PricePoint>,
    max_points: usize,
    price: u64,
    now: i64,
)
    requires
        no_repeats(points),
    ensures
        no_repeats(add_price_spec(points, max_points, price, now)),
{
    let after = add_price_spec(points, max_points, price, now);
    if points.len() > 0 && points.last().price == price {
    } else {
        let pushed = points.push(PricePoint { timestamp: now, price });
        assert forall|i: int| 0 <= i < pushed.len() - 1 implies (#[trigger] pushed[i]).price
            != pushed[i + 1].price by {
            if i < points.len() - 1 {
                assert(points[i].price != points[i + 1].price);
            }
        }
        if pushed.len() > max_points {
            assert forall|i: int| 0 <= i < after.len() - 1 implies (#[trigger] after[i]).price
                != after[i + 1].price by {
                assert(pushed[i + 1].price != pushed[i + 2].price);
            }
        }
    }
}

/// The book of one instrument: bids from the highest price down, asks from
/// the lowest price up, with the instrument's tick size and price history.
#[derive(Debug, Clone, PartialEq, Eq)]
pub struct OrderBookData {
    pub token_id: String,
    pub market_question: String,
    pub bids: Vec<SimpleOrder>,
    pub asks: Vec<SimpleOrder>,
    pub tick_size: u64,
    pub last_updated: i64,
    pub chart_center_price: Option<u64>,
    pub chart_needs_recentering: bool,
    pub price_history: PriceHistory,
}

/// The mathematical content of an [`OrderBookData`].
pub struct BookModel {
    pub token_id: Seq<char>,
    pub market_question: Seq<char>,
    pub bids: Seq<SimpleOrder>,
    pub asks: Seq<SimpleOrder>,
    pub tick_size: u64,
    pub last_updated: i64,
    pub chart_center_price: Option<u64>,
    pub chart_needs_recentering: bool,
    pub points: Seq<PricePoint>,
    pub max_points: usize,
}

impl View for OrderBookData {
    type V = BookModel;

    open spec fn view(&self) -> BookModel {
        BookModel {
            token_id: self.token_id@,
            market_question: self.market_question@,
            bids: self.bids@,
            asks: self.asks@,
            tick_size: self.tick_size,
            last_updated: self.last_updated,
            chart_center_price: self.chart_center_price,
            chart_needs_recentering: self.chart_needs_recentering,
            points: self.price_history.points@,
            max_points: self.price_history.max_points,
        }
    }
}

/// The distance from the best bid up to the best ask; negative for a crossed
/// book, 0 where a side is empty.
pub open spec fn spread_spec(bids: Seq<SimpleOrder>, asks: Seq<SimpleOrder>) -> int {
    if bids.len() > 0 && asks.len() > 0 {
        asks[0].price - bids[0].price
    } else {
        0
    }
}

/// The mean of best bid and best ask, rounded down; 0 where a side is empty.
pub open spec fn midpoint_spec(bids: Seq<SimpleOrder>, asks: Seq<SimpleOrder>) -> int {
    if bids.len() > 0 && asks.len() > 0 {
        (bids[0].price + asks[0].price) / 2
    } else {
        0
    }
}

impl OrderBookData {
    /// An empty book for `token_id`, made at `now`, whose history keeps at
    /// most `max_points` points.
    pub fn new(
        token_id: String,
        market_question: String,
        tick_size: u64,
        max_points: usize,
        now: i64,
    ) -> (r: Self)
        ensures
            r@ == (BookModel {
                token_id: token_id@,
                market_question: market_question@,
                bids: Seq::empty(),
                asks: Seq::empty(),
                tick_size,
                last_updated: now,
                chart_center_price: None,
                chart_needs_recentering: true,
                points: Seq::empty(),
                max_points,
            }),
    {
        OrderBookData {
            token_id,
            market_question,
            bids: Vec::new(),
            asks: Vec::new(),
            tick_size,
            last_updated: now,
            chart_center_price: None,
            chart_needs_recentering: true,
            price_history: PriceHistory::new(max_points),
        }
    }

    /// Best ask minus best bid; 0 where a side is empty.
    pub fn get_spread(&self) -> (r: i128)
        ensures
            r == spread_spec(self.bids@, self.asks@),
    {
        if self.bids.len() > 0 && self.asks.len() > 0 {
            self.asks[0].price as i128 - self.bids[0].price as i128
        } else {
            0
        }
    }

    /// The mean of best bid and best ask; 0 where a side is empty.
    pub fn get_midpoint(&self) -> (r: u64)
        ensures
            r == midpoint_spec(self.bids@, self.asks@),
    {
        if self.bids.len() > 0 && self.asks.len() > 0 {
            ((self.bids[0].price as u128 + self.asks[0].price as u128) / 2) as u64
        } else {
            0
        }
    }

    /// A copy of the book.
    pub fn duplicate(&self) -> (r: Self)
        ensures
            r@ == self@,
    {
        let mut bids: Vec<SimpleOrder> = Vec::new();
        let mut i: usize = 0;
        while i < self.bids.len()
            invariant
                i <= self.bids.len(),
                bids@ == self.bids@.take(i as int),
            decreases self.bids.len() - i,
        {
            bids.push(self.bids[i]);
            assert(self.bids@.take(i + 1) =~= self.bids@.take(i as int).push(self.bids@[i as int]));
            i = i + 1;
        }
        assert(self.bids@.take(self.bids.len() as int) =~= self.bids@);
        let mut asks: Vec<SimpleOrder> = Vec::new();
        let mut j: usize = 0;
        while j < self.asks.len()
            invariant
                j <= self.asks.len(),
                asks@ == self.asks@.take(j as int),
            decreases self.asks.len() - j,
        {
            asks.push(self.asks[j]);
            assert(self.asks@.take(j + 1) =~= self.asks@.take(j as int).push(self.asks@[j as int]));
            j = j + 1;
        }
        assert(self.asks@.take(self.asks.len() as int) =~= self.asks@);
        OrderBookData {
            token_id: self.token_id.clone(),
            market_question: self.market_question.clone(),
            bids,
            asks,
            tick_size: self.tick_size,
            last_updated: self.last_updated,
            chart_center_price: self.chart_center_price,
            chart_needs_recentering: self.chart_needs_recentering,
            price_history: self.price_history.duplicate(),
        }
    }
}

/// A market of the catalog: its question, its tradable outcomes, and
/// whether it is still traded.
#[derive(Debug, Clone, PartialEq, Eq)]
pub struct MarketInfo {
    pub question: String,
    pub tokens: Vec<TokenInfo>,
    pub active: bool,
    pub closed: bool,
    pub resolved: bool,
}

/// One tradable outcome of a market.
#[derive(Debug, Clone, PartialEq, Eq)]
pub struct TokenInfo {
    pub token_id: String,
    pub outcome: String,
}

/// The mathematical content of a [`TokenInfo`].
pub struct TokenModel {
    pub token_id: Seq<char>,
    pub outcome: Seq<char>,
}

/// The mathematical content of a [`MarketInfo`].
pub struct MarketModel {
    pub question: Seq<char>,
    pub tokens: Seq<TokenModel>,
    pub active: bool,
    pub closed: bool,
    pub resolved: bool,
}

/// The mathematical content of an [`EventInfo`].
pub struct EventModel {
    pub id: Seq<char>,
    pub title: Seq<char>,
    pub description: Seq<char>,
    pub markets: Seq<MarketModel>,
}

impl View for TokenInfo {
    type V = TokenModel;

    open spec fn view(&self) -> TokenModel {
        TokenModel { token_id: self.token_id@, outcome: self.outcome@ }
    }
}

/// The contents of a list of tokens.
pub open spec fn tokens_view(v: Seq<TokenInfo>) -> Seq<TokenModel> {
    Seq::new(v.len(), |i: int| v[i]@)
}

impl View for MarketInfo {
    type V = MarketModel;

    open spec fn view(&self) -> MarketModel {
        MarketModel {
            question: self.question@,
            tokens: tokens_view(self.tokens@),
            active: self.active,
            closed: self.closed,
            resolved: self.resolved,
        }
    }
}

/// The contents of a list of markets.
pub open spec fn markets_view(v: Seq<MarketInfo>) -> Seq<MarketModel> {
    Seq::new(v.len(), |i: int| v[i]@)
}

impl View for EventInfo {
    type V = EventModel;

    open spec fn view(&self) -> EventModel {
        EventModel {
            id: self.id@,
            title: self.title@,
            description: self.description@,
            markets: markets_view(self.markets@),
        }
    }
}

/// The contents of a list of events.
pub open spec fn events_view(v: Seq<EventInfo>) -> Seq<EventModel> {
    Seq::new(v.len(), |i: int| v[i]@)
}

impl TokenInfo {
    /// A copy of the token.
    pub fn duplicate(&self) -> (r: Self)
        ensures
            r@ == self@,
    {
        TokenInfo { token_id: self.token_id.clone(), outcome: self.outcome.clone() }
    }
}

impl MarketInfo {
    /// A copy of the market.
    pub fn duplicate(&self) -> (r: Self)
        ensures
            r@ == self@,
    {
        let mut tokens: Vec<TokenInfo> = Vec::new();
        let mut i: usize = 0;
        while i < self.tokens.len()
            invariant
                i <= self.tokens.len(),
                tokens@.len() == i,
                forall|j: int| 0 <= j < i ==> (#[trigger] tokens@[j])@ == self.tokens@[j]@,
            decreases self.tokens.len() - i,
        {
            tokens.push(self.tokens[i].duplicate());
            i = i + 1;
        }
        assert(tokens_view(tokens@) =~= tokens_view(self.tokens@));
        MarketInfo {
            question: self.question.clone(),
            tokens,
            active: self.active,
            closed: self.closed,
            resolved: self.resolved,
        }
    }
}

/// An event of the catalog: a group of markets whose outcomes exclude one
/// another.
#[derive(Debug, Clone, PartialEq, Eq)]
pub struct EventInfo {
    pub id: String,
    pub title: String,
    pub description: String,
    pub markets: Vec<MarketInfo>,
}

/// The latest reference price of a cryptocurrency, with its history.
#[derive(Debug, Clone, PartialEq, Eq)]
pub struct CryptoPrice {
    pub symbol: String,
    pub price: u64,
    pub timestamp: i64,
    pub history: PriceHistory,
}

impl CryptoPrice {
    /// A tracker for `symbol`, created at `now` with no price yet.
    pub fn new_at(symbol: String, now: i64) -> (r: Self)
        ensures
            r.symbol == symbol,
            r.price == 0,
            r.timestamp == now,
            r.history.points@ == Seq::<PricePoint>::empty(),
            r.history.max_points == MAX_PRICE_HISTORY_POINTS,
    {
        CryptoPrice {
            symbol,
            price: 0,
            timestamp: now,
            history: PriceHistory::new(MAX_PRICE_HISTORY_POINTS),
        }
    }

    /// A tracker for `symbol`, created now.
    pub fn new(symbol: String) -> (r: Self)
        ensures
            r.symbol == symbol,
            r.price == 0,
            r.history.points@ == Seq::<PricePoint>::empty(),
            r.history.max_points == MAX_PRICE_HISTORY_POINTS,
    {
        Self::new_at(symbol, now_millis())
    }

    /// Takes `new_price` as the price at `now` and records it.
    pub fn update_price_at(&mut self, new_price: u64, now: i64)
        ensures
            final(self).symbol == old(self).symbol,
            final(self).price == new_price,
            final(self).timestamp == now,
            final(self).history.max_points == old(self).history.max_points,
            final(self).history.points@ == add_price_spec(
                old(self).history.points@,
                old(self).history.max_points,
                new_price,
                now,
            ),
    {
        self.price = new_price;
        self.timestamp = now;
        self.history.add_price_at(new_price, now);
    }

    /// Takes `new_price` as the current price and records it.
    pub fn update_price(&mut self, new_price: u64)
        ensures
            final(self).symbol == old(self).symbol,
            final(self).price == new_price,
            final(self).history.max_points == old(self).history.max_points,
            final(self).history.points@ == add_price_spec(
                old(self).history.points@,
                old(self).history.max_points,
                new_price,
                final(self).timestamp,
            ),
    {
        let now = now_millis();
        self.update_price_at(new_price, now);
    }
}

} // verus!
