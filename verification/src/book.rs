//! The order-book state machine: snapshots replace a book, incremental
//! changes edit it, and after either both sides are sorted again and cut to
//! the display depth.

use crate::bot::orderbooks::Order;
use crate::config::BOOK_PRICE_HISTORY_POINTS;
use crate::data::{
    add_price_spec,
    BookModel,
    MarketInfo,
    OrderBookData,
    PriceHistory,
    SimpleOrder,
    TokenInfo,
};
use crate::decimal::{parse_decimal, parse_decimal_spec};
use crate::depth::{chart_center, window_spec};
use crate::levels::{
    apply_change_to_side,
    change_side,
    copy_levels,
    ordered,
    sort_and_limit,
    sort_and_truncate,
};
use crate::stats::{calculate_weighted_midpoint, weighted_midpoint_spec};
use crate::text::{ascii_lower_seq, lower_chars, str_eq, vec_eq};
use crate::websocket::clob::{
    changes_view,
    messages_view,
    summaries_view,
    MessageModel,
    OrderSummary,
    OrderSummaryModel,
    PolymarketWebSocketMessage,
    PriceChange,
    PriceChangeModel,
};
use vstd::prelude::*;

verus! {

/// A side of the book.
#[derive(Debug, Clone, Copy, PartialEq, Eq, Structural)]
pub enum Side {
    Bid,
    Ask,
}

/// The side that a change names, whatever the case of its letters: `bid`,
/// `bids` and `buy` are the bid side, `ask`, `asks` and `sell` the ask side,
/// anything else neither. The text is folded by
/// [`ascii_lower`](crate::text::ascii_lower), which for these words decides
/// as the full lower-case form of the text does.
pub open spec fn side_of(text: Seq<char>) -> Option<Side> {
    let t = ascii_lower_seq(text);
    if t == "bid"@ || t == "bids"@ || t == "buy"@ {
        Some(Side::Bid)
    } else if t == "ask"@ || t == "asks"@ || t == "sell"@ {
        Some(Side::Ask)
    } else {
        None
    }
}

/// Whether `t` is the text of `word`, for a word in lower case.
fn is_word(t: &Vec<char>, word: &str) -> (r: bool)
    ensures
        r == (t@ == ascii_lower_seq(word@)),
{
    let w = lower_chars(word);
    vec_eq(t, &w)
}

/// Reads the side that a change names.
pub fn resolve_side(text: &str) -> (r: Option<Side>)
    ensures
        r == side_of(text@),
{
    let t = lower_chars(text);
    proof {
        reveal_strlit("bid");
        reveal_strlit("bids");
        reveal_strlit("buy");
        reveal_strlit("ask");
        reveal_strlit("asks");
        reveal_strlit("sell");
        assert(ascii_lower_seq("bid"@) =~= "bid"@);
        assert(ascii_lower_seq("bids"@) =~= "bids"@);
        assert(ascii_lower_seq("buy"@) =~= "buy"@);
        assert(ascii_lower_seq("ask"@) =~= "ask"@);
        assert(ascii_lower_seq("asks"@) =~= "asks"@);
        assert(ascii_lower_seq("sell"@) =~= "sell"@);
    }
    if is_word(&t, "bid") || is_word(&t, "bids") || is_word(&t, "buy") {
        Some(Side::Bid)
    } else if is_word(&t, "ask") || is_word(&t, "asks") || is_word(&t, "sell") {
        Some(Side::Ask)
    } else {
        None
    }
}

/// The level that one entry of a snapshot denotes at `now`; `None` where its
/// price or its size is no decimal.
pub open spec fn parsed_level(entry: OrderSummaryModel, now: i64) -> Option<SimpleOrder> {
    match (parse_decimal_spec(entry.price), parse_decimal_spec(entry.size)) {
        (Some(price), Some(size)) => Some(SimpleOrder::spec_new(price, size, now)),
        _ => None,
    }
}

/// The levels that the entries of a snapshot denote, in their order;
/// entries that do not parse are left out.
pub open spec fn parsed_levels(entries: Seq<OrderSummaryModel>, now: i64) -> Seq<SimpleOrder>
    decreases entries.len(),
{
    if entries.len() == 0 {
        Seq::empty()
    } else {
        let head = parsed_levels(entries.drop_last(), now);
        match parsed_level(entries.last(), now) {
            Some(level) => head.push(level),
            None => head,
        }
    }
}

/// The two sides of a book.
pub struct Sides {
    pub bids: Seq<SimpleOrder>,
    pub asks: Seq<SimpleOrder>,
}

/// The sides after one change at `now`. A change whose price or size is no
/// decimal, or whose side is not known, does nothing.
pub open spec fn apply_change(sides: Sides, change: PriceChangeModel, now: i64) -> Sides {
    match (parse_decimal_spec(change.price), parse_decimal_spec(change.size)) {
        (Some(price), Some(size)) => match side_of(change.side) {
            Some(Side::Bid) => Sides { bids: change_side(sides.bids, price, size, now), ..sides },
            Some(Side::Ask) => Sides { asks: change_side(sides.asks, price, size, now), ..sides },
            None => sides,
        },
        _ => sides,
    }
}

/// The sides after a batch of changes, applied in order.
pub open spec fn apply_changes(sides: Sides, changes: Seq<PriceChangeModel>, now: i64) -> Sides
    decreases changes.len(),
{
    if changes.len() == 0 {
        sides
    } else {
        apply_change(apply_changes(sides, changes.drop_last(), now), changes.last(), now)
    }
}

/// The book with new sides taken at `now`: the time of update moves, the
/// chart is due for recentering, and the weighted midpoint of the new top of
/// the book is recorded in the price history.
pub open spec fn with_sides(
    book: BookModel,
    bids: Seq<SimpleOrder>,
    asks: Seq<SimpleOrder>,
    now: i64,
) -> BookModel {
    BookModel {
        bids,
        asks,
        last_updated: now,
        chart_needs_recentering: true,
        points: add_price_spec(
            book.points,
            book.max_points,
            weighted_midpoint_spec(bids, asks) as u64,
            now,
        ),
        ..book
    }
}

/// The book after a snapshot: both sides replaced by the parsed entries,
/// sorted and cut to `depth`.
pub open spec fn snapshot_spec(
    book: BookModel,
    bids: Seq<OrderSummaryModel>,
    asks: Seq<OrderSummaryModel>,
    depth: usize,
    now: i64,
) -> BookModel {
    with_sides(
        book,
        sort_and_limit(parsed_levels(bids, now), true, depth),
        sort_and_limit(parsed_levels(asks, now), false, depth),
        now,
    )
}

/// The book after a batch of changes: the changes applied in order, then
/// both sides sorted and cut to `depth` once.
pub open spec fn delta_spec(
    book: BookModel,
    changes: Seq<PriceChangeModel>,
    depth: usize,
    now: i64,
) -> BookModel {
    let sides = apply_changes(Sides { bids: book.bids, asks: book.asks }, changes, now);
    with_sides(
        book,
        sort_and_limit(sides.bids, true, depth),
        sort_and_limit(sides.asks, false, depth),
        now,
    )
}

/// The book after a trade was reported: the levels stay, the time of update
/// moves and the weighted midpoint is recorded.
pub open spec fn trade_spec(book: BookModel, now: i64) -> BookModel {
    BookModel {
        last_updated: now,
        points: add_price_spec(
            book.points,
            book.max_points,
            weighted_midpoint_spec(book.bids, book.asks) as u64,
            now,
        ),
        ..book
    }
}

/// The book after a change of tick size: text that is a decimal above 0
/// replaces the tick size, any other text is ignored.
pub open spec fn tick_size_spec(book: BookModel, text: Seq<char>) -> BookModel {
    match parse_decimal_spec(text) {
        Some(tick) if tick > 0 => BookModel { tick_size: tick, ..book },
        _ => book,
    }
}

/// Every level of a side with its expired highlight wiped.
pub open spec fn cleared_levels(s: Seq<SimpleOrder>, now: i64) -> Seq<SimpleOrder> {
    Seq::new(s.len(), |i: int| s[i].spec_clear_highlight(now))
}

/// The book after a feed event at `now`. An event about another instrument,
/// and an unknown event, leave the book as it is.
pub open spec fn event_spec(book: BookModel, event: MessageModel, depth: usize, now: i64) -> BookModel {
    if event.asset_id() != Some(book.token_id) {
        book
    } else {
        match event {
            MessageModel::Book(m) => snapshot_spec(book, m.bids, m.asks, depth, now),
            MessageModel::PriceChange(m) => delta_spec(book, m.changes, depth, now),
            MessageModel::LastTradePrice(_) => trade_spec(book, now),
            MessageModel::TickSizeChange(m) => tick_size_spec(book, m.new_tick_size),
            MessageModel::Unknown(_) => book,
        }
    }
}

/// The state that every snapshot and every batch of changes leaves a book
/// in: bids sorted downward, asks sorted upward, neither longer than
/// `depth`.
pub open spec fn sides_wf(book: BookModel, depth: usize) -> bool {
    &&& ordered(book.bids, true)
    &&& ordered(book.asks, false)
    &&& book.bids.len() <= depth
    &&& book.asks.len() <= depth
}

/// Parses the entries of one side of a snapshot.
pub fn parse_levels(entries: &Vec<OrderSummary>, now: i64) -> (r: Vec<SimpleOrder>)
    ensures
        r@ == parsed_levels(summaries_view(entries@), now),
{
    let ghost all = summaries_view(entries@);
    let mut levels: Vec<SimpleOrder> = Vec::new();
    let mut i: usize = 0;
    assert(all.take(0) =~= Seq::<OrderSummaryModel>::empty());
    while i < entries.len()
        invariant
            i <= entries.len(),
            all == summaries_view(entries@),
            levels@ == parsed_levels(all.take(i as int), now),
        decreases entries.len() - i,
    {
        proof {
            assert(all.take(i + 1).drop_last() =~= all.take(i as int));
            assert(all.take(i + 1).last() == entries@[i as int]@);
        }
        let price = parse_decimal(entries[i].price.as_str());
        let size = parse_decimal(entries[i].size.as_str());
        if let (Some(p), Some(s)) = (price, size) {
            levels.push(SimpleOrder::new_at(p, s, now));
        }
        i = i + 1;
    }
    assert(all.take(entries.len() as int) =~= all);
    levels
}

impl OrderBookData {
    /// The liquidity-weighted midpoint of the top of the book.
    pub fn get_weighted_midpoint(&self) -> (r: u64)
        ensures
            r == weighted_midpoint_spec(self.bids@, self.asks@),
    {
        calculate_weighted_midpoint(self.bids.as_slice(), self.asks.as_slice())
    }

    /// Takes new sides at `now` and records the midpoint.
    fn install(&mut self, bids: Vec<SimpleOrder>, asks: Vec<SimpleOrder>, now: i64)
        ensures
            final(self)@ == with_sides(old(self)@, bids@, asks@, now),
    {
        self.bids = bids;
        self.asks = asks;
        self.last_updated = now;
        self.chart_needs_recentering = true;
        let mid = self.get_weighted_midpoint();
        self.price_history.add_price_at(mid, now);
    }

    /// Replaces the book by a snapshot taken at `now`.
    pub fn apply_snapshot(
        &mut self,
        bids: &Vec<OrderSummary>,
        asks: &Vec<OrderSummary>,
        depth: usize,
        now: i64,
    )
        ensures
            final(self)@ == snapshot_spec(
                old(self)@,
                summaries_view(bids@),
                summaries_view(asks@),
                depth,
                now,
            ),
            sides_wf(final(self)@, depth),
    {
        let new_bids = sort_and_truncate(parse_levels(bids, now), true, depth);
        let new_asks = sort_and_truncate(parse_levels(asks, now), false, depth);
        self.install(new_bids, new_asks, now);
    }

    /// Applies a batch of changes at `now`.
    pub fn apply_delta(&mut self, changes: &Vec<PriceChange>, depth: usize, now: i64)
        ensures
            final(self)@ == delta_spec(old(self)@, changes_view(changes@), depth, now),
            sides_wf(final(self)@, depth),
    {
        let ghost all = changes_view(changes@);
        let ghost start = Sides { bids: self.bids@, asks: self.asks@ };
        let mut bids = copy_levels(&self.bids);
        let mut asks = copy_levels(&self.asks);
        let mut i: usize = 0;
        assert(all.take(0) =~= Seq::<PriceChangeModel>::empty());
        while i < changes.len()
            invariant
                i <= changes.len(),
                all == changes_view(changes@),
                (Sides { bids: bids@, asks: asks@ }) == apply_changes(start, all.take(i as int), now),
            decreases changes.len() - i,
        {
            proof {
                assert(all.take(i + 1).drop_last() =~= all.take(i as int));
                assert(all.take(i + 1).last() == changes@[i as int]@);
            }
            let change = &changes[i];
            let price = parse_decimal(change.price.as_str());
            let size = parse_decimal(change.size.as_str());
            if let (Some(p), Some(s)) = (price, size) {
                match resolve_side(change.side.as_str()) {
                    Some(Side::Bid) => apply_change_to_side(&mut bids, p, s, now),
                    Some(Side::Ask) => apply_change_to_side(&mut asks, p, s, now),
                    None => {},
                }
            }
            i = i + 1;
        }
        assert(all.take(changes.len() as int) =~= all);
        let new_bids = sort_and_truncate(bids, true, depth);
        let new_asks = sort_and_truncate(asks, false, depth);
        self.install(new_bids, new_asks, now);
    }

    /// Notes at `now` that a trade was reported.
    pub fn apply_trade(&mut self, now: i64)
        ensures
            final(self)@ == trade_spec(old(self)@, now),
    {
        self.last_updated = now;
        let mid = self.get_weighted_midpoint();
        self.price_history.add_price_at(mid, now);
    }

    /// Takes a new tick size from its decimal text.
    pub fn apply_tick_size(&mut self, new_tick_size: &str)
        ensures
            final(self)@ == tick_size_spec(old(self)@, new_tick_size@),
    {
        if let Some(tick) = parse_decimal(new_tick_size) {
            if tick > 0 {
                self.tick_size = tick;
            }
        }
    }

    /// Wipes the highlight of every level whose last change is older than
    /// the highlight duration at `now`.
    pub fn clear_expired_highlights(&mut self, now: i64)
        ensures
            final(self)@ == (BookModel {
                bids: cleared_levels(old(self)@.bids, now),
                asks: cleared_levels(old(self)@.asks, now),
                ..old(self)@
            }),
    {
        let mut i: usize = 0;
        while i < self.bids.len()
            invariant
                i <= self.bids.len(),
                self.bids@.len() == old(self).bids@.len(),
                forall|k: int|
                    0 <= k < i ==> self.bids@[k] == old(self).bids@[k].spec_clear_highlight(now),
                forall|k: int| i <= k < self.bids@.len() ==> self.bids@[k] == old(self).bids@[k],
                self.asks == old(self).asks,
                self.token_id == old(self).token_id,
                self.market_question == old(self).market_question,
                self.tick_size == old(self).tick_size,
                self.last_updated == old(self).last_updated,
                self.chart_center_price == old(self).chart_center_price,
                self.chart_needs_recentering == old(self).chart_needs_recentering,
                self.price_history == old(self).price_history,
            decreases self.bids.len() - i,
        {
            let mut level = self.bids[i];
            level.clear_highlight_if_expired_at(now);
            self.bids.set(i, level);
            i = i + 1;
        }
        let mut j: usize = 0;
        while j < self.asks.len()
            invariant
                j <= self.asks.len(),
                self.asks@.len() == old(self).asks@.len(),
                forall|k: int|
                    0 <= k < j ==> self.asks@[k] == old(self).asks@[k].spec_clear_highlight(now),
                forall|k: int| j <= k < self.asks@.len() ==> self.asks@[k] == old(self).asks@[k],
                self.bids@ == cleared_levels(old(self).bids@, now),
                self.token_id == old(self).token_id,
                self.market_question == old(self).market_question,
                self.tick_size == old(self).tick_size,
                self.last_updated == old(self).last_updated,
                self.chart_center_price == old(self).chart_center_price,
                self.chart_needs_recentering == old(self).chart_needs_recentering,
                self.price_history == old(self).price_history,
            decreases self.asks.len() - j,
        {
            let mut level = self.asks[j];
            level.clear_highlight_if_expired_at(now);
            self.asks.set(j, level);
            j = j + 1;
        }
        assert(self.asks@ =~= cleared_levels(old(self).asks@, now));
    }

    /// Applies one feed event at `now`; says whether the event was about
    /// this book's instrument.
    pub fn apply_event(
        &mut self,
        event: &PolymarketWebSocketMessage,
        depth: usize,
        now: i64,
    ) -> (applied: bool)
        ensures
            final(self)@ == event_spec(old(self)@, event@, depth, now),
            applied == (event@.asset_id() == Some(old(self)@.token_id)),
    {
        if !event.is_for(self.token_id.as_str()) {
            return false;
        }
        match event {
            PolymarketWebSocketMessage::Book(m) => {
                self.apply_snapshot(&m.bids, &m.asks, depth, now);
            },
            PolymarketWebSocketMessage::PriceChange(m) => {
                self.apply_delta(&m.changes, depth, now);
            },
            PolymarketWebSocketMessage::LastTradePrice(_) => {
                self.apply_trade(now);
            },
            PolymarketWebSocketMessage::TickSizeChange(m) => {
                self.apply_tick_size(m.new_tick_size.as_str());
            },
            PolymarketWebSocketMessage::Unknown(_) => {},
        }
        true
    }
}

/// The book after several feed events at `now`, applied in order.
pub open spec fn events_spec(
    book: BookModel,
    events: Seq<MessageModel>,
    depth: usize,
    now: i64,
) -> BookModel
    decreases events.len(),
{
    if events.len() == 0 {
        book
    } else {
        event_spec(events_spec(book, events.drop_last(), depth, now), events.last(), depth, now)
    }
}

/// Whether one of the events is about the instrument `token`.
pub open spec fn any_about(events: Seq<MessageModel>, token: Seq<char>) -> bool {
    exists|i: int| 0 <= i < events.len() && (#[trigger] events[i]).asset_id() == Some(token)
}

/// The levels that an exchange reported as numbers, as levels first seen
/// at `now`.
pub open spec fn reported_levels(orders: Seq<Order>, now: i64) -> Seq<SimpleOrder> {
    Seq::new(orders.len(), |i: int| SimpleOrder::spec_new(orders[i].price, orders[i].size, now))
}

/// The book made from a full report of the exchange at `now`. Where the
/// book on display is of the same instrument, its history is carried on
/// and the weighted midpoint of the new top of book is recorded in it;
/// otherwise the history starts empty.
pub open spec fn bootstrap_spec(
    existing: Option<BookModel>,
    token_id: Seq<char>,
    market_question: Seq<char>,
    bids: Seq<Order>,
    asks: Seq<Order>,
    tick_size: u64,
    depth: usize,
    now: i64,
) -> BookModel {
    let new_bids = sort_and_limit(reported_levels(bids, now), true, depth);
    let new_asks = sort_and_limit(reported_levels(asks, now), false, depth);
    let carried = match existing {
        Some(b) => b.token_id == token_id,
        None => false,
    };
    BookModel {
        token_id,
        market_question,
        bids: new_bids,
        asks: new_asks,
        tick_size,
        last_updated: now,
        chart_center_price: None,
        chart_needs_recentering: true,
        points: if carried {
            add_price_spec(
                existing->0.points,
                existing->0.max_points,
                weighted_midpoint_spec(new_bids, new_asks) as u64,
                now,
            )
        } else {
            Seq::empty()
        },
        max_points: if carried {
            existing->0.max_points
        } else {
            BOOK_PRICE_HISTORY_POINTS
        },
    }
}

/// The chart state after the chart is centered for a window of
/// `ticks_around_spread` buckets: where the book has a window, the chart
/// is centered on the price of the window's center tick (none where that
/// price does not fit in 64 bits) and is no longer due for recentering.
pub open spec fn recenter_spec(book: BookModel, ticks_around_spread: u64) -> BookModel {
    match window_spec(book.bids, book.asks, book.tick_size, ticks_around_spread) {
        Some(w) => BookModel {
            chart_center_price: if w.center_tick * book.tick_size <= u64::MAX {
                Some((w.center_tick * book.tick_size) as u64)
            } else {
                None
            },
            chart_needs_recentering: false,
            ..book
        },
        None => book,
    }
}

/// The label of the market that the instrument `token` belongs to: the
/// question of the first market that has it, a dash, and the outcome; the
/// id itself where no market has it.
pub open spec fn market_label_spec(markets: Seq<MarketInfo>, token: Seq<char>) -> Seq<char>
    decreases markets.len(),
{
    if markets.len() == 0 {
        token
    } else {
        let k = token_position(markets[0].tokens@, token);
        if k < markets[0].tokens@.len() {
            markets[0].question@ + " - "@ + markets[0].tokens@[k].outcome@
        } else {
            market_label_spec(markets.skip(1), token)
        }
    }
}

/// The position of the first token with the id `token`, or the length.
pub open spec fn token_position(tokens: Seq<TokenInfo>, token: Seq<char>) -> int
    decreases tokens.len(),
{
    if tokens.len() == 0 || tokens[0].token_id@ == token {
        0
    } else {
        1 + token_position(tokens.skip(1), token)
    }
}

pub proof fn lemma_token_position(tokens: Seq<TokenInfo>, token: Seq<char>, i: int)
    requires
        0 <= i <= tokens.len(),
        forall|j: int| 0 <= j < i ==> (#[trigger] tokens[j]).token_id@ != token,
        i < tokens.len() ==> tokens[i].token_id@ == token,
    ensures
        token_position(tokens, token) == i,
    decreases i,
{
    if i > 0 {
        assert(tokens[0].token_id@ != token);
        let rest = tokens.skip(1);
        assert forall|j: int| 0 <= j < i - 1 implies (#[trigger] rest[j]).token_id@ != token by {
            assert(rest[j] == tokens[j + 1]);
        }
        if i < tokens.len() {
            assert(rest[i - 1] == tokens[i]);
        }
        lemma_token_position(rest, token, i - 1);
    }
}

/// Where none of the first `i` markets has the token, the label is found
/// among the rest.
pub proof fn lemma_market_label_from(markets: Seq<MarketInfo>, token: Seq<char>, i: int)
    requires
        0 <= i <= markets.len(),
        forall|j: int|
            0 <= j < i ==> token_position((#[trigger] markets[j]).tokens@, token)
                == markets[j].tokens@.len(),
    ensures
        market_label_spec(markets, token) == market_label_spec(markets.skip(i), token),
    decreases i,
{
    if i == 0 {
        assert(markets.skip(0) =~= markets);
    } else {
        assert(token_position(markets[0].tokens@, token) == markets[0].tokens@.len());
        let rest = markets.skip(1);
        assert forall|j: int| 0 <= j < i - 1 implies token_position(
            (#[trigger] rest[j]).tokens@,
            token,
        ) == rest[j].tokens@.len() by {
            assert(rest[j] == markets[j + 1]);
        }
        lemma_market_label_from(rest, token, i - 1);
        assert(rest.skip(i - 1) =~= markets.skip(i));
    }
}

/// The position of the token with the id `token` among a market's tokens.
pub fn find_token(tokens: &Vec<TokenInfo>, token: &str) -> (k: usize)
    ensures
        k == token_position(tokens@, token@),
        k <= tokens@.len(),
{
    let mut k: usize = 0;
    while k < tokens.len()
        invariant
            k <= tokens.len(),
            forall|j: int| 0 <= j < k ==> (#[trigger] tokens@[j]).token_id@ != token@,
        decreases tokens.len() - k,
    {
        if str_eq(tokens[k].token_id.as_str(), token) {
            proof {
                lemma_token_position(tokens@, token@, k as int);
            }
            return k;
        }
        k = k + 1;
    }
    proof {
        lemma_token_position(tokens@, token@, k as int);
    }
    k
}

/// The label of the market that an instrument belongs to.
pub fn market_label(markets: &Vec<MarketInfo>, token_id: &str) -> (r: String)
    ensures
        r@ == market_label_spec(markets@, token_id@),
{
    let mut i: usize = 0;
    while i < markets.len()
        invariant
            i <= markets.len(),
            forall|j: int|
                0 <= j < i ==> token_position((#[trigger] markets@[j]).tokens@, token_id@)
                    == markets@[j].tokens@.len(),
        decreases markets.len() - i,
    {
        let k = find_token(&markets[i].tokens, token_id);
        if k < markets[i].tokens.len() {
            proof {
                lemma_market_label_from(markets@, token_id@, i as int);
                assert(markets@.skip(i as int)[0] == markets@[i as int]);
            }
            return markets[i].question.clone().concat(" - ").concat(
                markets[i].tokens[k].outcome.as_str(),
            );
        }
        i = i + 1;
    }
    proof {
        lemma_market_label_from(markets@, token_id@, i as int);
        assert(markets@.skip(i as int).len() == 0);
    }
    String::from_str(token_id)
}

/// Turns reported levels into levels first seen at `now`.
fn levels_from_report(orders: &Vec<Order>, now: i64) -> (r: Vec<SimpleOrder>)
    ensures
        r@ == reported_levels(orders@, now),
{
    let mut levels: Vec<SimpleOrder> = Vec::new();
    let mut i: usize = 0;
    while i < orders.len()
        invariant
            i <= orders.len(),
            levels@.len() == i,
            forall|j: int|
                0 <= j < i ==> #[trigger] levels@[j] == SimpleOrder::spec_new(
                    orders@[j].price,
                    orders@[j].size,
                    now,
                ),
        decreases orders.len() - i,
    {
        levels.push(SimpleOrder::new_at(orders[i].price, orders[i].size, now));
        i = i + 1;
    }
    assert(levels@ =~= reported_levels(orders@, now));
    levels
}

impl OrderBookData {
    /// Makes the book of `token_id` from a full report of the exchange
    /// taken at `now`; `existing` is the book on display, if any.
    pub fn bootstrap(
        existing: Option<&OrderBookData>,
        token_id: &str,
        market_question: String,
        bids: &Vec<Order>,
        asks: &Vec<Order>,
        tick_size: u64,
        depth: usize,
        now: i64,
    ) -> (r: Self)
        ensures
            r@ == bootstrap_spec(
                match existing {
                    Some(b) => Some(b@),
                    None => None,
                },
                token_id@,
                market_question@,
                bids@,
                asks@,
                tick_size,
                depth,
                now,
            ),
            sides_wf(r@, depth),
    {
        let new_bids = sort_and_truncate(levels_from_report(bids, now), true, depth);
        let new_asks = sort_and_truncate(levels_from_report(asks, now), false, depth);
        let price_history = match existing {
            Some(book) => {
                if str_eq(book.token_id.as_str(), token_id) {
                    let mut history = book.price_history.duplicate();
                    let mid = calculate_weighted_midpoint(new_bids.as_slice(), new_asks.as_slice());
                    history.add_price_at(mid, now);
                    history
                } else {
                    PriceHistory::new(BOOK_PRICE_HISTORY_POINTS)
                }
            },
            None => PriceHistory::new(BOOK_PRICE_HISTORY_POINTS),
        };
        OrderBookData {
            token_id: String::from_str(token_id),
            market_question,
            bids: new_bids,
            asks: new_asks,
            tick_size,
            last_updated: now,
            chart_center_price: None,
            chart_needs_recentering: true,
            price_history,
        }
    }

    /// Applies several feed events at `now`, in order; says whether one of
    /// them was about this book's instrument.
    pub fn apply_events(
        &mut self,
        events: &Vec<PolymarketWebSocketMessage>,
        depth: usize,
        now: i64,
    ) -> (applied: bool)
        ensures
            final(self)@ == events_spec(old(self)@, messages_view(events@), depth, now),
            applied == any_about(messages_view(events@), old(self)@.token_id),
    {
        let ghost all = messages_view(events@);
        let ghost token = self@.token_id;
        let mut applied = false;
        let mut i: usize = 0;
        assert(all.take(0) =~= Seq::<MessageModel>::empty());
        while i < events.len()
            invariant
                i <= events.len(),
                all == messages_view(events@),
                token == old(self)@.token_id,
                self@.token_id == token,
                self@ == events_spec(old(self)@, all.take(i as int), depth, now),
                applied == any_about(all.take(i as int), token),
            decreases events.len() - i,
        {
            proof {
                assert(all.take(i + 1).drop_last() =~= all.take(i as int));
                assert(all.take(i + 1).last() == events@[i as int]@);
            }
            let ghost before = all.take(i as int);
            let ghost after = all.take(i + 1);
            let one = self.apply_event(&events[i], depth, now);
            proof {
                if any_about(before, token) {
                    let k = choose|k: int|
                        0 <= k < before.len() && (#[trigger] before[k]).asset_id() == Some(token);
                    assert(after[k] == before[k]);
                }
                if one {
                    assert(after[i as int].asset_id() == Some(token));
                }
                if any_about(after, token) && !one {
                    let k = choose|k: int|
                        0 <= k < after.len() && (#[trigger] after[k]).asset_id() == Some(token);
                    assert(k < i);
                    assert(before[k] == after[k]);
                }
            }
            applied = applied || one;
            i = i + 1;
        }
        assert(all.take(events.len() as int) =~= all);
        applied
    }

    /// Centers the chart for a window of `ticks_around_spread` buckets.
    pub fn recenter_chart(&mut self, ticks_around_spread: u64)
        ensures
            final(self)@ == recenter_spec(old(self)@, ticks_around_spread),
    {
        match chart_center(&self.bids, &self.asks, self.tick_size, ticks_around_spread) {
            Some(center) => {
                self.chart_center_price = center;
                self.chart_needs_recentering = false;
            },
            None => {},
        }
    }
}

} // verus!
