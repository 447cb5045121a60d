use polymarket::book::{parse_levels, resolve_side, Side};
use polymarket::bot::orderbooks::Order;
use polymarket::data::{
    MarketInfo, OrderBookData, OrderChangeDirection, PricePoint, SimpleOrder, TokenInfo,
};
use polymarket::websocket::clob::{
    BookMessage, LastTradePriceMessage, OrderSummary, PolymarketWebSocketMessage, PriceChange,
    PriceChangeMessage, TickSizeChangeMessage,
};

fn entry(price: &str, size: &str) -> OrderSummary {
    OrderSummary { price: String::from(price), size: String::from(size) }
}

fn change(side: &str, price: &str, size: &str) -> PriceChange {
    PriceChange { price: String::from(price), side: String::from(side), size: String::from(size) }
}

fn empty_book() -> OrderBookData {
    OrderBookData::new(String::from("token"), String::from("question"), 100, 500, 0)
}

fn prices(levels: &Vec<SimpleOrder>) -> Vec<u64> {
    levels.iter().map(|l| l.price).collect()
}

fn strictly_descending(levels: &Vec<SimpleOrder>) -> bool {
    levels.windows(2).all(|w| w[0].price > w[1].price)
}

fn strictly_ascending(levels: &Vec<SimpleOrder>) -> bool {
    levels.windows(2).all(|w| w[0].price < w[1].price)
}

#[test]
fn snapshot_sorts_and_cuts_both_sides() {
    let mut book = empty_book();
    let bids = vec![entry("0.50", "10"), entry("0.52", "80"), entry("0.51", "5"), entry("0.49", "1")];
    let asks = vec![entry("0.57", "3"), entry("0.55", "100"), entry("0.56", "2"), entry("0.58", "4")];
    book.apply_snapshot(&bids, &asks, 3, 1_000);
    assert_eq!(prices(&book.bids), vec![520_000, 510_000, 500_000]);
    assert_eq!(prices(&book.asks), vec![550_000, 560_000, 570_000]);
    assert_eq!(book.bids[0].size, 80_000_000);
    assert_eq!(book.bids[0].change_timestamp, Some(1_000));
    assert_eq!(book.bids[0].change_direction, OrderChangeDirection::Increase);
    assert_eq!(book.last_updated, 1_000);
    assert!(book.chart_needs_recentering);
    // (0.52 * 100 + 0.55 * 80) / 180
    assert_eq!(book.price_history.points, vec![PricePoint { timestamp: 1_000, price: 533_333 }]);
    assert_eq!(book.get_weighted_midpoint(), 533_333);
}

#[test]
fn snapshot_skips_entries_that_do_not_parse() {
    let mut book = empty_book();
    let bids = vec![entry("abc", "10"), entry("0.52", "x"), entry("0.51", "5"), entry("", "")];
    let asks = vec![entry("-0.55", "1"), entry("0.56", "1e3")];
    book.apply_snapshot(&bids, &asks, 10, 7);
    assert_eq!(prices(&book.bids), vec![510_000]);
    assert!(book.asks.is_empty());
    assert_eq!(book.price_history.points, vec![PricePoint { timestamp: 7, price: 0 }]);
}

#[test]
fn snapshot_keeps_equal_prices_in_their_order() {
    let mut book = empty_book();
    let bids = vec![entry("0.50", "1"), entry("0.52", "2"), entry("0.50", "3"), entry("0.52", "4")];
    book.apply_snapshot(&bids, &Vec::new(), 10, 0);
    let sizes: Vec<u64> = book.bids.iter().map(|l| l.size).collect();
    assert_eq!(prices(&book.bids), vec![520_000, 520_000, 500_000, 500_000]);
    assert_eq!(sizes, vec![2_000_000, 4_000_000, 1_000_000, 3_000_000]);
}

#[test]
fn snapshot_with_depth_zero_leaves_nothing() {
    let mut book = empty_book();
    book.apply_snapshot(&vec![entry("0.5", "1")], &vec![entry("0.6", "1")], 0, 0);
    assert!(book.bids.is_empty());
    assert!(book.asks.is_empty());
}

#[test]
fn same_snapshot_twice_gives_the_same_book() {
    let bids = vec![entry("0.50", "10"), entry("0.52", "80")];
    let asks = vec![entry("0.57", "3"), entry("0.55", "100")];
    let mut once = empty_book();
    once.apply_snapshot(&bids, &asks, 5, 1_000);
    let mut twice = empty_book();
    twice.apply_snapshot(&bids, &asks, 5, 1_000);
    twice.apply_snapshot(&bids, &asks, 5, 1_000);
    assert_eq!(once, twice);
    // At a later time only the times move.
    twice.apply_snapshot(&bids, &asks, 5, 2_000);
    assert_eq!(prices(&twice.bids), prices(&once.bids));
    assert_eq!(prices(&twice.asks), prices(&once.asks));
    assert_eq!(twice.price_history, once.price_history);
    assert_eq!(twice.last_updated, 2_000);
}

#[test]
fn sides_stay_sorted_and_within_depth() {
    let mut book = empty_book();
    let depth = 4;
    book.apply_snapshot(
        &vec![entry("0.50", "10"), entry("0.52", "80"), entry("0.48", "1")],
        &vec![entry("0.57", "3"), entry("0.55", "100")],
        depth,
        1,
    );
    let batches = vec![
        vec![change("BUY", "0.51", "5"), change("SELL", "0.56", "7"), change("buy", "0.53", "1")],
        vec![change("bid", "0.52", "0"), change("ask", "0.54", "2"), change("asks", "0.59", "9")],
        vec![change("bids", "0.47", "4"), change("Sell", "0.60", "1"), change("Bid", "0.46", "3")],
        vec![change("buy", "0.51", "6"), change("sell", "0.55", "0"), change("hold", "0.1", "1")],
    ];
    for (i, batch) in batches.iter().enumerate() {
        book.apply_delta(batch, depth, 10 + i as i64);
        assert!(strictly_descending(&book.bids));
        assert!(strictly_ascending(&book.asks));
        assert!(book.bids.len() <= depth);
        assert!(book.asks.len() <= depth);
    }
    assert_eq!(prices(&book.bids), vec![530_000, 510_000, 500_000, 470_000]);
    assert_eq!(prices(&book.asks), vec![540_000, 560_000, 570_000]);
}

#[test]
fn zero_size_removes_the_matching_level() {
    let mut book = empty_book();
    book.apply_snapshot(
        &vec![entry("0.50", "10"), entry("0.52", "80")],
        &vec![entry("0.55", "100")],
        5,
        1,
    );
    book.apply_delta(&vec![change("buy", "0.52", "0")], 5, 2);
    assert_eq!(prices(&book.bids), vec![500_000]);
    assert_eq!(prices(&book.asks), vec![550_000]);
    // Within the tolerance of 0.0001 the level matches.
    book.apply_delta(&vec![change("buy", "0.50009", "0")], 5, 3);
    assert!(book.bids.is_empty());
}

#[test]
fn zero_size_at_an_absent_price_changes_no_level() {
    let mut book = empty_book();
    book.apply_snapshot(
        &vec![entry("0.50", "10"), entry("0.52", "80")],
        &vec![entry("0.55", "100")],
        5,
        1,
    );
    let bids_before = book.bids.clone();
    let asks_before = book.asks.clone();
    book.apply_delta(&vec![change("buy", "0.51", "0")], 5, 2);
    assert_eq!(book.bids, bids_before);
    assert_eq!(book.asks, asks_before);
    // Exactly 0.0001 away is not within the tolerance.
    book.apply_delta(&vec![change("buy", "0.5001", "0")], 5, 3);
    assert_eq!(book.bids, bids_before);
    assert_eq!(book.last_updated, 3);
}

#[test]
fn delta_updates_a_level_in_place() {
    let mut book = empty_book();
    book.apply_snapshot(&vec![entry("0.50", "10")], &vec![entry("0.55", "100")], 5, 1);
    book.apply_delta(&vec![change("buy", "0.50", "4"), change("sell", "0.55", "150")], 5, 9);
    assert_eq!(book.bids[0].size, 4_000_000);
    assert_eq!(book.bids[0].previous_size, 10_000_000);
    assert_eq!(book.bids[0].change_direction, OrderChangeDirection::Decrease);
    assert_eq!(book.bids[0].change_timestamp, Some(9));
    assert_eq!(book.asks[0].size, 150_000_000);
    assert_eq!(book.asks[0].change_direction, OrderChangeDirection::Increase);
    book.apply_delta(&vec![change("buy", "0.50", "4")], 5, 20);
    assert_eq!(book.bids[0].change_direction, OrderChangeDirection::Decrease);
    assert_eq!(book.bids[0].change_timestamp, Some(20));
    assert_eq!(book.bids[0].previous_size, 4_000_000);
}

#[test]
fn delta_skips_what_it_cannot_read() {
    let mut book = empty_book();
    book.apply_snapshot(&vec![entry("0.50", "10")], &vec![entry("0.55", "100")], 5, 1);
    let before_bids = book.bids.clone();
    let before_asks = book.asks.clone();
    book.apply_delta(
        &vec![
            change("middle", "0.51", "1"),
            change("buy", "x", "1"),
            change("sell", "0.56", "y"),
            change("", "0.51", "1"),
            change("buyy", "0.51", "1"),
        ],
        5,
        2,
    );
    assert_eq!(book.bids, before_bids);
    assert_eq!(book.asks, before_asks);
}

#[test]
fn delta_cuts_to_depth_after_the_whole_batch() {
    let mut book = empty_book();
    book.apply_snapshot(&vec![entry("0.50", "1"), entry("0.49", "1")], &Vec::new(), 2, 1);
    // The new level pushes 0.49 out; removing 0.50 in the same batch keeps 0.49 in.
    book.apply_delta(&vec![change("buy", "0.51", "1"), change("buy", "0.50", "0")], 2, 2);
    assert_eq!(prices(&book.bids), vec![510_000, 490_000]);
    book.apply_delta(&vec![change("buy", "0.52", "1")], 2, 3);
    assert_eq!(prices(&book.bids), vec![520_000, 510_000]);
}

#[test]
fn sides_are_read_whatever_the_case() {
    assert_eq!(resolve_side("bid"), Some(Side::Bid));
    assert_eq!(resolve_side("BIDS"), Some(Side::Bid));
    assert_eq!(resolve_side("Buy"), Some(Side::Bid));
    assert_eq!(resolve_side("ask"), Some(Side::Ask));
    assert_eq!(resolve_side("Asks"), Some(Side::Ask));
    assert_eq!(resolve_side("SELL"), Some(Side::Ask));
    assert_eq!(resolve_side(""), None);
    assert_eq!(resolve_side("bi"), None);
    assert_eq!(resolve_side(" buy"), None);
    assert_eq!(resolve_side("long"), None);
}

#[test]
fn parse_levels_keeps_order() {
    let levels = parse_levels(&vec![entry("0.5", "1"), entry("bad", "1"), entry("0.4", "2")], 3);
    assert_eq!(levels, vec![SimpleOrder::new_at(500_000, 1_000_000, 3), SimpleOrder::new_at(400_000, 2_000_000, 3)]);
}

#[test]
fn tick_size_is_replaced_by_valid_text_only() {
    let mut book = empty_book();
    book.apply_tick_size("0.01");
    assert_eq!(book.tick_size, 10_000);
    book.apply_tick_size("abc");
    assert_eq!(book.tick_size, 10_000);
    book.apply_tick_size("0");
    assert_eq!(book.tick_size, 10_000);
    book.apply_tick_size("");
    assert_eq!(book.tick_size, 10_000);
    book.apply_tick_size("0.001");
    assert_eq!(book.tick_size, 1_000);
}

#[test]
fn trade_refreshes_time_and_history() {
    let mut book = empty_book();
    book.apply_snapshot(&vec![entry("0.50", "10")], &vec![entry("0.60", "10")], 5, 1);
    let levels = book.bids.clone();
    book.apply_trade(5);
    assert_eq!(book.last_updated, 5);
    assert_eq!(book.bids, levels);
    assert_eq!(book.price_history.points.len(), 1);
    book.bids[0].size = 30_000_000;
    book.apply_trade(6);
    // (0.50 * 10 + 0.60 * 30) / 40 = 0.575
    assert_eq!(book.price_history.points[1], PricePoint { timestamp: 6, price: 575_000 });
}

#[test]
fn expired_highlights_are_cleared() {
    let mut book = empty_book();
    book.apply_snapshot(&vec![entry("0.50", "10"), entry("0.49", "10")], &vec![entry("0.60", "10")], 5, 0);
    book.apply_delta(&vec![change("buy", "0.49", "11")], 5, 600);
    book.clear_expired_highlights(1_000);
    assert_eq!(book.bids[0].change_direction, OrderChangeDirection::NoChange);
    assert_eq!(book.bids[0].change_timestamp, None);
    assert_eq!(book.bids[1].change_direction, OrderChangeDirection::Increase);
    assert_eq!(book.bids[1].change_timestamp, Some(600));
    assert_eq!(book.asks[0].change_timestamp, None);
    book.clear_expired_highlights(1_599);
    assert_eq!(book.bids[1].change_timestamp, Some(600));
    book.clear_expired_highlights(1_600);
    assert_eq!(book.bids[1].change_timestamp, None);
    assert_eq!(book.bids[1].size, 11_000_000);
}

#[test]
fn events_for_other_instruments_are_passed_over() {
    let mut book = empty_book();
    let other = PolymarketWebSocketMessage::Book(BookMessage {
        event_type: String::from("book"),
        asset_id: String::from("other"),
        timestamp: String::new(),
        hash: String::new(),
        market: String::from("m"),
        bids: vec![entry("0.5", "1")],
        asks: Vec::new(),
    });
    let before = book.clone();
    assert!(!book.apply_event(&other, 5, 9));
    assert_eq!(book, before);
    assert!(!book.apply_event(&PolymarketWebSocketMessage::Unknown(String::from("token")), 5, 9));
    assert_eq!(book, before);
}

#[test]
fn events_are_applied_by_kind() {
    let mut book = empty_book();
    let snapshot = PolymarketWebSocketMessage::Book(BookMessage {
        event_type: String::from("book"),
        asset_id: String::from("token"),
        timestamp: String::new(),
        hash: String::new(),
        market: String::from("m"),
        bids: vec![entry("0.5", "1")],
        asks: vec![entry("0.6", "1")],
    });
    let delta = PolymarketWebSocketMessage::PriceChange(PriceChangeMessage {
        event_type: String::from("price_change"),
        asset_id: String::from("token"),
        timestamp: String::new(),
        hash: String::new(),
        market: String::from("m"),
        changes: vec![change("buy", "0.51", "2")],
    });
    let tick = PolymarketWebSocketMessage::TickSizeChange(TickSizeChangeMessage {
        event_type: String::from("tick_size_change"),
        asset_id: String::from("token"),
        market: String::new(),
        timestamp: String::new(),
        old_tick_size: String::from("0.0001"),
        new_tick_size: String::from("0.001"),
    });
    let trade = PolymarketWebSocketMessage::LastTradePrice(LastTradePriceMessage {
        event_type: String::from("last_trade_price"),
        asset_id: String::from("token"),
        market: String::new(),
        timestamp: String::new(),
        price: String::from("0.5"),
        side: String::from("BUY"),
        size: String::from("1"),
        fee_rate_bps: String::from("0"),
    });
    let other = PolymarketWebSocketMessage::LastTradePrice(LastTradePriceMessage {
        event_type: String::from("last_trade_price"),
        asset_id: String::from("elsewhere"),
        market: String::new(),
        timestamp: String::new(),
        price: String::from("0.5"),
        side: String::from("BUY"),
        size: String::from("1"),
        fee_rate_bps: String::from("0"),
    });
    assert!(book.apply_event(&snapshot, 5, 1));
    assert!(book.apply_event(&delta, 5, 2));
    assert_eq!(prices(&book.bids), vec![510_000, 500_000]);
    assert!(book.apply_event(&tick, 5, 3));
    assert_eq!(book.tick_size, 1_000);
    assert_eq!(book.last_updated, 2);
    assert!(book.apply_event(&trade, 5, 4));
    assert_eq!(book.last_updated, 4);
    let mut batch_book = empty_book();
    assert!(batch_book.apply_events(&vec![snapshot, other.clone(), delta, tick], 5, 8));
    assert_eq!(prices(&batch_book.bids), vec![510_000, 500_000]);
    assert_eq!(batch_book.tick_size, 1_000);
    assert!(!batch_book.apply_events(&vec![other], 5, 9));
    assert!(!batch_book.apply_events(&Vec::new(), 5, 9));
    assert_eq!(batch_book.last_updated, 8);
}

#[test]
fn bootstrap_carries_the_history_of_the_same_instrument() {
    let bids = vec![Order { price: 500_000, size: 1 }, Order { price: 520_000, size: 2 }];
    let asks = vec![Order { price: 560_000, size: 3 }, Order { price: 550_000, size: 1 }];
    let first = OrderBookData::bootstrap(None, "token", String::from("q"), &bids, &asks, 100, 1, 10);
    assert_eq!(prices(&first.bids), vec![520_000]);
    assert_eq!(prices(&first.asks), vec![550_000]);
    assert!(first.price_history.points.is_empty());
    assert_eq!(first.price_history.max_points, 500);
    assert_eq!(first.chart_center_price, None);
    assert!(first.chart_needs_recentering);
    let second = OrderBookData::bootstrap(Some(&first), "token", String::from("q"), &bids, &asks, 100, 5, 20);
    assert_eq!(second.price_history.points, vec![PricePoint { timestamp: 20, price: 540_000 }]);
    assert_eq!(prices(&second.bids), vec![520_000, 500_000]);
    let third = OrderBookData::bootstrap(Some(&second), "another", String::from("q"), &bids, &asks, 100, 5, 30);
    assert!(third.price_history.points.is_empty());
    assert_eq!(third.token_id, "another");
    assert_eq!(third.last_updated, 30);
}

#[test]
fn market_label_names_question_and_outcome() {
    let markets = vec![
        MarketInfo {
            question: String::from("Rain?"),
            tokens: vec![
                TokenInfo { token_id: String::from("1"), outcome: String::from("Yes") },
                TokenInfo { token_id: String::from("2"), outcome: String::from("No") },
            ],
            active: true,
            closed: false,
            resolved: false,
        },
        MarketInfo {
            question: String::from("Snow?"),
            tokens: vec![TokenInfo { token_id: String::from("3"), outcome: String::from("Yes") }],
            active: true,
            closed: false,
            resolved: false,
        },
    ];
    assert_eq!(polymarket::book::market_label(&markets, "2"), "Rain? - No");
    assert_eq!(polymarket::book::market_label(&markets, "3"), "Snow? - Yes");
    assert_eq!(polymarket::book::market_label(&markets, "9"), "9");
    assert_eq!(polymarket::book::market_label(&Vec::new(), "9"), "9");
}

#[test]
fn sides_are_read_as_their_full_lower_case_form_reads() {
    let samples = [
        "ask", "ASK", "as\u{212A}", "AS\u{212A}S", "b\u{0130}d", "B\u{0130}DS", "bıd", "ſell",
        "SELL", "sel\u{0142}", "BUY", "bu\u{00FF}", "Bids", "asks ", "",
    ];
    for text in samples {
        let lower = text.to_lowercase();
        let expected = match lower.as_str() {
            "bid" | "bids" | "buy" => Some(Side::Bid),
            "ask" | "asks" | "sell" => Some(Side::Ask),
            _ => None,
        };
        assert_eq!(resolve_side(text), expected);
    }
    assert_eq!(resolve_side("as\u{212A}"), Some(Side::Ask));
    assert_eq!(resolve_side("AS\u{212A}S"), Some(Side::Ask));
}
