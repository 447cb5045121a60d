use polymarket::data::{
    CryptoPrice, OrderBookData, OrderChangeDirection, PriceHistory, PricePoint, SimpleOrder,
};

#[test]
fn new_level_counts_as_increase() {
    let level = SimpleOrder::new_at(520_000, 80_000_000, 1_000);
    assert_eq!(level.price, 520_000);
    assert_eq!(level.size, 80_000_000);
    assert_eq!(level.previous_size, 80_000_000);
    assert_eq!(level.change_direction, OrderChangeDirection::Increase);
    assert_eq!(level.change_timestamp, Some(1_000));
}

#[test]
fn new_level_is_stamped_by_the_clock() {
    let level = SimpleOrder::new(1, 2);
    let stamp = level.change_timestamp.expect("a new level has a time of change");
    // Any time after the year 2020.
    assert!(stamp > 1_577_836_800_000);
    assert!(level.should_highlight());
}

#[test]
fn update_size_sets_direction_and_time() {
    let mut level = SimpleOrder::new_at(520_000, 80, 0);
    level.update_size_at(100, 50);
    assert_eq!(level.size, 100);
    assert_eq!(level.previous_size, 80);
    assert_eq!(level.change_direction, OrderChangeDirection::Increase);
    assert_eq!(level.change_timestamp, Some(50));
    level.update_size_at(40, 70);
    assert_eq!(level.previous_size, 100);
    assert_eq!(level.change_direction, OrderChangeDirection::Decrease);
    assert_eq!(level.change_timestamp, Some(70));
    // The same size again keeps the direction and moves the time.
    level.update_size_at(40, 90);
    assert_eq!(level.previous_size, 40);
    assert_eq!(level.change_direction, OrderChangeDirection::Decrease);
    assert_eq!(level.change_timestamp, Some(90));
}

#[test]
fn highlight_lasts_one_second() {
    let t0: i64 = 5_000;
    let mut level = SimpleOrder::new_at(520_000, 80, 0);
    level.update_size_at(90, t0);
    assert!(level.should_highlight_at(t0));
    assert!(level.should_highlight_at(t0 + 999));
    assert!(!level.should_highlight_at(t0 + 1000));
    assert!(!level.should_highlight_at(t0 + 5000));
    let mut early = level;
    early.clear_highlight_if_expired_at(t0 + 999);
    assert_eq!(early, level);
    level.clear_highlight_if_expired_at(t0 + 1000);
    assert_eq!(level.change_direction, OrderChangeDirection::NoChange);
    assert_eq!(level.change_timestamp, None);
    assert!(!level.should_highlight_at(t0 + 1000));
    assert_eq!(level.size, 90);
}

#[test]
fn highlight_survives_a_clock_that_steps_back() {
    let level = SimpleOrder::new_at(1, 1, 10_000);
    assert!(level.should_highlight_at(9_000));
    assert!(level.should_highlight_at(i64::MIN));
    let far = SimpleOrder::new_at(1, 1, i64::MIN);
    assert!(!far.should_highlight_at(i64::MAX));
}

#[test]
fn history_skips_a_repeated_price() {
    let mut history = PriceHistory::new(5);
    history.add_price_at(500_000, 1);
    assert_eq!(history.points.len(), 1);
    history.add_price_at(500_000, 2);
    assert_eq!(history.points.len(), 1);
    assert_eq!(history.points[0], PricePoint { timestamp: 1, price: 500_000 });
    history.add_price_at(510_000, 3);
    history.add_price_at(500_000, 4);
    assert_eq!(history.points.len(), 3);
}

#[test]
fn history_skips_a_repeated_price_by_the_clock() {
    let mut history = PriceHistory::new(5);
    history.add_price(500_000);
    history.add_price(500_000);
    assert_eq!(history.points.len(), 1);
    assert_eq!(history.current_price(), Some(500_000));
}

#[test]
fn history_evicts_the_oldest_point() {
    let mut history = PriceHistory::new(3);
    for i in 0..5u64 {
        history.add_price_at(100 + i, i as i64);
    }
    assert_eq!(history.points.len(), 3);
    assert_eq!(history.points[0], PricePoint { timestamp: 2, price: 102 });
    assert_eq!(history.points[2], PricePoint { timestamp: 4, price: 104 });
    assert_eq!(history.get_time_range(), Some((2, 4)));
    assert_eq!(history.current_price(), Some(104));
}

#[test]
fn history_that_may_hold_nothing_stays_empty() {
    let mut history = PriceHistory::new(0);
    history.add_price_at(1, 1);
    history.add_price_at(1, 2);
    assert!(history.points.is_empty());
    assert_eq!(history.get_price_range(), None);
}

#[test]
fn empty_history_has_no_ranges() {
    let history = PriceHistory::new(10);
    assert_eq!(history.get_price_range(), None);
    assert_eq!(history.get_time_range(), None);
    assert_eq!(history.current_price(), None);
}

#[test]
fn price_range_is_padded_by_five_percent() {
    let mut history = PriceHistory::new(10);
    history.add_price_at(400_000, 1);
    history.add_price_at(600_000, 2);
    history.add_price_at(500_000, 3);
    // Span 0.2, padding 0.01.
    assert_eq!(history.get_price_range(), Some((390_000, 610_000)));
    let mut low = PriceHistory::new(10);
    low.add_price_at(0, 1);
    low.add_price_at(1_000, 2);
    assert_eq!(low.get_price_range(), Some((-50, 1_050)));
    let mut single = PriceHistory::new(10);
    single.add_price_at(7, 1);
    assert_eq!(single.get_price_range(), Some((7, 7)));
}

#[test]
fn history_duplicate_is_equal() {
    let mut history = PriceHistory::new(4);
    history.add_price_at(1, 1);
    history.add_price_at(2, 2);
    assert_eq!(history.duplicate(), history);
}

#[test]
fn crypto_price_records_updates() {
    let mut price = CryptoPrice::new_at(String::from("BTC"), 10);
    assert_eq!(price.price, 0);
    assert_eq!(price.timestamp, 10);
    assert_eq!(price.history.max_points, 300);
    price.update_price_at(60_000_000_000, 20);
    price.update_price_at(60_000_000_000, 30);
    assert_eq!(price.price, 60_000_000_000);
    assert_eq!(price.timestamp, 30);
    assert_eq!(price.history.points.len(), 1);
    let mut by_clock = CryptoPrice::new(String::from("ETH"));
    by_clock.update_price(5);
    assert_eq!(by_clock.symbol, "ETH");
    assert_eq!(by_clock.history.current_price(), Some(5));
}

#[test]
fn book_spread_and_midpoint() {
    let mut book = OrderBookData::new(String::from("t"), String::from("q"), 100, 500, 0);
    assert_eq!(book.get_spread(), 0);
    assert_eq!(book.get_midpoint(), 0);
    book.bids.push(SimpleOrder::new_at(520_000, 80_000_000, 0));
    assert_eq!(book.get_spread(), 0);
    book.asks.push(SimpleOrder::new_at(550_000, 100_000_000, 0));
    assert_eq!(book.get_spread(), 30_000);
    assert_eq!(book.get_midpoint(), 535_000);
    // A crossed book has a negative spread.
    book.asks[0].price = 500_000;
    assert_eq!(book.get_spread(), -20_000);
    assert_eq!(book.duplicate(), book);
}
