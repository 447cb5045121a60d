use polymarket::data::SimpleOrder;
use polymarket::stats::{calculate_market_stats, calculate_weighted_midpoint, sum_sizes, with_volumes};
use polymarket::utils::{get_midpoint, get_midpoint_from_slices, get_spread, get_spread_from_slices};

fn level(price: u64, size: u64) -> SimpleOrder {
    SimpleOrder::new_at(price, size, 0)
}

#[test]
fn weighted_midpoint_leans_to_the_thin_side() {
    let bids = vec![level(520_000, 80_000_000)];
    let asks = vec![level(550_000, 100_000_000)];
    // (0.52 * 100 + 0.55 * 80) / 180 = 96 / 180 = 0.533333...
    assert_eq!(calculate_weighted_midpoint(&bids, &asks), 533_333);
}

#[test]
fn weighted_midpoint_of_equal_sizes_is_the_mean() {
    let bids = vec![level(520_000, 50_000_000)];
    let asks = vec![level(550_000, 50_000_000)];
    assert_eq!(calculate_weighted_midpoint(&bids, &asks), 535_000);
    let bids = vec![level(1, 3)];
    let asks = vec![level(4, 3)];
    assert_eq!(calculate_weighted_midpoint(&bids, &asks), 2);
}

#[test]
fn weighted_midpoint_edge_cases() {
    let none: Vec<SimpleOrder> = Vec::new();
    let one = vec![level(520_000, 80)];
    assert_eq!(calculate_weighted_midpoint(&none, &one), 0);
    assert_eq!(calculate_weighted_midpoint(&one, &none), 0);
    let empty_bid = vec![level(520_000, 0)];
    let empty_ask = vec![level(550_000, 0)];
    assert_eq!(calculate_weighted_midpoint(&empty_bid, &empty_ask), 535_000);
    // All size on the bid side: the midpoint is the ask.
    assert_eq!(calculate_weighted_midpoint(&one, &empty_ask), 550_000);
    // A crossed book is weighted the same way.
    let bids = vec![level(600_000, 1)];
    let asks = vec![level(500_000, 3)];
    assert_eq!(calculate_weighted_midpoint(&bids, &asks), 575_000);
    let big_bid = vec![level(u64::MAX, u64::MAX)];
    let big_ask = vec![level(u64::MAX, u64::MAX)];
    assert_eq!(calculate_weighted_midpoint(&big_bid, &big_ask), u64::MAX);
    let low = vec![level(0, u64::MAX)];
    assert_eq!(calculate_weighted_midpoint(&low, &big_ask), u64::MAX / 2);
}

#[test]
fn market_stats_of_a_book() {
    let bids = vec![level(520_000, 80_000_000), level(510_000, 20_000_000)];
    let asks = vec![level(550_000, 100_000_000)];
    let stats = calculate_market_stats(&bids, &asks);
    assert_eq!(stats.best_bid, 520_000);
    assert_eq!(stats.best_ask, 550_000);
    assert_eq!(stats.spread, 30_000);
    assert_eq!(stats.mid_price, 533_333);
    assert_eq!(stats.total_bid_size, 100_000_000);
    assert_eq!(stats.total_ask_size, 100_000_000);
    assert_eq!(stats.total_volume, 0);
    assert_eq!(stats.volume_24h, 0);
    let with = with_volumes(&bids, &asks, 5, 9);
    assert_eq!(with.volume_24h, 5);
    assert_eq!(with.total_volume, 9);
    assert_eq!(with.spread, 30_000);
    let none: Vec<SimpleOrder> = Vec::new();
    let one_sided = calculate_market_stats(&bids, &none);
    assert_eq!(one_sided.spread, 0);
    assert_eq!(one_sided.best_ask, 0);
    assert_eq!(one_sided.mid_price, 0);
}

#[test]
fn sum_sizes_adds_beyond_64_bits() {
    let levels = vec![level(1, u64::MAX), level(2, u64::MAX), level(3, 2)];
    assert_eq!(sum_sizes(&levels), 2 * (u64::MAX as u128) + 2);
    let none: Vec<SimpleOrder> = Vec::new();
    assert_eq!(sum_sizes(&none), 0);
}

#[test]
fn pair_midpoint_and_spread() {
    assert_eq!(get_midpoint(520_000, 550_000), 535_000);
    assert_eq!(get_midpoint(0, 550_000), 0);
    assert_eq!(get_midpoint(520_000, 0), 0);
    assert_eq!(get_midpoint(u64::MAX, u64::MAX), u64::MAX);
    assert_eq!(get_spread(520_000, 550_000), 30_000);
    assert_eq!(get_spread(550_000, 520_000), -30_000);
    assert_eq!(get_spread(0, 520_000), 0);
    assert_eq!(get_spread(520_000, 0), 0);
    let bids = vec![level(520_000, 1)];
    let asks = vec![level(550_000, 1)];
    let none: Vec<SimpleOrder> = Vec::new();
    assert_eq!(get_midpoint_from_slices(&bids, &asks), 535_000);
    assert_eq!(get_midpoint_from_slices(&none, &asks), 0);
    assert_eq!(get_spread_from_slices(&bids, &asks), 30_000);
    assert_eq!(get_spread_from_slices(&bids, &none), 0);
}
