use polymarket::data::{OrderBookData, SimpleOrder};
use polymarket::depth::{ChartWindow, DepthPoint};

fn book(tick: u64, bids: &[(u64, u64)], asks: &[(u64, u64)]) -> OrderBookData {
    let mut book = OrderBookData::new(String::from("t"), String::from("q"), tick, 500, 0);
    for (price, size) in bids {
        book.bids.push(SimpleOrder::new_at(*price, *size, 0));
    }
    for (price, size) in asks {
        book.asks.push(SimpleOrder::new_at(*price, *size, 0));
    }
    book
}

#[test]
fn two_sided_book_is_centered_on_the_midpoint() {
    let b = book(
        10_000,
        &[(500_000, 10_000_000), (490_000, 5_000_000)],
        &[(520_000, 7_000_000), (530_000, 3_000_000)],
    );
    let p = b.depth_projection(20).expect("a two-sided book has a window");
    assert_eq!(p.window, ChartWindow { min_tick: 41, max_tick: 61, center_tick: 51 });
    let mut bids = Vec::new();
    for tick in 41..=49u64 {
        bids.push(DepthPoint { price: tick * 10_000, depth: 15_000_000 });
    }
    bids.push(DepthPoint { price: 500_000, depth: 10_000_000 });
    assert_eq!(p.bids, bids);
    let mut asks = vec![DepthPoint { price: 520_000, depth: 7_000_000 }];
    for tick in 53..=60u64 {
        asks.push(DepthPoint { price: tick * 10_000, depth: 10_000_000 });
    }
    assert_eq!(p.asks, asks);
    assert_eq!(b.chart_window(20), Some(p.window));
}

#[test]
fn one_sided_book_spans_its_prices() {
    let b = book(10_000, &[(500_000, 10_000_000), (490_000, 5_000_000)], &[]);
    let p = b.depth_projection(20).expect("valid prices give a window");
    assert_eq!(p.window, ChartWindow { min_tick: 39, max_tick: 60, center_tick: 49 });
    assert_eq!(p.bids.len(), 12);
    assert_eq!(p.bids[0], DepthPoint { price: 390_000, depth: 15_000_000 });
    assert_eq!(p.bids[10], DepthPoint { price: 490_000, depth: 15_000_000 });
    assert_eq!(p.bids[11], DepthPoint { price: 500_000, depth: 10_000_000 });
    assert!(p.asks.is_empty());
}

#[test]
fn crossed_book_spans_its_prices() {
    let b = book(10_000, &[(600_000, 1_000_000)], &[(500_000, 2_000_000)]);
    let p = b.depth_projection(20).expect("valid prices give a window");
    assert_eq!(p.window, ChartWindow { min_tick: 40, max_tick: 70, center_tick: 55 });
    // Bids at or below 0.60 carry the bid depth; asks at or above 0.50 the ask depth.
    assert_eq!(p.bids.len(), 21);
    assert_eq!(p.bids[20], DepthPoint { price: 600_000, depth: 1_000_000 });
    assert_eq!(p.asks.len(), 20);
    assert_eq!(p.asks[0], DepthPoint { price: 500_000, depth: 2_000_000 });
}

#[test]
fn window_stays_within_the_valid_range() {
    let low = book(10_000, &[(10_000, 1_000_000)], &[(30_000, 1_000_000)]);
    let p = low.depth_projection(20).expect("a window");
    assert_eq!(p.window, ChartWindow { min_tick: 0, max_tick: 12, center_tick: 2 });
    let high = book(10_000, &[(970_000, 1_000_000)], &[(990_000, 1_000_000)]);
    let q = high.depth_projection(20).expect("a window");
    assert_eq!(q.window, ChartWindow { min_tick: 88, max_tick: 100, center_tick: 98 });
    // Bucket 99 is the last; the ask at tick 99 is in it.
    assert_eq!(q.asks, vec![DepthPoint { price: 990_000, depth: 1_000_000 }]);
}

#[test]
fn levels_outside_the_valid_range_do_not_count() {
    let b = book(
        10_000,
        &[(500_000, 10_000_000), (490_000, 5_000_000)],
        &[(520_000, 7_000_000), (2_000_000, 100_000_000)],
    );
    let p = b.depth_projection(20).expect("a window");
    assert_eq!(p.asks[0], DepthPoint { price: 520_000, depth: 7_000_000 });
    assert_eq!(p.asks[p.asks.len() - 1].depth, 7_000_000);
}

#[test]
fn levels_below_the_window_count_in_none_of_its_buckets() {
    let b = book(
        10_000,
        &[(500_000, 10_000_000), (100_000, 5_000_000)],
        &[(520_000, 7_000_000)],
    );
    let p = b.depth_projection(4).expect("a window");
    assert_eq!(p.window, ChartWindow { min_tick: 49, max_tick: 53, center_tick: 51 });
    assert_eq!(
        p.bids,
        vec![
            DepthPoint { price: 490_000, depth: 10_000_000 },
            DepthPoint { price: 500_000, depth: 10_000_000 },
        ]
    );
    assert_eq!(p.asks, vec![DepthPoint { price: 520_000, depth: 7_000_000 }]);
    // At 0.41 only the bid at 0.50 has been passed.
    let wide = book(
        10_000,
        &[(500_000, 1_000_000), (100_000, 2_000_000)],
        &[(520_000, 1_000_000)],
    );
    let q = wide.depth_projection(20).expect("a window");
    assert_eq!(q.window, ChartWindow { min_tick: 41, max_tick: 61, center_tick: 51 });
    assert_eq!(q.bids.len(), 10);
    assert_eq!(q.bids[0], DepthPoint { price: 410_000, depth: 1_000_000 });
    assert_eq!(q.bids[9], DepthPoint { price: 500_000, depth: 1_000_000 });
}

#[test]
fn depth_is_carried_on_from_beyond_the_window() {
    // The bid at 1.00 lies above the last bucket and is passed before it.
    let b = book(10_000, &[(1_000_000, 3_000_000), (950_000, 2_000_000)], &[]);
    let p = b.depth_projection(20).expect("a window");
    assert_eq!(p.window, ChartWindow { min_tick: 85, max_tick: 100, center_tick: 92 });
    assert_eq!(p.bids.len(), 15);
    assert_eq!(p.bids[0], DepthPoint { price: 850_000, depth: 5_000_000 });
    assert_eq!(p.bids[10], DepthPoint { price: 950_000, depth: 5_000_000 });
    assert_eq!(p.bids[11], DepthPoint { price: 960_000, depth: 3_000_000 });
    assert_eq!(p.bids[14], DepthPoint { price: 990_000, depth: 3_000_000 });
    // An ask below the window counts in every bucket at or above it.
    let a = book(10_000, &[(500_000, 1_000_000)], &[(520_000, 1_000_000), (100_000, 4_000_000)]);
    let q = a.depth_projection(4).expect("a window");
    assert_eq!(q.window, ChartWindow { min_tick: 49, max_tick: 53, center_tick: 51 });
    assert_eq!(
        q.asks,
        vec![
            DepthPoint { price: 490_000, depth: 4_000_000 },
            DepthPoint { price: 500_000, depth: 4_000_000 },
            DepthPoint { price: 510_000, depth: 4_000_000 },
            DepthPoint { price: 520_000, depth: 5_000_000 },
        ]
    );
}

#[test]
fn bid_depth_falls_and_ask_depth_rises_with_the_price() {
    let b = book(
        10_000,
        &[(500_000, 1_000_000), (480_000, 2_000_000), (450_000, 4_000_000)],
        &[(520_000, 1_000_000), (530_000, 2_000_000), (570_000, 4_000_000)],
    );
    let p = b.depth_projection(20).expect("a window");
    assert!(p.bids.windows(2).all(|w| w[0].price < w[1].price && w[0].depth >= w[1].depth));
    assert!(p.asks.windows(2).all(|w| w[0].price < w[1].price && w[0].depth <= w[1].depth));
    assert!(p.bids.iter().all(|point| point.depth > 0 && point.price <= 500_000));
    assert!(p.asks.iter().all(|point| point.depth > 0 && point.price >= 520_000));
    assert_eq!(p.bids[0], DepthPoint { price: 410_000, depth: 7_000_000 });
    assert_eq!(p.asks[p.asks.len() - 1], DepthPoint { price: 600_000, depth: 7_000_000 });
}

#[test]
fn no_projection_without_a_window() {
    let no_tick = book(0, &[(500_000, 1)], &[(520_000, 1)]);
    assert_eq!(no_tick.depth_projection(20), None);
    assert_eq!(no_tick.chart_window(20), None);
    let empty = book(10_000, &[], &[]);
    assert_eq!(empty.depth_projection(20), None);
    let invalid = book(10_000, &[(2_000_000, 1)], &[]);
    assert_eq!(invalid.depth_projection(20), None);
    // A window of no bucket.
    let narrow = book(10_000, &[(500_000, 1)], &[(520_000, 1)]);
    assert_eq!(narrow.depth_projection(0), None);
    assert_eq!(narrow.depth_projection(1), None);
    assert!(narrow.depth_projection(2).is_some());
}

#[test]
fn recentering_sets_the_chart_center() {
    let mut b = book(10_000, &[(500_000, 1)], &[(520_000, 1)]);
    assert!(b.chart_needs_recentering);
    b.recenter_chart(20);
    assert_eq!(b.chart_center_price, Some(510_000));
    assert!(!b.chart_needs_recentering);
    let mut empty = book(10_000, &[], &[]);
    empty.recenter_chart(20);
    assert_eq!(empty.chart_center_price, None);
    assert!(empty.chart_needs_recentering);
    // The window may hold no bucket and still have a center.
    let mut narrow = book(10_000, &[(500_000, 1)], &[(520_000, 1)]);
    narrow.recenter_chart(0);
    assert_eq!(narrow.chart_center_price, Some(510_000));
    assert!(!narrow.chart_needs_recentering);
}
