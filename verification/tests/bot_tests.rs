use polymarket::bot::engine::BotEngine;
use polymarket::bot::orderbooks::{Order, OrderBook, OrderBooks};
use polymarket::bot::strategy::{
    push_alert, push_alerts, AlertSeverity, Strategy, StrategyAlert, StrategyScope, StrategyStatus,
    StrategyType,
};
use polymarket::data::{OrderBookData, SimpleOrder};

fn book(token: &str, bids: &[(u64, u64)], asks: &[(u64, u64)]) -> OrderBookData {
    let mut book = OrderBookData::new(String::from(token), String::from("q"), 100, 500, 0);
    for (price, size) in bids {
        book.bids.push(SimpleOrder::new_at(*price, *size, 0));
    }
    for (price, size) in asks {
        book.asks.push(SimpleOrder::new_at(*price, *size, 0));
    }
    book
}

fn alert(n: i64) -> StrategyAlert {
    StrategyAlert {
        timestamp: n,
        strategy: String::from("s"),
        severity: AlertSeverity::Low,
        message: format!("alert {}", n),
        market_data: Vec::new(),
    }
}

fn arbitrage_engine() -> BotEngine {
    let mut engine = BotEngine::new();
    let kind = StrategyType::ArbitrageDetector;
    engine.add_event_to_strategy(&kind, String::from("E"), String::from("Event"));
    engine.add_leg_to_strategy(&kind, String::from("A"), String::from("Market A"));
    engine.add_leg_to_strategy(&kind, String::from("B"), String::from("Market B"));
    engine.start_strategy_at(kind, 1);
    engine
}

#[test]
fn strategy_kinds() {
    assert_eq!(StrategyType::ArbitrageDetector.name(), "Arbitrage Detector");
    assert_eq!(StrategyType::PriceAnomaly.name(), "Price Anomaly Scanner");
    assert_eq!(StrategyType::VolumeSpike.name(), "Volume Spike Alert");
    assert_eq!(StrategyType::CrossMarketCorrelation.name(), "Cross-Market Correlation");
    assert_eq!(
        StrategyType::ArbitrageDetector.description(),
        "Finds price discrepancies between markets in the same event"
    );
    assert_eq!(
        StrategyType::PriceAnomaly.description(),
        "Detects unusual price movements in individual markets"
    );
    assert_eq!(
        StrategyType::VolumeSpike.description(),
        "Alerts on sudden volume increases in individual markets"
    );
    assert_eq!(
        StrategyType::CrossMarketCorrelation.description(),
        "Analyzes correlation between multiple markets"
    );
    assert_eq!(StrategyType::ArbitrageDetector.scope(), StrategyScope::Event);
    assert_eq!(StrategyType::PriceAnomaly.scope(), StrategyScope::SingleMarket);
    assert_eq!(StrategyType::VolumeSpike.scope(), StrategyScope::SingleMarket);
    assert_eq!(StrategyType::CrossMarketCorrelation.scope(), StrategyScope::MultiMarket);
    assert!(StrategyType::ArbitrageDetector.requires_multiple_markets());
    assert!(StrategyType::CrossMarketCorrelation.requires_multiple_markets());
    assert!(!StrategyType::PriceAnomaly.requires_multiple_markets());
    assert!(!StrategyType::VolumeSpike.requires_multiple_markets());
    let all = StrategyType::all_strategies();
    assert_eq!(
        all,
        vec![
            StrategyType::ArbitrageDetector,
            StrategyType::PriceAnomaly,
            StrategyType::VolumeSpike,
            StrategyType::CrossMarketCorrelation,
        ]
    );
    for (i, kind) in all.iter().enumerate() {
        assert_eq!(kind.index(), i);
    }
}

#[test]
fn engine_starts_with_every_kind_stopped() {
    let engine = BotEngine::new();
    assert_eq!(engine.strategies.len(), 4);
    assert_eq!(engine.active_strategy, None);
    for kind in StrategyType::all_strategies() {
        let s = engine.get_strategy(&kind).expect("every kind is there");
        assert_eq!(*s, Strategy::new(kind));
        assert_eq!(s.status, StrategyStatus::Stopped);
        assert_eq!(s.run_count, 0);
        assert_eq!(engine.find(&kind), kind.index());
    }
}

#[test]
fn strategies_start_stop_and_fail() {
    let mut engine = BotEngine::new();
    let kind = StrategyType::PriceAnomaly;
    engine.start_strategy_at(kind, 77);
    assert_eq!(engine.get_strategy(&kind).unwrap().status, StrategyStatus::Running);
    assert_eq!(engine.get_strategy(&kind).unwrap().last_run, Some(77));
    assert_eq!(engine.active_strategy, Some(kind));
    engine.report_error(&kind, String::from("boom"));
    assert_eq!(engine.get_strategy(&kind).unwrap().status, StrategyStatus::Error(String::from("boom")));
    assert_eq!(engine.get_strategy_status(&kind), Some(String::from("Error: boom")));
    assert_eq!(engine.active_strategy, Some(kind));
    // An update does not clear the error, a start does.
    engine.process_orderbook_at(&book("A", &[(1, 1)], &[(900_000, 1)]), 80);
    assert_eq!(engine.get_strategy(&kind).unwrap().status, StrategyStatus::Error(String::from("boom")));
    engine.start_strategy_at(kind, 90);
    assert_eq!(engine.get_strategy(&kind).unwrap().status, StrategyStatus::Running);
    engine.stop_strategy(&StrategyType::VolumeSpike);
    assert_eq!(engine.active_strategy, Some(kind));
    engine.stop_strategy(&kind);
    assert_eq!(engine.get_strategy(&kind).unwrap().status, StrategyStatus::Stopped);
    assert_eq!(engine.active_strategy, None);
    engine.start_strategy(StrategyType::VolumeSpike);
    let started = engine.get_strategy(&StrategyType::VolumeSpike).unwrap();
    assert_eq!(started.status, StrategyStatus::Running);
    assert!(started.last_run.unwrap() > 1_577_836_800_000);
}

#[test]
fn subscriptions_follow_the_scope() {
    let mut engine = BotEngine::new();
    let anomaly = StrategyType::PriceAnomaly;
    let arbitrage = StrategyType::ArbitrageDetector;
    engine.add_market_to_strategy(&anomaly, String::from("A"), String::from("Market A"));
    engine.add_market_to_strategy(&anomaly, String::from("A"), String::from("Again"));
    engine.add_market_to_strategy(&anomaly, String::from("B"), String::from("Market B"));
    engine.add_event_to_strategy(&anomaly, String::from("E"), String::from("Event"));
    engine.add_leg_to_strategy(&anomaly, String::from("C"), String::from("Market C"));
    {
        let s = engine.get_strategy(&anomaly).unwrap();
        assert_eq!(s.selected_market_ids, vec!["A", "B"]);
        assert_eq!(s.selected_market_names, vec!["Market A", "Market B"]);
        assert!(s.selected_event_ids.is_empty());
        assert_eq!(s.get_selection_summary(), "2 market(s) selected");
    }
    engine.add_market_to_strategy(&arbitrage, String::from("A"), String::from("Market A"));
    assert_eq!(engine.get_strategy(&arbitrage).unwrap().get_selection_summary(), "No events selected");
    assert!(engine.get_strategy(&arbitrage).unwrap().selected_market_ids.is_empty());
    engine.add_event_to_strategy(&arbitrage, String::from("E"), String::from("Event"));
    engine.add_event_to_strategy(&arbitrage, String::from("E"), String::from("Event"));
    engine.add_leg_to_strategy(&arbitrage, String::from("A"), String::from("Market A"));
    engine.add_leg_to_strategy(&arbitrage, String::from("A"), String::from("Market A"));
    {
        let s = engine.get_strategy(&arbitrage).unwrap();
        assert_eq!(s.selected_event_ids, vec!["E"]);
        assert_eq!(s.selected_event_names, vec!["Event"]);
        assert_eq!(s.selected_market_ids, vec!["A"]);
        assert_eq!(s.get_selection_summary(), "1 event(s) selected");
        assert_eq!(s.get_event_markets("E"), vec!["A"]);
        assert_eq!(s.get_event_markets("F"), Vec::<String>::new());
    }
    engine.remove_market_from_strategy(&anomaly, "A");
    engine.remove_market_from_strategy(&anomaly, "Z");
    assert_eq!(engine.get_strategy(&anomaly).unwrap().selected_market_ids, vec!["B"]);
    assert_eq!(engine.get_strategy(&anomaly).unwrap().selected_market_names, vec!["Market B"]);
    engine.remove_event_from_strategy(&arbitrage, "E");
    assert!(engine.get_strategy(&arbitrage).unwrap().selected_event_ids.is_empty());
    assert!(engine.get_strategy(&arbitrage).unwrap().selected_event_names.is_empty());
    assert_eq!(
        engine.get_strategy(&StrategyType::VolumeSpike).unwrap().get_selection_summary(),
        "No markets selected"
    );
}

#[test]
fn arbitrage_of_two_legs_below_one() {
    let mut engine = arbitrage_engine();
    let kind = StrategyType::ArbitrageDetector;
    engine.process_orderbook_at(&book("A", &[(480_000, 1)], &[(520_000, 1)]), 10);
    // One leg has no book yet.
    assert!(engine.get_strategy(&kind).unwrap().alerts.is_empty());
    assert_eq!(engine.get_strategy(&kind).unwrap().run_count, 1);
    engine.process_orderbook_at(&book("B", &[(490_000, 1)], &[(530_000, 1)]), 20);
    let s = engine.get_strategy(&kind).unwrap();
    assert_eq!(s.alerts.len(), 1);
    assert_eq!(
        s.alerts[0],
        StrategyAlert {
            timestamp: 20,
            strategy: String::from("Arbitrage Detector"),
            severity: AlertSeverity::Medium,
            message: String::from(
                "Arbitrage opportunity detected! Sum of YES prices: 0.9700 (opportunity: $0.0300)"
            ),
            market_data: Vec::new(),
        }
    );
    assert_eq!(s.run_count, 2);
    assert_eq!(s.last_run, Some(20));
    assert_eq!(s.last_arbitrage_check, Some(20));
    assert_eq!(s.orderbooks.len(), 2);
    assert_eq!(
        engine.get_strategy_status(&kind),
        Some(String::from("Running - 1 events, 2 markets, 1 alerts"))
    );
}

#[test]
fn arbitrage_above_a_tenth_is_of_high_severity() {
    let mut engine = arbitrage_engine();
    let kind = StrategyType::ArbitrageDetector;
    engine.process_orderbook_at(&book("A", &[(400_000, 1)], &[(600_000, 1)]), 10);
    engine.process_orderbook_at(&book("B", &[(450_000, 1)], &[(600_000, 1)]), 20);
    let s = engine.get_strategy(&kind).unwrap();
    assert_eq!(s.alerts.len(), 1);
    assert_eq!(s.alerts[0].severity, AlertSeverity::High);
    assert_eq!(
        s.alerts[0].message,
        "Arbitrage opportunity detected! Sum of YES prices: 0.8500 (opportunity: $0.1500)"
    );
    // Exactly a tenth is not above it.
    let mut edge = arbitrage_engine();
    edge.process_orderbook_at(&book("A", &[(400_000, 1)], &[]), 10);
    edge.process_orderbook_at(&book("B", &[(500_000, 1)], &[]), 20);
    let e = edge.get_strategy(&kind).unwrap();
    assert_eq!(e.alerts.len(), 1);
    assert_eq!(e.alerts[0].severity, AlertSeverity::Medium);
    // A sum of exactly one is no opportunity.
    let mut full = arbitrage_engine();
    full.process_orderbook_at(&book("A", &[(500_000, 1)], &[]), 10);
    full.process_orderbook_at(&book("B", &[(500_000, 1)], &[]), 20);
    assert!(full.get_strategy(&kind).unwrap().alerts.is_empty());
}

#[test]
fn arbitrage_checks_asks_on_their_own() {
    let mut engine = arbitrage_engine();
    let kind = StrategyType::ArbitrageDetector;
    engine.process_orderbook_at(&book("A", &[(480_000, 1)], &[(490_000, 1)]), 10);
    engine.process_orderbook_at(&book("B", &[(490_000, 1)], &[(500_000, 1)]), 20);
    let s = engine.get_strategy(&kind).unwrap();
    assert_eq!(s.alerts.len(), 2);
    assert_eq!(
        s.alerts[0].message,
        "Arbitrage opportunity detected! Sum of YES prices: 0.9700 (opportunity: $0.0300)"
    );
    assert_eq!(
        s.alerts[1].message,
        "Arbitrage opportunity detected! Sum of NO prices: 0.9900 (opportunity: $0.0100)"
    );
    // The newer book of a leg takes the place of the older.
    engine.process_orderbook_at(&book("A", &[(600_000, 1)], &[(700_000, 1)]), 30);
    let s = engine.get_strategy(&kind).unwrap();
    assert_eq!(s.orderbooks.len(), 2);
    assert_eq!(s.alerts.len(), 2);
}

#[test]
fn arbitrage_needs_two_legs_and_a_subscription() {
    let mut engine = BotEngine::new();
    let kind = StrategyType::ArbitrageDetector;
    engine.add_event_to_strategy(&kind, String::from("E"), String::from("Event"));
    engine.add_leg_to_strategy(&kind, String::from("A"), String::from("Market A"));
    engine.start_strategy_at(kind, 1);
    engine.process_orderbook_at(&book("A", &[(100_000, 1)], &[]), 10);
    assert!(engine.get_strategy(&kind).unwrap().alerts.is_empty());
    assert_eq!(engine.get_strategy(&kind).unwrap().run_count, 1);
    // A book of an instrument that is not subscribed is not dispatched.
    engine.process_orderbook_at(&book("Z", &[(100_000, 1)], &[]), 20);
    assert_eq!(engine.get_strategy(&kind).unwrap().run_count, 1);
    // A strategy of another kind finds no arbitrage.
    let mut other = Strategy::new(StrategyType::VolumeSpike);
    assert!(other.check_arbitrage_opportunities_at(5).is_empty());
    assert_eq!(other.last_arbitrage_check, None);
    assert!(other.check_arbitrage_opportunities().is_empty());
}

#[test]
fn each_subscribed_event_raises_its_alerts() {
    let mut engine = arbitrage_engine();
    let kind = StrategyType::ArbitrageDetector;
    engine.add_event_to_strategy(&kind, String::from("F"), String::from("Second"));
    engine.process_orderbook_at(&book("A", &[(480_000, 1)], &[]), 10);
    engine.process_orderbook_at(&book("B", &[(490_000, 1)], &[]), 20);
    assert_eq!(engine.get_strategy(&kind).unwrap().alerts.len(), 2);
}

#[test]
fn wide_spread_is_an_anomaly() {
    let mut engine = BotEngine::new();
    let kind = StrategyType::PriceAnomaly;
    engine.add_market_to_strategy(&kind, String::from("A"), String::from("Market A"));
    engine.start_strategy_at(kind, 1);
    engine.process_orderbook_at(&book("A", &[(400_000, 1)], &[(500_000, 1)]), 10);
    assert!(engine.get_strategy(&kind).unwrap().alerts.is_empty());
    engine.process_orderbook_at(&book("A", &[(400_000, 1)], &[(550_000, 1)]), 20);
    engine.process_orderbook_at(&book("A", &[(400_000, 1)], &[(600_000, 1)]), 30);
    engine.process_orderbook_at(&book("A", &[(400_000, 1)], &[(600_001, 1)]), 40);
    let s = engine.get_strategy(&kind).unwrap();
    assert_eq!(s.alerts.len(), 3);
    assert_eq!(
        s.alerts[0],
        StrategyAlert {
            timestamp: 20,
            strategy: String::from("Price Anomaly"),
            severity: AlertSeverity::Medium,
            message: String::from("Wide spread detected: 15.00% at midpoint 0.4750"),
            market_data: Vec::new(),
        }
    );
    assert_eq!(s.alerts[1].severity, AlertSeverity::Medium);
    assert_eq!(s.alerts[1].message, "Wide spread detected: 20.00% at midpoint 0.5000");
    assert_eq!(s.alerts[2].severity, AlertSeverity::High);
    assert_eq!(s.run_count, 4);
    assert_eq!(s.last_run, Some(40));
    assert_eq!(
        engine.get_strategy_status(&kind),
        Some(String::from("Running - 1 markets, 3 alerts"))
    );
    assert_eq!(engine.get_strategy_status(&StrategyType::VolumeSpike), Some(String::from("Stopped")));
}

#[test]
fn large_displayed_size_is_a_spike() {
    let mut engine = BotEngine::new();
    let kind = StrategyType::VolumeSpike;
    engine.add_market_to_strategy(&kind, String::from("A"), String::from("Market A"));
    engine.start_strategy_at(kind, 1);
    engine.process_orderbook_at(&book("A", &[(400_000, 5_000_000_000)], &[(500_000, 5_000_000_000)]), 10);
    assert!(engine.get_strategy(&kind).unwrap().alerts.is_empty());
    engine.process_orderbook_at(
        &book("A", &[(400_000, 4_000_000_000), (390_000, 2_000_000_000)], &[(500_000, 5_000_000_000)]),
        20,
    );
    engine.process_orderbook_at(&book("A", &[(400_000, 50_000_000_000)], &[(500_000, 1)]), 30);
    let s = engine.get_strategy(&kind).unwrap();
    assert_eq!(s.alerts.len(), 2);
    assert_eq!(
        s.alerts[0],
        StrategyAlert {
            timestamp: 20,
            strategy: String::from("Volume Spike"),
            severity: AlertSeverity::Medium,
            message: String::from("Volume spike detected: 11000 total volume (bids: 6000, asks: 5000)"),
            market_data: Vec::new(),
        }
    );
    assert_eq!(s.alerts[1].severity, AlertSeverity::High);
    assert_eq!(s.alerts[1].message, "Volume spike detected: 50000 total volume (bids: 50000, asks: 0)");
}

#[test]
fn a_stopped_strategy_takes_no_update() {
    let mut engine = BotEngine::new();
    let kind = StrategyType::PriceAnomaly;
    engine.add_market_to_strategy(&kind, String::from("A"), String::from("Market A"));
    engine.process_orderbook_at(&book("A", &[(100_000, 1)], &[(900_000, 1)]), 10);
    let s = engine.get_strategy(&kind).unwrap();
    assert!(s.alerts.is_empty());
    assert_eq!(s.run_count, 0);
    assert_eq!(s.last_run, None);
    let cross = StrategyType::CrossMarketCorrelation;
    engine.add_market_to_strategy(&cross, String::from("A"), String::from("Market A"));
    engine.start_strategy_at(cross, 5);
    engine.process_orderbook(&book("A", &[(100_000, 1)], &[(900_000, 1)]));
    let c = engine.get_strategy(&cross).unwrap();
    assert!(c.alerts.is_empty());
    assert_eq!(c.run_count, 1);
}

#[test]
fn alert_log_keeps_the_newest_hundred() {
    let mut engine = BotEngine::new();
    let kind = StrategyType::PriceAnomaly;
    engine.add_market_to_strategy(&kind, String::from("A"), String::from("Market A"));
    engine.start_strategy_at(kind, 0);
    let wide = book("A", &[(100_000, 1)], &[(900_000, 1)]);
    for n in 1..=150 {
        engine.process_orderbook_at(&wide, n);
    }
    let s = engine.get_strategy(&kind).unwrap();
    assert_eq!(s.alerts.len(), 100);
    for (i, a) in s.alerts.iter().enumerate() {
        assert_eq!(a.timestamp, 51 + i as i64);
    }
    assert_eq!(s.run_count, 150);
}

#[test]
fn push_alert_enforces_the_bound() {
    let mut log: Vec<StrategyAlert> = Vec::new();
    for n in 0..100 {
        push_alert(&mut log, alert(n));
    }
    assert_eq!(log.len(), 100);
    push_alert(&mut log, alert(100));
    assert_eq!(log.len(), 100);
    assert_eq!(log[0], alert(1));
    assert_eq!(log[99], alert(100));
    let mut long: Vec<StrategyAlert> = (0..130).map(alert).collect();
    push_alert(&mut long, alert(130));
    assert_eq!(long.len(), 100);
    assert_eq!(long[0], alert(31));
    let mut batch: Vec<StrategyAlert> = Vec::new();
    push_alerts(&mut batch, (0..250).map(alert).collect());
    assert_eq!(batch.len(), 100);
    assert_eq!(batch[0], alert(150));
    assert_eq!(batch[99], alert(249));
    push_alerts(&mut batch, Vec::new());
    assert_eq!(batch.len(), 100);
}

#[test]
fn run_count_stops_at_the_largest_number() {
    let mut s = Strategy::new(StrategyType::CrossMarketCorrelation);
    s.run_count = u64::MAX - 1;
    let b = book("A", &[], &[]);
    s.dispatch(&b, 1);
    assert_eq!(s.run_count, u64::MAX);
    s.dispatch(&b, 2);
    assert_eq!(s.run_count, u64::MAX);
    assert_eq!(s.last_run, Some(2));
}

#[test]
fn strategy_caches_one_book_per_instrument() {
    let mut s = Strategy::new(StrategyType::ArbitrageDetector);
    s.update_orderbook(book("A", &[(1, 1)], &[]));
    s.update_orderbook(book("B", &[(2, 1)], &[]));
    s.update_orderbook(book("A", &[(3, 1)], &[]));
    assert_eq!(s.orderbooks.len(), 2);
    assert_eq!(s.orderbooks[0].bids[0].price, 3);
    assert_eq!(s.orderbooks[1].bids[0].price, 2);
}

#[test]
fn plain_books_by_instrument() {
    let mut books = OrderBooks::new();
    let make = |token: &str, bid: u64, ask: u64| OrderBook {
        token_id: String::from(token),
        market_question: String::from("q"),
        bids: vec![Order { price: bid, size: 1 }],
        asks: vec![Order { price: ask, size: 1 }],
        tick_size: 100,
        last_updated: 0,
    };
    books.add_orderbook(make("A", 400_000, 500_000));
    books.add_orderbook(make("B", 100_000, 200_000));
    books.add_orderbook(make("A", 450_000, 470_000));
    assert_eq!(books.books.len(), 2);
    let a = books.get_orderbook("A").expect("A is there");
    assert_eq!(a.get_spread(), 20_000);
    assert_eq!(a.get_midpoint(), 460_000);
    assert!(books.books[0].1);
    assert_eq!(books.get_orderbook("C"), None);
    let empty = OrderBook {
        token_id: String::from("E"),
        market_question: String::from("q"),
        bids: Vec::new(),
        asks: vec![Order { price: 1, size: 1 }],
        tick_size: 100,
        last_updated: 0,
    };
    assert_eq!(empty.get_spread(), 0);
    assert_eq!(empty.get_midpoint(), 0);
}
