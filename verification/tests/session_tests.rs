use polymarket::bot::strategy::{StrategyStatus, StrategyType};
use polymarket::data::{EventInfo, MarketInfo, OrderBookData, SimpleOrder, TokenInfo};
use polymarket::session::catalog::{catalog_complete, keep_open, prune_empty_events};
use polymarket::session::input::{InputOutcome, Key, KeyAction};
use polymarket::session::updates::{process_websocket_updates, CycleStart};
use polymarket::session::{cycle_next, cycle_previous, page_down, page_up, App};
use polymarket::types::{MarketSelectorTab, SelectedTab};
use polymarket::websocket::clob::{PolymarketWebSocketMessage, TickSizeChangeMessage};
use polymarket::websocket::connection::{ConnectionStatus, Inbox, ReconnectPolicy};
use polymarket::websocket::crypto::CryptoSymbol;

fn market(question: &str, tokens: &[(&str, &str)]) -> MarketInfo {
    MarketInfo {
        question: String::from(question),
        tokens: tokens
            .iter()
            .map(|(id, outcome)| TokenInfo { token_id: String::from(*id), outcome: String::from(*outcome) })
            .collect(),
        active: true,
        closed: false,
        resolved: false,
    }
}

fn catalog() -> App {
    let mut app = App::new(100, 30, 0);
    app.markets = vec![
        market("Will Bitcoin rise?", &[("b-yes", "Yes"), ("b-no", "No")]),
        market("Will it rain?", &[("r-yes", "Yes"), ("r-no", "No")]),
        market("Who wins?", &[("w-a", "A"), ("w-b", "B"), ("w-c", "C")]),
    ];
    app.events = vec![
        EventInfo {
            id: String::from("e1"),
            title: String::from("Election"),
            description: String::from("Who wins the vote"),
            markets: vec![market("Candidate A", &[("a-yes", "Yes"), ("a-no", "No")]), market("Candidate B", &[("c-yes", "Yes")])],
        },
        EventInfo {
            id: String::from("e2"),
            title: String::from("Single"),
            description: String::from("Only one market"),
            markets: vec![market("Alone", &[("s-yes", "Yes")])],
        },
        EventInfo {
            id: String::from("e3"),
            title: String::from("Weather"),
            description: String::from("Rain and snow"),
            markets: vec![market("Rain", &[("x", "Yes")]), market("Snow", &[("y", "Yes")])],
        },
    ];
    app.update_filtered_markets();
    app.update_filtered_events();
    app
}

fn book(token: &str, question: &str) -> OrderBookData {
    let mut book = OrderBookData::new(String::from(token), String::from(question), 100, 500, 0);
    book.bids.push(SimpleOrder::new_at(400_000, 1_000_000, 0));
    book.asks.push(SimpleOrder::new_at(600_000, 1_000_000, 0));
    book
}

fn type_text(app: &mut App, text: &str) {
    for c in text.chars() {
        assert_eq!(app.handle_key_input(Key::Char(c), 0), InputOutcome::Continue);
    }
}

#[test]
fn indices_wrap_and_stop() {
    assert_eq!(cycle_next(0, 3), 1);
    assert_eq!(cycle_next(2, 3), 0);
    assert_eq!(cycle_next(7, 3), 2);
    assert_eq!(cycle_next(usize::MAX, 4), 0);
    assert_eq!(cycle_next(0, 1), 0);
    assert_eq!(cycle_previous(0, 3), 2);
    assert_eq!(cycle_previous(2, 3), 1);
    assert_eq!(page_down(0, 5), 4);
    assert_eq!(page_down(0, 30), 10);
    assert_eq!(page_down(25, 30), 29);
    assert_eq!(page_down(usize::MAX, 30), 29);
    assert_eq!(page_up(25), 15);
    assert_eq!(page_up(3), 0);
}

#[test]
fn a_new_session_shows_the_market_selector() {
    let app = App::new(100, 30, 5);
    assert!(app.show_market_selector);
    assert!(!app.show_token_selector);
    assert!(app.market_selector_tab == MarketSelectorTab::AllMarkets);
    assert!(app.selected_tab == SelectedTab::Orderbook);
    assert!(app.needs_redraw);
    assert_eq!(app.depth, 30);
    assert_eq!(app.update_interval_ms, 100);
    assert_eq!(app.price_history_update_interval_ms, 60_000);
    assert_eq!(app.connection.status, ConnectionStatus::Idle);
    assert_eq!(app.connection.last_attempt_time, 5);
    assert_eq!(app.bot_engine.strategies.len(), 4);
    assert_eq!(app.get_current_token_id(), None);
}

#[test]
fn filters_follow_the_query() {
    let mut app = catalog();
    assert_eq!(app.filtered_markets, vec![0, 1, 2]);
    // Events with a single market are left out.
    assert_eq!(app.filtered_events, vec![0, 2]);
    app.toggle_search_mode();
    assert!(app.search_mode);
    type_text(&mut app, "RAIN");
    assert_eq!(app.search_query, vec!['R', 'A', 'I', 'N']);
    assert_eq!(app.filtered_markets, vec![1]);
    assert_eq!(app.filtered_events, vec![2]);
    assert_eq!(app.selected_market, 0);
    app.handle_key_input(Key::Backspace, 0);
    app.handle_key_input(Key::Backspace, 0);
    app.handle_key_input(Key::Backspace, 0);
    assert_eq!(app.search_query, vec!['R']);
    assert_eq!(app.filtered_markets, vec![0, 1]);
    type_text(&mut app, "zzz");
    assert!(app.filtered_markets.is_empty());
    assert!(app.filtered_events.is_empty());
    app.handle_key_input(Key::Esc, 0);
    assert!(!app.search_mode);
    assert!(app.search_query.is_empty());
    assert_eq!(app.filtered_markets, vec![0, 1, 2]);
    app.remove_search_char();
    assert!(app.search_query.is_empty());
    app.add_search_char('w');
    assert_eq!(app.filtered_markets, vec![0, 1, 2]);
    assert_eq!(app.filtered_events, vec![0, 2]);
    app.add_search_char('h');
    assert_eq!(app.filtered_markets, vec![2]);
    assert_eq!(app.filtered_events, vec![0]);
    app.clear_search();
    assert_eq!(app.filtered_events, vec![0, 2]);
}

#[test]
fn letters_are_commands_outside_of_search() {
    let mut app = catalog();
    assert_eq!(app.key_action(Key::Char('q')), KeyAction::Quit);
    assert_eq!(app.handle_key_input(Key::Char('q'), 0), InputOutcome::Exit);
    assert_eq!(app.key_action(Key::Char('/')), KeyAction::ToggleSearch);
    app.handle_key_input(Key::Char('/'), 0);
    assert!(app.search_mode);
    for c in ['q', 'm', 'r', '/', 's', 'a', 'p', 'h', 'l', 'x'] {
        assert_eq!(app.key_action(Key::Char(c)), KeyAction::Type(c));
    }
    assert_eq!(app.key_action(Key::Left), KeyAction::Nothing);
    assert_eq!(app.key_action(Key::Right), KeyAction::Nothing);
    assert_eq!(app.handle_key_input(Key::Char('q'), 0), InputOutcome::Continue);
    assert_eq!(app.search_query, vec!['q']);
    app.handle_key_input(Key::Esc, 0);
    assert_eq!(app.key_action(Key::Char('x')), KeyAction::Nothing);
    assert_eq!(app.key_action(Key::Other), KeyAction::Nothing);
    assert_eq!(app.key_action(Key::Esc), KeyAction::Nothing);
    assert_eq!(app.key_action(Key::Char('r')), KeyAction::Nothing);
    assert_eq!(app.key_action(Key::Char('p')), KeyAction::Nothing);
}

#[test]
fn a_token_is_picked_through_the_markets() {
    let mut app = catalog();
    app.handle_key_input(Key::Down, 0);
    app.handle_key_input(Key::Down, 0);
    assert_eq!(app.selected_market, 2);
    app.handle_key_input(Key::Down, 0);
    assert_eq!(app.selected_market, 0);
    app.handle_key_input(Key::Up, 0);
    assert_eq!(app.selected_market, 2);
    app.handle_key_input(Key::PageUp, 0);
    assert_eq!(app.selected_market, 0);
    app.handle_key_input(Key::PageDown, 0);
    assert_eq!(app.selected_market, 2);
    assert_eq!(app.handle_key_input(Key::Enter, 0), InputOutcome::Continue);
    assert!(!app.show_market_selector);
    assert!(app.show_token_selector);
    assert_eq!(app.selected_token, 0);
    app.handle_key_input(Key::Up, 0);
    assert_eq!(app.selected_token, 2);
    app.handle_key_input(Key::Down, 0);
    app.handle_key_input(Key::Down, 0);
    assert_eq!(app.selected_token, 1);
    assert_eq!(app.get_current_token_id(), Some(String::from("w-b")));
    app.needs_redraw = false;
    assert_eq!(
        app.handle_key_input(Key::Enter, 0),
        InputOutcome::Load { token_id: String::from("w-b"), start_stream: true }
    );
    assert!(!app.show_token_selector);
    assert!(app.needs_redraw);
    // With the book on display the arrows change the tab.
    app.handle_key_input(Key::Right, 0);
    assert!(app.selected_tab == SelectedTab::PriceHistory);
    app.handle_key_input(Key::Char('h'), 0);
    assert!(app.selected_tab == SelectedTab::Orderbook);
    assert_eq!(app.handle_key_input(Key::Enter, 0), InputOutcome::Continue);
    app.handle_key_input(Key::Char('m'), 0);
    assert!(app.show_market_selector);
}

#[test]
fn a_token_is_picked_through_the_events() {
    let mut app = catalog();
    app.handle_key_input(Key::Right, 0);
    assert!(app.market_selector_tab == MarketSelectorTab::Events);
    app.handle_key_input(Key::Down, 0);
    assert_eq!(app.selected_event, 1);
    app.handle_key_input(Key::Down, 0);
    assert_eq!(app.selected_event, 0);
    app.handle_key_input(Key::Enter, 0);
    assert!(app.show_event_market_selector);
    assert!(!app.show_market_selector);
    app.handle_key_input(Key::Down, 0);
    assert_eq!(app.selected_market, 1);
    app.handle_key_input(Key::Down, 0);
    assert_eq!(app.selected_market, 0);
    assert_eq!(app.get_current_event_market_token_id(), Some(String::from("a-yes")));
    app.handle_key_input(Key::Enter, 0);
    assert!(app.show_token_selector);
    assert!(!app.show_event_market_selector);
    app.handle_key_input(Key::Down, 0);
    assert_eq!(app.selected_token, 1);
    assert_eq!(
        app.handle_key_input(Key::Enter, 0),
        InputOutcome::Load { token_id: String::from("a-no"), start_stream: true }
    );
    // Backspace walks the same way back.
    app.show_token_selector = true;
    app.handle_key_input(Key::Backspace, 0);
    assert!(app.show_event_market_selector && !app.show_token_selector);
    app.handle_key_input(Key::Backspace, 0);
    assert!(app.show_market_selector && !app.show_event_market_selector);
}

#[test]
fn the_book_on_display_is_fetched_again_on_request() {
    let mut app = catalog();
    app.show_market_selector = false;
    app.install_orderbook(book("b-yes", "Will Bitcoin rise? - Yes"), 10);
    app.needs_redraw = false;
    assert_eq!(
        app.handle_key_input(Key::Char('r'), 20),
        InputOutcome::Load { token_id: String::from("b-yes"), start_stream: false }
    );
    assert!(app.needs_redraw);
}

#[test]
fn strategies_are_driven_by_keys() {
    let mut app = catalog();
    app.handle_key_input(Key::Char('s'), 0);
    assert!(app.show_strategy_selector);
    assert!(app.market_selector_tab == MarketSelectorTab::Strategies);
    app.handle_key_input(Key::Down, 0);
    assert_eq!(app.selected_strategy, 1);
    assert_eq!(app.get_current_strategy_type(), Some(StrategyType::PriceAnomaly));
    app.handle_key_input(Key::Enter, 0);
    assert!(app.show_strategy_runner);
    assert!(!app.show_strategy_selector);
    assert_eq!(app.bot_engine.active_strategy, Some(StrategyType::PriceAnomaly));
    // Pick a market for it.
    app.handle_key_input(Key::Char('p'), 0);
    assert!(app.strategy_selection_mode);
    assert!(app.market_selector_tab == MarketSelectorTab::AllMarkets);
    assert!(!app.show_strategy_runner);
    app.handle_key_input(Key::Down, 0);
    app.handle_key_input(Key::Enter, 0);
    assert!(app.show_strategy_runner);
    assert!(!app.strategy_selection_mode);
    {
        let s = app.bot_engine.get_strategy(&StrategyType::PriceAnomaly).unwrap();
        assert_eq!(s.selected_market_ids, vec!["r-yes"]);
        assert_eq!(s.selected_market_names, vec!["Will it rain?"]);
    }
    // Start and stop it.
    app.handle_key_input(Key::Char('s'), 100);
    assert_eq!(
        app.bot_engine.get_strategy(&StrategyType::PriceAnomaly).unwrap().status,
        StrategyStatus::Running
    );
    assert_eq!(app.status_message, Some(String::from("Started strategy: Price Anomaly Scanner")));
    assert_eq!(app.status_message_time, Some(100));
    app.handle_key_input(Key::Char('s'), 200);
    assert_eq!(
        app.bot_engine.get_strategy(&StrategyType::PriceAnomaly).unwrap().status,
        StrategyStatus::Stopped
    );
    assert_eq!(app.status_message, Some(String::from("Stopped strategy: Price Anomaly Scanner")));
    // With a book on display its token is added.
    app.install_orderbook(book("unknown-token-id", "q"), 300);
    app.handle_key_input(Key::Char('a'), 300);
    {
        let s = app.bot_engine.get_strategy(&StrategyType::PriceAnomaly).unwrap();
        assert_eq!(s.selected_market_ids, vec!["r-yes", "unknown-token-id"]);
        assert_eq!(s.selected_market_names, vec!["Will it rain?", "Market unknown-"]);
    }
    app.handle_key_input(Key::Backspace, 300);
    assert!(app.show_strategy_selector && !app.show_strategy_runner);
    assert_eq!(app.bot_engine.active_strategy, None);
    app.handle_key_input(Key::Backspace, 300);
    assert!(app.market_selector_tab == MarketSelectorTab::AllMarkets);
    assert!(!app.show_strategy_selector);
}

#[test]
fn an_event_brings_its_markets_as_legs() {
    let mut app = catalog();
    app.handle_key_input(Key::Char('s'), 0);
    app.handle_key_input(Key::Enter, 0);
    assert_eq!(app.bot_engine.active_strategy, Some(StrategyType::ArbitrageDetector));
    app.handle_key_input(Key::Char('p'), 0);
    assert!(app.market_selector_tab == MarketSelectorTab::Events);
    app.handle_key_input(Key::Enter, 50);
    assert!(app.show_strategy_runner);
    let s = app.bot_engine.get_strategy(&StrategyType::ArbitrageDetector).unwrap();
    assert_eq!(s.selected_event_ids, vec!["e1"]);
    assert_eq!(s.selected_event_names, vec!["Election"]);
    assert_eq!(s.selected_market_ids, vec!["a-yes", "a-no", "c-yes"]);
    assert_eq!(s.selected_market_names, vec!["Candidate A", "Candidate A", "Candidate B"]);
    assert_eq!(
        app.status_message,
        Some(String::from("Added event 'Election' with 3 markets to Arbitrage Detector"))
    );
    assert_eq!(app.status_message_time, Some(50));
    // A strategy on markets takes no event.
    let mut other = catalog();
    other.selected_strategy = 2;
    other.add_current_event_to_strategy(1);
    assert_eq!(other.status_message, None);
    assert!(other.bot_engine.get_strategy(&StrategyType::VolumeSpike).unwrap().selected_event_ids.is_empty());
    other.selected_strategy = 9;
    assert_eq!(other.get_current_strategy_type(), None);
    other.start_current_strategy(1);
    assert_eq!(other.status_message, None);
}

#[test]
fn status_messages_go_after_three_seconds() {
    let mut app = catalog();
    app.set_status_message(String::from("hello"), 1_000);
    app.needs_redraw = false;
    app.clear_old_status_message(4_000);
    assert_eq!(app.status_message, Some(String::from("hello")));
    assert!(!app.needs_redraw);
    app.clear_old_status_message(4_001);
    assert_eq!(app.status_message, None);
    assert_eq!(app.status_message_time, None);
    assert!(app.needs_redraw);
}

#[test]
fn the_cycle_looks_at_the_connection() {
    let policy = ReconnectPolicy { max_attempts: 20, delay_ms: 10_000 };
    let mut app = catalog();
    assert_eq!(app.begin_cycle(&policy, false, 10), CycleStart::Skip);
    assert_eq!(app.begin_cycle(&policy, true, 50), CycleStart::Drain { start_worker: false });
    assert_eq!(app.last_websocket_check, 50);
    app.install_orderbook(book("b-yes", "Will Bitcoin rise? - Yes"), 60);
    app.start_websocket_for_token();
    assert_eq!(app.connection.status, ConnectionStatus::Live);
    assert_eq!(app.begin_cycle(&policy, false, 100), CycleStart::Drain { start_worker: false });
    // The worker died, but the last attempt is too recent.
    assert_eq!(app.begin_cycle(&policy, true, 5_000), CycleStart::Drain { start_worker: false });
    assert_eq!(app.connection.status, ConnectionStatus::Dead);
    assert_eq!(app.begin_cycle(&policy, true, 10_000), CycleStart::Drain { start_worker: true });
    assert_eq!(app.connection.status, ConnectionStatus::Live);
    assert_eq!(app.connection.reconnect_attempts, 1);
    app.reset_websocket_reconnect_counter();
    assert_eq!(app.connection.reconnect_attempts, 0);
    assert!(!app.try_reconnect_websocket(&policy, 10_001));
    assert!(app.try_reconnect_websocket(&policy, 20_000));
}

#[test]
fn the_cycle_applies_updates_and_polls() {
    let mut app = catalog();
    let tick = PolymarketWebSocketMessage::TickSizeChange(TickSizeChangeMessage {
        event_type: String::from("tick_size_change"),
        asset_id: String::from("b-yes"),
        market: String::new(),
        timestamp: String::new(),
        old_tick_size: String::from("0.0001"),
        new_tick_size: String::from("0.01"),
    });
    app.apply_updates(&vec![tick.clone()], 10);
    assert_eq!(app.orderbook, None);
    app.install_orderbook(book("b-yes", "Will Bitcoin rise? - Yes"), 0);
    app.needs_redraw = false;
    app.apply_updates(&Vec::new(), 10);
    assert!(!app.needs_redraw);
    app.apply_updates(&vec![tick], 10);
    assert!(app.needs_redraw);
    assert_eq!(app.orderbook.as_ref().unwrap().tick_size, 10_000);
    // No stream is live, so the book is polled once the interval is over.
    assert!(!app.should_update_orderbook_via_api(99));
    assert_eq!(app.plan_poll(99), None);
    assert!(app.should_update_orderbook_via_api(100));
    assert_eq!(app.plan_poll(100), Some(String::from("b-yes")));
    assert_eq!(app.last_orderbook_update, 100);
    assert_eq!(app.plan_poll(150), None);
    app.start_websocket_for_token();
    assert_eq!(app.plan_poll(1_000), None);
    // The history takes a point a minute.
    assert!(!app.should_update_price_history(59_999));
    app.update_price_history_if_needed(59_999);
    assert!(app.orderbook.as_ref().unwrap().price_history.points.is_empty());
    app.update_price_history_if_needed(60_000);
    assert_eq!(app.orderbook.as_ref().unwrap().price_history.current_price(), Some(500_000));
    assert_eq!(app.last_price_history_update, 60_000);
    app.orderbook.as_mut().unwrap().bids[0].change_timestamp = Some(0);
    app.clear_expired_highlights(1_000);
    assert_eq!(app.orderbook.as_ref().unwrap().bids[0].change_timestamp, None);
    app.report_load_error(String::from("no luck"));
    assert_eq!(app.error_message, Some(String::from("no luck")));
}

#[test]
fn reference_feeds_follow_the_market() {
    let mut app = catalog();
    let none = app.plan_crypto_feeds();
    assert!(none.start.is_empty() && none.stop.is_empty());
    app.install_orderbook(book("b-yes", "Will Bitcoin rise? - Yes"), 0);
    let first = app.plan_crypto_feeds();
    assert_eq!(first.start, vec![CryptoSymbol::Bitcoin]);
    assert!(first.stop.is_empty());
    assert_eq!(app.crypto_websocket_active, vec![CryptoSymbol::Bitcoin]);
    let again = app.plan_crypto_feeds();
    assert!(again.start.is_empty() && again.stop.is_empty());
    app.install_orderbook(book("e", "Will ETH flip?"), 0);
    let switched = app.plan_crypto_feeds();
    assert_eq!(switched.stop, vec![CryptoSymbol::Bitcoin]);
    assert_eq!(switched.start, vec![CryptoSymbol::Ethereum]);
    assert_eq!(app.crypto_websocket_active, vec![CryptoSymbol::Ethereum]);
    app.install_orderbook(book("r", "Will it rain?"), 0);
    let stopped = app.plan_crypto_feeds();
    assert_eq!(stopped.stop, vec![CryptoSymbol::Ethereum]);
    assert!(stopped.start.is_empty());
    assert!(app.crypto_websocket_active.is_empty());
}

#[test]
fn strategies_see_the_book_on_display() {
    let mut app = catalog();
    app.selected_strategy = 1;
    app.install_orderbook(book("b-yes", "Will Bitcoin rise? - Yes"), 0);
    app.add_current_market_to_strategy();
    app.start_current_strategy(5);
    app.run_strategies(10);
    let s = app.bot_engine.get_strategy(&StrategyType::PriceAnomaly).unwrap();
    assert_eq!(s.selected_market_names, vec!["Will Bitcoin rise?"]);
    assert_eq!(s.run_count, 1);
    assert_eq!(s.alerts.len(), 1);
    assert_eq!(s.alerts[0].message, "Wide spread detected: 20.00% at midpoint 0.5000");
    assert_eq!(app.get_available_strategies().len(), 4);
}

#[test]
fn the_catalog_is_complete_after_a_short_page() {
    assert!(catalog_complete(499, 499));
    assert!(catalog_complete(0, 1_000));
    assert!(!catalog_complete(500, 500));
    assert!(!catalog_complete(500, 4_999));
    assert!(catalog_complete(500, 5_000));
    assert!(catalog_complete(500, 5_500));
}

#[test]
fn markets_that_are_no_longer_traded_are_pruned() {
    let mut closed = market("Closed", &[("c", "Yes")]);
    closed.closed = true;
    let mut inactive = market("Inactive", &[("i", "Yes")]);
    inactive.active = false;
    let mut resolved = market("Resolved", &[("r", "Yes")]);
    resolved.resolved = true;
    let open = market("Open", &[("o", "Yes")]);
    assert_eq!(
        keep_open(&vec![closed.clone(), open.clone(), inactive.clone(), resolved.clone(), open.clone()]),
        vec![open.clone(), open.clone()]
    );
    let event = |id: &str, markets: Vec<MarketInfo>| EventInfo {
        id: String::from(id),
        title: String::from(id),
        description: String::new(),
        markets,
    };
    let events = vec![
        event("gone", vec![closed.clone(), inactive.clone()]),
        event("mixed", vec![closed.clone(), open.clone(), resolved.clone()]),
        event("empty", Vec::new()),
        event("fine", vec![open.clone(), open.clone()]),
    ];
    assert_eq!(
        prune_empty_events(&events),
        vec![event("mixed", vec![open.clone()]), event("fine", vec![open.clone(), open.clone()])]
    );
    assert_eq!(prune_empty_events(&Vec::new()), Vec::new());
    assert_eq!(open.duplicate(), open);
}

#[test]
fn a_new_catalog_resets_what_no_longer_fits() {
    let mut app = catalog();
    app.selected_market = 2;
    app.market_scroll_offset = 1;
    app.selected_event = 1;
    app.error_message = Some(String::from("old"));
    let events = app.events.clone();
    let markets = vec![app.markets[0].clone(), app.markets[1].clone()];
    app.install_catalog(events, markets);
    assert_eq!(app.filtered_markets, vec![0, 1]);
    assert_eq!(app.filtered_events, vec![0, 2]);
    assert_eq!(app.selected_market, 0);
    assert_eq!(app.market_scroll_offset, 0);
    assert_eq!(app.selected_event, 1);
    assert_eq!(app.error_message, None);
    app.install_catalog(Vec::new(), Vec::new());
    assert!(app.filtered_markets.is_empty());
    assert_eq!(app.selected_event, 0);
}

#[test]
fn a_session_knows_whether_it_is_well_formed() {
    let mut app = catalog();
    assert!(app.is_wf());
    app.filtered_markets.push(3);
    assert!(!app.is_wf());
    app.filtered_markets.pop();
    app.filtered_events.push(7);
    assert!(!app.is_wf());
    app.filtered_events.pop();
    assert!(app.is_wf());
    app.bot_engine.strategies.swap(0, 1);
    assert!(!app.bot_engine.is_wf());
    assert!(!app.is_wf());
    app.bot_engine.strategies.swap(0, 1);
    app.bot_engine.strategies.pop();
    assert!(!app.is_wf());
}

#[test]
fn a_round_drains_the_inbox() {
    let policy = ReconnectPolicy { max_attempts: 20, delay_ms: 10_000 };
    let mut app = catalog();
    app.install_orderbook(book("b-yes", "Will Bitcoin rise? - Yes"), 0);
    app.start_websocket_for_token();
    let tick = |size: &str| {
        PolymarketWebSocketMessage::TickSizeChange(TickSizeChangeMessage {
            event_type: String::from("tick_size_change"),
            asset_id: String::from("b-yes"),
            market: String::new(),
            timestamp: String::new(),
            old_tick_size: String::from("0.0001"),
            new_tick_size: String::from(size),
        })
    };
    let mut inbox = Inbox::new();
    inbox.push(tick("0.01"));
    inbox.push(tick("0.001"));
    // Too soon after the last round: nothing is touched.
    assert!(!process_websocket_updates(&mut app, &mut inbox, &policy, false, 49));
    assert_eq!(inbox.len(), 2);
    assert_eq!(app.orderbook.as_ref().unwrap().tick_size, 100);
    assert!(!process_websocket_updates(&mut app, &mut inbox, &policy, false, 50));
    assert_eq!(inbox.len(), 0);
    assert_eq!(app.orderbook.as_ref().unwrap().tick_size, 1_000);
    assert_eq!(app.last_websocket_check, 50);
    // The worker died long after the last attempt: a new one is asked for.
    inbox.push(tick("0.1"));
    assert!(process_websocket_updates(&mut app, &mut inbox, &policy, true, 20_000));
    assert_eq!(app.connection.reconnect_attempts, 1);
    assert_eq!(app.orderbook.as_ref().unwrap().tick_size, 100_000);
}

#[test]
fn the_history_takes_the_weighted_midpoint() {
    let mut app = catalog();
    let mut thin_bid = OrderBookData::new(String::from("b-yes"), String::from("q"), 100, 500, 0);
    thin_bid.bids.push(SimpleOrder::new_at(520_000, 80_000_000, 0));
    thin_bid.asks.push(SimpleOrder::new_at(550_000, 100_000_000, 0));
    app.install_orderbook(thin_bid, 0);
    app.update_price_history_if_needed(60_000);
    let book = app.orderbook.as_ref().unwrap();
    assert_eq!(book.get_weighted_midpoint(), 533_333);
    assert_eq!(book.get_midpoint(), 535_000);
    assert_eq!(book.price_history.current_price(), Some(533_333));
}
