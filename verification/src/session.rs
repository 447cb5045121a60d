//! The state of one viewing session: the catalog, what is selected in it,
//! the book on display, and the timers of the update cycle. Everything
//! here is plain data; connections and the terminal live outside.

pub mod catalog;
pub mod input;
pub mod navigation;
pub mod search;
pub mod strategies;
pub mod updates;

use crate::bot::engine::{engine_wf, BotEngine};
use crate::clock::{elapsed_ms, elapsed_spec};
use crate::config::PRICE_HISTORY_UPDATE_INTERVAL_MS;
use crate::data::{EventInfo, MarketInfo, OrderBookData};
use crate::types::{MarketSelectorTab, SelectedTab};
use crate::websocket::connection::{ConnectionState, ConnectionStatus};
use crate::websocket::crypto::CryptoSymbol;
use vstd::prelude::*;

verus! {

/// A status message is shown this long, in milliseconds.
pub const STATUS_MESSAGE_MS: u64 = 3000;

/// Entries that a page key moves over.
pub const PAGE_SIZE: usize = 10;

/// The session.
#[derive(Debug, Clone, PartialEq, Eq)]
pub struct App {
    // The book on display and the catalog.
    pub orderbook: Option<OrderBookData>,
    pub markets: Vec<MarketInfo>,
    pub events: Vec<EventInfo>,
    // Which entries of the catalog pass the search, and what is selected.
    pub filtered_markets: Vec<usize>,
    pub filtered_events: Vec<usize>,
    pub selected_market: usize,
    pub selected_event: usize,
    pub selected_token: usize,
    // What is on screen.
    pub market_scroll_offset: usize,
    pub event_scroll_offset: usize,
    pub token_scroll_offset: usize,
    pub show_market_selector: bool,
    pub show_event_market_selector: bool,
    pub show_token_selector: bool,
    pub market_selector_tab: MarketSelectorTab,
    pub needs_redraw: bool,
    pub selected_tab: SelectedTab,
    // Search and messages.
    pub search_query: Vec<char>,
    pub search_mode: bool,
    pub error_message: Option<String>,
    pub status_message: Option<String>,
    pub status_message_time: Option<i64>,
    // Timers of the update cycle, in milliseconds.
    pub last_update: i64,
    pub last_orderbook_update: i64,
    pub update_interval_ms: u64,
    pub depth: usize,
    pub last_price_history_update: i64,
    pub price_history_update_interval_ms: u64,
    // The streaming connection of the book on display.
    pub connection: ConnectionState,
    pub last_websocket_check: i64,
    // Reference-price feeds that are running.
    pub crypto_websocket_active: Vec<CryptoSymbol>,
    // Strategies.
    pub bot_engine: BotEngine,
    pub show_strategy_selector: bool,
    pub show_strategy_runner: bool,
    pub selected_strategy: usize,
    pub strategy_selection_mode: bool,
}

/// The entry after `i` in a list of `len`, around the end.
pub open spec fn next_index(i: int, len: int) -> int {
    (i + 1) % len
}

/// The entry before `i` in a list of `len`, around the start.
pub open spec fn previous_index(i: int, len: int) -> int {
    if i == 0 {
        len - 1
    } else {
        i - 1
    }
}

/// The entry a page below `i` in a list of `len`, at most the last.
pub open spec fn page_down_index(i: int, len: int) -> int {
    if i + PAGE_SIZE <= len - 1 {
        i + PAGE_SIZE
    } else {
        len - 1
    }
}

/// The entry a page above `i`, at least the first.
pub open spec fn page_up_index(i: int) -> int {
    if i >= PAGE_SIZE {
        i - PAGE_SIZE
    } else {
        0
    }
}

pub fn cycle_next(i: usize, len: usize) -> (r: usize)
    requires
        len > 0,
    ensures
        r == next_index(i as int, len as int),
{
    let j = i % len;
    proof {
        let n = len as int;
        let q = i as int / n;
        vstd::arithmetic::div_mod::lemma_fundamental_div_mod(i as int, n);
        // i + 1 == n * q + (j + 1)
        if j + 1 == len {
            assert(i + 1 == n * (q + 1)) by (nonlinear_arith)
                requires
                    i == n * q + j,
                    j + 1 == n,
            ;
            vstd::arithmetic::div_mod::lemma_mod_multiples_basic(q + 1, n);
            assert(n * (q + 1) == (q + 1) * n) by (nonlinear_arith);
        } else {
            vstd::arithmetic::div_mod::lemma_mod_multiples_vanish(q, j + 1, n);
            vstd::arithmetic::div_mod::lemma_small_mod((j + 1) as nat, n as nat);
            assert(n * q + (j + 1) == q * n + (j + 1)) by (nonlinear_arith);
        }
    }
    if j + 1 == len {
        0
    } else {
        j + 1
    }
}

pub fn cycle_previous(i: usize, len: usize) -> (r: usize)
    requires
        len > 0,
    ensures
        r == previous_index(i as int, len as int),
{
    if i == 0 {
        len - 1
    } else {
        i - 1
    }
}

pub fn page_down(i: usize, len: usize) -> (r: usize)
    requires
        len > 0,
    ensures
        r == page_down_index(i as int, len as int),
{
    if i <= len - 1 && len - 1 - i >= PAGE_SIZE {
        i + PAGE_SIZE
    } else {
        len - 1
    }
}

pub fn page_up(i: usize) -> (r: usize)
    ensures
        r == page_up_index(i as int),
{
    if i >= PAGE_SIZE {
        i - PAGE_SIZE
    } else {
        0
    }
}

/// The entries of a list of `total` that are on screen when `selected` is
/// the selected one and `height` entries fit: the first shown and the one
/// after the last shown. The list scrolls just far enough for the
/// selected entry to be the last one shown. At least one entry must fit.
pub open spec fn scroll_window_spec(selected: usize, height: usize, total: usize) -> (int, int) {
    let start = if selected >= height {
        selected - height + 1
    } else {
        0
    };
    (
        start,
        if start + height <= total {
            start + height
        } else {
            total as int
        },
    )
}

pub fn scroll_window(selected: usize, height: usize, total: usize) -> (r: (usize, usize))
    requires
        height > 0,
    ensures
        (r.0 as int, r.1 as int) == scroll_window_spec(selected, height, total),
{
    let start = if selected >= height {
        selected - height + 1
    } else {
        0
    };
    let end = if start <= total && total - start >= height {
        start + height
    } else {
        total
    };
    (start, end)
}

impl App {
    /// The filter lists point into the catalog, and the engine holds one
    /// strategy of every kind.
    pub open spec fn wf(&self) -> bool {
        &&& forall|i: int|
            0 <= i < self.filtered_markets@.len() ==> #[trigger] self.filtered_markets@[i]
                < self.markets@.len()
        &&& forall|i: int|
            0 <= i < self.filtered_events@.len() ==> #[trigger] self.filtered_events@[i]
                < self.events@.len()
        &&& engine_wf(self.bot_engine@)
    }

    /// The position in the catalog of the selected market, where the
    /// selection points at an entry of the filter list.
    pub open spec fn current_market(&self) -> Option<int> {
        if self.selected_market < self.filtered_markets@.len() {
            Some(self.filtered_markets@[self.selected_market as int] as int)
        } else {
            None
        }
    }

    /// The position in the catalog of the selected event.
    pub open spec fn current_event(&self) -> Option<int> {
        if self.selected_event < self.filtered_events@.len() {
            Some(self.filtered_events@[self.selected_event as int] as int)
        } else {
            None
        }
    }

    /// The market selected under the selected event.
    pub open spec fn current_event_market(&self) -> Option<MarketInfo> {
        match self.current_event() {
            Some(e) if e < self.events@.len() && self.selected_market
                < self.events@[e].markets@.len() => Some(
                self.events@[e].markets@[self.selected_market as int],
            ),
            _ => None,
        }
    }

    /// Whether the session is well-formed; see [`App::wf`].
    pub fn is_wf(&self) -> (r: bool)
        ensures
            r == self.wf(),
    {
        let mut i: usize = 0;
        while i < self.filtered_markets.len()
            invariant
                i <= self.filtered_markets.len(),
                forall|j: int|
                    0 <= j < i ==> #[trigger] self.filtered_markets@[j] < self.markets@.len(),
            decreases self.filtered_markets.len() - i,
        {
            if self.filtered_markets[i] >= self.markets.len() {
                return false;
            }
            i = i + 1;
        }
        let mut k: usize = 0;
        while k < self.filtered_events.len()
            invariant
                k <= self.filtered_events.len(),
                forall|j: int|
                    0 <= j < self.filtered_markets@.len() ==> #[trigger] self.filtered_markets@[j]
                        < self.markets@.len(),
                forall|j: int|
                    0 <= j < k ==> #[trigger] self.filtered_events@[j] < self.events@.len(),
            decreases self.filtered_events.len() - k,
        {
            if self.filtered_events[k] >= self.events.len() {
                return false;
            }
            k = k + 1;
        }
        self.bot_engine.is_wf()
    }

    /// The characters of the status message, where there is one.
    pub open spec fn status_text(&self) -> Option<Seq<char>> {
        match self.status_message {
            Some(m) => Some(m@),
            None => None,
        }
    }

    /// A session that starts at `now` with an empty catalog and the market
    /// selector open.
    pub fn new(update_interval_ms: u64, depth: usize, now: i64) -> (r: Self)
        ensures
            r.wf(),
            r.orderbook is None,
            r.markets@.len() == 0,
            r.events@.len() == 0,
            r.filtered_markets@.len() == 0,
            r.filtered_events@.len() == 0,
            r.selected_market == 0 && r.selected_event == 0 && r.selected_token == 0,
            r.market_scroll_offset == 0 && r.event_scroll_offset == 0 && r.token_scroll_offset
                == 0,
            r.show_market_selector && !r.show_event_market_selector && !r.show_token_selector,
            r.market_selector_tab == MarketSelectorTab::AllMarkets,
            r.selected_tab == SelectedTab::Orderbook,
            r.needs_redraw,
            r.search_query@.len() == 0 && !r.search_mode,
            r.error_message is None && r.status_message is None && r.status_message_time is None,
            r.update_interval_ms == update_interval_ms && r.depth == depth,
            r.last_update == now && r.last_orderbook_update == now && r.last_websocket_check
                == now && r.last_price_history_update == now,
            r.price_history_update_interval_ms == PRICE_HISTORY_UPDATE_INTERVAL_MS,
            r.connection == (ConnectionState {
                status: ConnectionStatus::Idle,
                reconnect_attempts: 0,
                last_attempt_time: now,
            }),
            r.crypto_websocket_active@.len() == 0,
            r.bot_engine@ == BotEngine::new_model(),
            !r.show_strategy_selector && !r.show_strategy_runner && !r.strategy_selection_mode,
            r.selected_strategy == 0,
    {
        App {
            orderbook: None,
            markets: Vec::new(),
            events: Vec::new(),
            filtered_markets: Vec::new(),
            filtered_events: Vec::new(),
            selected_market: 0,
            selected_event: 0,
            selected_token: 0,
            market_scroll_offset: 0,
            event_scroll_offset: 0,
            token_scroll_offset: 0,
            show_market_selector: true,
            show_event_market_selector: false,
            show_token_selector: false,
            market_selector_tab: MarketSelectorTab::AllMarkets,
            needs_redraw: true,
            selected_tab: SelectedTab::Orderbook,
            search_query: Vec::new(),
            search_mode: false,
            error_message: None,
            status_message: None,
            status_message_time: None,
            last_update: now,
            last_orderbook_update: now,
            update_interval_ms,
            depth,
            last_price_history_update: now,
            price_history_update_interval_ms: PRICE_HISTORY_UPDATE_INTERVAL_MS,
            connection: ConnectionState::new(now),
            last_websocket_check: now,
            crypto_websocket_active: Vec::new(),
            bot_engine: BotEngine::new(),
            show_strategy_selector: false,
            show_strategy_runner: false,
            selected_strategy: 0,
            strategy_selection_mode: false,
        }
    }

    /// How the session is left by [`App::set_status_message`].
    pub open spec fn set_status_message_done(
        before: App,
        after: App,
        message: String,
        now: i64,
    ) -> bool {
        &&& after.status_text() == Some(message@)
        &&& after == (App {
            status_message: Some(message),
            status_message_time: Some(now),
            needs_redraw: true,
            ..before
        })
    }

    /// Shows `message` as the status, from `now` on.
    pub fn set_status_message(&mut self, message: String, now: i64)
        ensures
            Self::set_status_message_done(*old(self), *final(self), message, now),
    {
        self.status_message = Some(message);
        self.status_message_time = Some(now);
        self.needs_redraw = true;
    }

    /// How the session is left by [`App::clear_old_status_message`].
    pub open spec fn clear_old_status_message_done(before: App, after: App, now: i64) -> bool {
        after == match before.status_message_time {
            Some(t) if elapsed_spec(now, t) > STATUS_MESSAGE_MS => App {
                status_message: None,
                status_message_time: None,
                needs_redraw: true,
                ..before
            },
            _ => before,
        }
    }

    /// Takes the status message away once it has been shown for more than
    /// three seconds.
    pub fn clear_old_status_message(&mut self, now: i64)
        ensures
            Self::clear_old_status_message_done(*old(self), *final(self), now),
    {
        if let Some(t) = self.status_message_time {
            if elapsed_ms(now, t) > STATUS_MESSAGE_MS {
                self.status_message = None;
                self.status_message_time = None;
                self.needs_redraw = true;
            }
        }
    }

    /// How the session is left by [`App::reset_websocket_reconnect_counter`].
    pub open spec fn reset_websocket_reconnect_counter_done(before: App, after: App) -> bool {
        after == (App {
            connection: ConnectionState { reconnect_attempts: 0, ..before.connection },
            ..before
        })
    }

    /// Sets the count of reconnection attempts back to 0.
    pub fn reset_websocket_reconnect_counter(&mut self)
        ensures
            Self::reset_websocket_reconnect_counter_done(*old(self), *final(self)),
    {
        self.connection.reset_websocket_reconnect_counter();
    }
}

} // verus!
