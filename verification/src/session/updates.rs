//! The update cycle: what the consumer loop does on each round, between the
//! pieces of work that are done outside (draining the inbox, fetching a
//! book, starting a worker).

use crate::book::{any_about, cleared_levels, events_spec};
use crate::bot::engine::engine_process_spec;
use crate::clock::{elapsed_spec, is_due};
use crate::config::HEALTH_CHECK_INTERVAL_MS;
use crate::data::{add_price_spec, BookModel, OrderBookData};
use crate::stats::weighted_midpoint_spec;
use crate::session::App;
use crate::websocket::clob::{messages_view, MessageModel, PolymarketWebSocketMessage};
use crate::websocket::connection::{
    health_check_spec,
    health_check_starts,
    ConnectionState,
    Inbox,
    ConnectionStatus,
    ReconnectPolicy,
    SupervisorAction,
};
use crate::websocket::crypto::{relevant_crypto_symbol, symbol_of_question, CryptoSymbol};
use vstd::prelude::*;

verus! {

/// How a round of the cycle starts.
#[derive(Debug, Clone, Copy, PartialEq, Eq, Structural)]
pub enum CycleStart {
    /// The last round was less than 50 ms ago: nothing is looked at.
    Skip,
    /// The inbox is to be drained; where `start_worker` is set, a new
    /// worker is to be started for the book on display first.
    Drain { start_worker: bool },
}

/// Which reference-price feeds are to be stopped and started.
#[derive(Debug, Clone, PartialEq, Eq)]
pub struct CryptoPlan {
    pub stop: Vec<CryptoSymbol>,
    pub start: Vec<CryptoSymbol>,
}

/// The symbols of `active` that are not `wanted`.
pub open spec fn unwanted(active: Seq<CryptoSymbol>, wanted: Option<CryptoSymbol>) -> Seq<
    CryptoSymbol,
>
    decreases active.len(),
{
    if active.len() == 0 {
        active
    } else if Some(active.last()) == wanted {
        unwanted(active.drop_last(), wanted)
    } else {
        unwanted(active.drop_last(), wanted).push(active.last())
    }
}

/// The symbols of `active` that are `wanted`.
pub open spec fn kept(active: Seq<CryptoSymbol>, wanted: Option<CryptoSymbol>) -> Seq<CryptoSymbol>
    decreases active.len(),
{
    if active.len() == 0 {
        active
    } else if Some(active.last()) == wanted {
        kept(active.drop_last(), wanted).push(active.last())
    } else {
        kept(active.drop_last(), wanted)
    }
}

/// The symbol to start: the wanted one, unless it is active already.
pub open spec fn missing(active: Seq<CryptoSymbol>, wanted: Option<CryptoSymbol>) -> Seq<
    CryptoSymbol,
> {
    match wanted {
        Some(symbol) if kept(active, wanted).len() == 0 => seq![symbol],
        _ => Seq::empty(),
    }
}

impl App {
    /// The content of the book on display.
    pub open spec fn book_model(&self) -> Option<BookModel> {
        match self.orderbook {
            Some(book) => Some(book@),
            None => None,
        }
    }

    /// The cryptocurrency that the market on display is about.
    pub open spec fn wanted_symbol(&self) -> Option<CryptoSymbol> {
        match self.orderbook {
            Some(book) => symbol_of_question(book.market_question@),
            None => None,
        }
    }

    /// Whether the connection's health is looked at in this round: the
    /// round is due, a book is on display, and the connection is watched.
    pub open spec fn checks_health(&self, now: i64) -> bool {
        elapsed_spec(now, self.last_websocket_check) >= HEALTH_CHECK_INTERVAL_MS
            && self.orderbook is Some && self.connection.status != ConnectionStatus::Idle
    }

    /// Whether the price history is due for a point.
    pub open spec fn spec_should_update_price_history(&self, now: i64) -> bool {
        elapsed_spec(now, self.last_price_history_update) >= self.price_history_update_interval_ms
    }

    /// Whether the book on display is to be fetched from the exchange:
    /// the update interval has passed, no live stream feeds the book, and
    /// there is a book.
    pub open spec fn polls_book(&self, now: i64) -> bool {
        elapsed_spec(now, self.last_orderbook_update) >= self.update_interval_ms
            && self.connection.status != ConnectionStatus::Live && self.orderbook is Some
    }

    /// The session after an old status message is taken away.
    pub open spec fn status_cleared(self, now: i64) -> App {
        match self.status_message_time {
            Some(t) if elapsed_spec(now, t) > crate::session::STATUS_MESSAGE_MS => App {
                status_message: None,
                status_message_time: None,
                needs_redraw: true,
                ..self
            },
            _ => self,
        }
    }

    /// Whether a round is due at `now`: the last one is at least 50 ms ago.
    pub open spec fn round_due(self, now: i64) -> bool {
        elapsed_spec(now, self.last_websocket_check) >= HEALTH_CHECK_INTERVAL_MS
    }

    /// The session after a round has started at `now`, where the worker
    /// was found finished or not.
    pub open spec fn begun(self, policy: ReconnectPolicy, worker_finished: bool, now: i64) -> App {
        let cleared = self.status_cleared(now);
        let checked = health_check_spec(self.connection, policy, worker_finished, now);
        if !self.round_due(now) {
            cleared
        } else if self.checks_health(now) {
            App {
                last_websocket_check: now,
                connection: checked,
                needs_redraw: cleared.needs_redraw || checked != self.connection,
                ..cleared
            }
        } else {
            App { last_websocket_check: now, ..cleared }
        }
    }

    /// How a round that starts at `now` goes on.
    pub open spec fn cycle_start(
        self,
        policy: ReconnectPolicy,
        worker_finished: bool,
        now: i64,
    ) -> CycleStart {
        if !self.round_due(now) {
            CycleStart::Skip
        } else {
            CycleStart::Drain {
                start_worker: self.checks_health(now) && health_check_starts(
                    self.connection,
                    policy,
                    worker_finished,
                    now,
                ),
            }
        }
    }

    /// How the session is left once events taken from the inbox were
    /// applied at `now`.
    pub open spec fn updates_applied(
        before: App,
        after: App,
        events: Seq<MessageModel>,
        now: i64,
    ) -> bool {
        match before.book_model() {
            Some(book) => after.book_model() == Some(events_spec(book, events, before.depth, now))
                && after == (App {
                orderbook: after.orderbook,
                needs_redraw: before.needs_redraw || any_about(events, book.token_id),
                ..before
            }),
            None => after == before,
        }
    }

    /// Starts a round at `now`: an old status message goes, and where the
    /// round is due the connection's health is looked at.
    pub fn begin_cycle(&mut self, policy: &ReconnectPolicy, worker_finished: bool, now: i64) -> (r:
        CycleStart)
        ensures
            old(self).wf() ==> final(self).wf(),
            *final(self) == old(self).begun(*policy, worker_finished, now),
            r == old(self).cycle_start(*policy, worker_finished, now),
    {
        self.clear_old_status_message(now);
        if !is_due(now, self.last_websocket_check, HEALTH_CHECK_INTERVAL_MS) {
            return CycleStart::Skip;
        }
        self.last_websocket_check = now;
        if self.orderbook.is_some() && self.connection.status != ConnectionStatus::Idle {
            let before = self.connection;
            let action = self.connection.check_websocket_health(policy, worker_finished, now);
            if self.connection.status != before.status || self.connection.reconnect_attempts
                != before.reconnect_attempts || self.connection.last_attempt_time
                != before.last_attempt_time {
                self.needs_redraw = true;
            }
            CycleStart::Drain { start_worker: action == SupervisorAction::StartWorker }
        } else {
            CycleStart::Drain { start_worker: false }
        }
    }

    /// Applies the events taken from the inbox to the book on display.
    pub fn apply_updates(&mut self, updates: &Vec<PolymarketWebSocketMessage>, now: i64)
        ensures
            old(self).wf() ==> final(self).wf(),
            Self::updates_applied(*old(self), *final(self), messages_view(updates@), now),
    {
        let depth = self.depth;
        let mut touched = false;
        match &mut self.orderbook {
            Some(book) => {
                touched = book.apply_events(updates, depth, now);
            },
            None => {},
        }
        if touched {
            self.needs_redraw = true;
        }
    }

    /// Wipes the expired highlights of the book on display.
    pub fn clear_expired_highlights(&mut self, now: i64)
        ensures
            old(self).wf() ==> final(self).wf(),
            match old(self).book_model() {
                Some(book) => final(self).book_model() == Some(
                    BookModel {
                        bids: cleared_levels(book.bids, now),
                        asks: cleared_levels(book.asks, now),
                        ..book
                    },
                ) && *final(self) == (App { orderbook: final(self).orderbook, ..*old(self) }),
                None => *final(self) == *old(self),
            },
    {
        match &mut self.orderbook {
            Some(book) => {
                book.clear_expired_highlights(now);
            },
            None => {},
        }
    }

    /// Whether the book on display is to be fetched from the exchange at
    /// `now`; where it is, the time is noted and the id of its token
    /// returned.
    pub fn plan_poll(&mut self, now: i64) -> (r: Option<String>)
        ensures
            old(self).wf() ==> final(self).wf(),
            if old(self).polls_book(now) {
                r matches Some(token) && Some(token@) == Some(old(self).book_model()->0.token_id)
                    && *final(self) == (App {
                    last_orderbook_update: now,
                    needs_redraw: true,
                    ..*old(self)
                })
            } else {
                r is None && *final(self) == *old(self)
            },
    {
        if !is_due(now, self.last_orderbook_update, self.update_interval_ms) {
            return None;
        }
        if self.connection.status == ConnectionStatus::Live {
            return None;
        }
        let token = match &self.orderbook {
            Some(book) => book.token_id.clone(),
            None => {
                return None;
            },
        };
        self.last_orderbook_update = now;
        self.needs_redraw = true;
        Some(token)
    }

    /// Whether a book fetched from the exchange is due, without noting
    /// anything.
    pub fn should_update_orderbook_via_api(&self, now: i64) -> (r: bool)
        ensures
            r == (elapsed_spec(now, self.last_orderbook_update) >= self.update_interval_ms
                && self.connection.status != ConnectionStatus::Live),
    {
        is_due(now, self.last_orderbook_update, self.update_interval_ms) && self.connection.status
            != ConnectionStatus::Live
    }

    /// Puts a book that was fetched at `now` on display.
    pub fn install_orderbook(&mut self, orderbook: OrderBookData, now: i64)
        ensures
            old(self).wf() ==> final(self).wf(),
            final(self).book_model() == Some(orderbook@),
            *final(self) == (App {
                orderbook: Some(orderbook),
                error_message: None,
                last_update: now,
                needs_redraw: true,
                ..*old(self)
            }),
    {
        self.orderbook = Some(orderbook);
        self.error_message = None;
        self.last_update = now;
        self.needs_redraw = true;
    }

    /// Shows that a book could not be fetched.
    pub fn report_load_error(&mut self, message: String)
        ensures
            old(self).wf() ==> final(self).wf(),
            *final(self) == (App {
                error_message: Some(message),
                needs_redraw: true,
                ..*old(self)
            }),
    {
        self.error_message = Some(message);
        self.needs_redraw = true;
    }

    /// Notes that a worker was started for the book on display.
    pub fn start_websocket_for_token(&mut self)
        ensures
            old(self).wf() ==> final(self).wf(),
            *final(self) == (App {
                connection: ConnectionState {
                    status: ConnectionStatus::Live,
                    ..old(self).connection
                },
                ..*old(self)
            }),
    {
        self.connection.mark_started();
    }

    /// Makes an attempt to reconnect at `now` where one is due; says
    /// whether a new worker is to be started.
    pub fn try_reconnect_websocket(&mut self, policy: &ReconnectPolicy, now: i64) -> (start: bool)
        ensures
            old(self).wf() ==> final(self).wf(),
            start == crate::websocket::connection::may_reconnect(old(self).connection, *policy, now),
            *final(self) == (App {
                connection: crate::websocket::connection::reconnect_spec(
                    old(self).connection,
                    *policy,
                    now,
                ),
                ..*old(self)
            }),
    {
        self.connection.try_reconnect_websocket(policy, now)
    }

    /// Whether the price history is due for a point.
    pub fn should_update_price_history(&self, now: i64) -> (r: bool)
        ensures
            r == self.spec_should_update_price_history(now),
    {
        is_due(now, self.last_price_history_update, self.price_history_update_interval_ms)
    }

    /// Records the weighted midpoint of the book on display where the
    /// history is due for a point.
    pub fn update_price_history_if_needed(&mut self, now: i64)
        ensures
            old(self).wf() ==> final(self).wf(),
            match old(self).book_model() {
                Some(book) if old(self).spec_should_update_price_history(now)
                    => final(self).book_model() == Some(
                    BookModel {
                        points: add_price_spec(
                            book.points,
                            book.max_points,
                            weighted_midpoint_spec(book.bids, book.asks) as u64,
                            now,
                        ),
                        ..book
                    },
                ) && *final(self) == (App {
                    orderbook: final(self).orderbook,
                    last_price_history_update: now,
                    ..*old(self)
                }),
                _ => *final(self) == *old(self),
            },
    {
        if self.should_update_price_history(now) {
            match &mut self.orderbook {
                Some(book) => {
                    let mid = book.get_weighted_midpoint();
                    book.price_history.add_price_at(mid, now);
                    self.last_price_history_update = now;
                },
                None => {},
            }
        }
    }

    /// Decides which reference-price feeds are to run for the market on
    /// display: the feed of the cryptocurrency that its question is about
    /// and no other.
    pub fn plan_crypto_feeds(&mut self) -> (r: CryptoPlan)
        ensures
            old(self).wf() ==> final(self).wf(),
            r.stop@ == unwanted(old(self).crypto_websocket_active@, old(self).wanted_symbol()),
            r.start@ == missing(old(self).crypto_websocket_active@, old(self).wanted_symbol()),
            final(self).crypto_websocket_active@ == kept(
                old(self).crypto_websocket_active@,
                old(self).wanted_symbol(),
            ) + r.start@,
            *final(self) == (App {
                crypto_websocket_active: final(self).crypto_websocket_active,
                ..*old(self)
            }),
    {
        let wanted: Option<CryptoSymbol> = match &self.orderbook {
            Some(book) => relevant_crypto_symbol(book.market_question.as_str()),
            None => None,
        };
        let ghost active = self.crypto_websocket_active@;
        let mut stop: Vec<CryptoSymbol> = Vec::new();
        let mut keep: Vec<CryptoSymbol> = Vec::new();
        let mut i: usize = 0;
        assert(active.take(0) =~= Seq::<CryptoSymbol>::empty());
        while i < self.crypto_websocket_active.len()
            invariant
                i <= self.crypto_websocket_active.len(),
                *self == *old(self),
                active == self.crypto_websocket_active@,
                stop@ == unwanted(active.take(i as int), wanted),
                keep@ == kept(active.take(i as int), wanted),
            decreases self.crypto_websocket_active.len() - i,
        {
            proof {
                assert(active.take(i + 1).drop_last() =~= active.take(i as int));
                assert(active.take(i + 1).last() == active[i as int]);
            }
            let symbol = self.crypto_websocket_active[i];
            let is_wanted = match wanted {
                Some(w) => w == symbol,
                None => false,
            };
            if is_wanted {
                keep.push(symbol);
            } else {
                stop.push(symbol);
            }
            i = i + 1;
        }
        assert(active.take(i as int) =~= active);
        let mut start: Vec<CryptoSymbol> = Vec::new();
        if let Some(symbol) = wanted {
            if keep.len() == 0 {
                start.push(symbol);
                keep.push(symbol);
                assert(start@ =~= seq![symbol]);
            }
        }
        assert(keep@ =~= kept(active, wanted) + start@);
        self.crypto_websocket_active = keep;
        CryptoPlan { stop, start }
    }

    /// Hands the book on display to the strategies at `now`.
    pub fn run_strategies(&mut self, now: i64)
        ensures
            old(self).wf() ==> final(self).wf(),
            match old(self).book_model() {
                Some(book) => final(self).bot_engine@ == engine_process_spec(
                    old(self).bot_engine@,
                    book,
                    now,
                ) && *final(self) == (App { bot_engine: final(self).bot_engine, ..*old(self) }),
                None => *final(self) == *old(self),
            },
    {
        match &self.orderbook {
            Some(book) => {
                self.bot_engine.process_orderbook_at(book, now);
            },
            None => {},
        }
    }
}

/// One round of the streaming connection at `now`: where the round is
/// due, the connection's health is looked at, and everything that waits in
/// the inbox is taken and applied to the book on display. Says whether a
/// new worker is to be started.
pub fn process_websocket_updates(
    app: &mut App,
    inbox: &mut Inbox,
    policy: &ReconnectPolicy,
    worker_finished: bool,
    now: i64,
) -> (start_worker: bool)
    ensures
        old(app).wf() ==> final(app).wf(),
        match old(app).cycle_start(*policy, worker_finished, now) {
            CycleStart::Skip => !start_worker && *final(app) == old(app).begun(
                *policy,
                worker_finished,
                now,
            ) && *final(inbox) == *old(inbox),
            CycleStart::Drain { start_worker: start } => start_worker == start
                && App::updates_applied(
                old(app).begun(*policy, worker_finished, now),
                *final(app),
                old(inbox)@,
                now,
            ) && final(inbox)@ == Seq::<MessageModel>::empty(),
        },
{
    match app.begin_cycle(policy, worker_finished, now) {
        CycleStart::Skip => false,
        CycleStart::Drain { start_worker } => {
            let updates = inbox.take_all();
            app.apply_updates(&updates, now);
            start_worker
        },
    }
}

} // verus!
