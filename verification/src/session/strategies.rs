//! Picking a strategy and subscribing it to what is selected.

use crate::book::{find_token, token_position};
use crate::bot::engine::{
    add_event_spec,
    add_leg_spec,
    add_market_spec,
    engine_wf,
    start_spec,
    stop_spec,
    EngineModel,
};
use crate::bot::strategy::{StrategyScope, StrategyType};
use crate::data::{MarketInfo, TokenInfo};
use crate::decimal::{nat_text, nat_to_text};
use crate::session::{cycle_next, cycle_previous, next_index, previous_index, App};
use crate::types::MarketSelectorTab;
use vstd::prelude::*;

verus! {

/// The position of the first market that has the token `token`, or the
/// number of markets where none has it.
pub open spec fn owner_position(markets: Seq<MarketInfo>, token: Seq<char>) -> int
    decreases markets.len(),
{
    if markets.len() == 0 || token_position(markets[0].tokens@, token)
        < markets[0].tokens@.len() {
        0
    } else {
        1 + owner_position(markets.skip(1), token)
    }
}

pub proof fn lemma_owner_position(markets: Seq<MarketInfo>, token: Seq<char>, i: int)
    requires
        0 <= i <= markets.len(),
        forall|j: int|
            0 <= j < i ==> token_position((#[trigger] markets[j]).tokens@, token)
                >= markets[j].tokens@.len(),
        i < markets.len() ==> token_position(markets[i].tokens@, token)
            < markets[i].tokens@.len(),
    ensures
        owner_position(markets, token) == i,
    decreases i,
{
    if i > 0 {
        assert(token_position(markets[0].tokens@, token) >= markets[0].tokens@.len());
        let rest = markets.skip(1);
        assert forall|j: int| 0 <= j < i - 1 implies token_position(
            (#[trigger] rest[j]).tokens@,
            token,
        ) >= rest[j].tokens@.len() by {
            assert(rest[j] == markets[j + 1]);
        }
        if i < markets.len() {
            assert(rest[i - 1] == markets[i]);
        }
        lemma_owner_position(rest, token, i - 1);
    }
}

/// The name given to a market that the catalog does not know: the word
/// `Market` and the first eight characters of the token's id.
pub open spec fn default_market_name(token: Seq<char>) -> Seq<char> {
    "Market "@ + token.subrange(
        0,
        if token.len() < 8 {
            token.len() as int
        } else {
            8
        },
    )
}

/// The engine after every token of `tokens` is added as a leg under the
/// name `question`, in order.
pub open spec fn tokens_as_legs(
    e: EngineModel,
    kind: StrategyType,
    tokens: Seq<TokenInfo>,
    question: Seq<char>,
) -> EngineModel
    decreases tokens.len(),
{
    if tokens.len() == 0 {
        e
    } else {
        add_leg_spec(
            tokens_as_legs(e, kind, tokens.drop_last(), question),
            kind,
            tokens.last().token_id@,
            question,
        )
    }
}

/// The engine after every token of every market is added as a leg, in
/// order.
pub open spec fn markets_as_legs(
    e: EngineModel,
    kind: StrategyType,
    markets: Seq<MarketInfo>,
) -> EngineModel
    decreases markets.len(),
{
    if markets.len() == 0 {
        e
    } else {
        tokens_as_legs(
            markets_as_legs(e, kind, markets.drop_last()),
            kind,
            markets.last().tokens@,
            markets.last().question@,
        )
    }
}

/// The number of tokens of all the markets together.
pub open spec fn token_total(markets: Seq<MarketInfo>) -> nat
    decreases markets.len(),
{
    if markets.len() == 0 {
        0
    } else {
        token_total(markets.drop_last()) + markets.last().tokens@.len()
    }
}

/// The message shown after an event was added to a strategy.
pub open spec fn event_added_message(title: Seq<char>, legs: nat, kind: StrategyType) -> Seq<char> {
    "Added event '"@ + title + "' with "@ + nat_text(legs) + " markets to "@ + kind.spec_name()
}

/// The name under which a token is added to a strategy's markets.
pub fn market_name_for(markets: &Vec<MarketInfo>, token_id: &str) -> (r: String)
    ensures
        r@ == ({
            let i = owner_position(markets@, token_id@);
            if i < markets@.len() {
                markets@[i].question@
            } else {
                default_market_name(token_id@)
            }
        }),
{
    match find_market_name(markets, token_id) {
        Some(name) => name,
        None => {
            let n = token_id.unicode_len();
            let cut = if n < 8 {
                n
            } else {
                8
            };
            String::from_str("Market ").concat(token_id.substring_char(0, cut))
        },
    }
}

/// The question of the first market that has the token.
pub fn find_market_name(markets: &Vec<MarketInfo>, token_id: &str) -> (r: Option<String>)
    ensures
        ({
            let i = owner_position(markets@, token_id@);
            if i < markets@.len() {
                r matches Some(name) && name@ == markets@[i].question@
            } else {
                r is None
            }
        }),
{
    let mut i: usize = 0;
    while i < markets.len()
        invariant
            i <= markets.len(),
            forall|j: int|
                0 <= j < i ==> token_position((#[trigger] markets@[j]).tokens@, token_id@)
                    >= markets@[j].tokens@.len(),
        decreases markets.len() - i,
    {
        let k = find_token(&markets[i].tokens, token_id);
        if k < markets[i].tokens.len() {
            proof {
                lemma_owner_position(markets@, token_id@, i as int);
            }
            return Some(markets[i].question.clone());
        }
        i = i + 1;
    }
    proof {
        lemma_owner_position(markets@, token_id@, i as int);
    }
    None
}

impl App {
    /// The kind of strategy that the selection points at.
    pub open spec fn current_strategy(&self) -> Option<StrategyType> {
        if self.selected_strategy < 4 {
            Some(StrategyType::spec_all()[self.selected_strategy as int])
        } else {
            None
        }
    }

    /// The market that is added to a strategy on request, with its name:
    /// that of the book on display, else the first token of the selected
    /// market.
    pub open spec fn market_to_add(&self) -> Option<(Seq<char>, Seq<char>)> {
        match self.orderbook {
            Some(book) => {
                let i = owner_position(self.markets@, book.token_id@);
                Some(
                    (
                        book.token_id@,
                        if i < self.markets@.len() {
                            self.markets@[i].question@
                        } else {
                            default_market_name(book.token_id@)
                        },
                    ),
                )
            },
            None => match self.current_market() {
                Some(m) if self.markets@[m].tokens@.len() > 0 => Some(
                    (self.markets@[m].tokens@[0].token_id@, self.markets@[m].question@),
                ),
                _ => None,
            },
        }
    }

    /// The engine after the request to add the market at hand to the
    /// strategy at hand.
    pub open spec fn engine_with_current_market(&self) -> EngineModel {
        match (self.current_strategy(), self.market_to_add()) {
            (Some(kind), Some(chosen)) if kind.spec_scope() != StrategyScope::Event
                => add_market_spec(self.bot_engine@, kind, chosen.0, chosen.1),
            _ => self.bot_engine@,
        }
    }

    /// Whether the event at hand can be added to the strategy at hand.
    pub open spec fn can_add_event(&self) -> bool {
        self.current_strategy() == Some(StrategyType::ArbitrageDetector) && self.current_event()
            is Some
    }

    /// The engine after the event at hand, with the markets under it, is
    /// added to the strategy at hand.
    pub open spec fn engine_with_current_event(&self) -> EngineModel {
        if self.can_add_event() {
            let event = self.events@[self.current_event()->0];
            let kind = StrategyType::ArbitrageDetector;
            markets_as_legs(
                add_event_spec(self.bot_engine@, kind, event.id@, event.title@),
                kind,
                event.markets@,
            )
        } else {
            self.bot_engine@
        }
    }

    pub fn get_available_strategies(&self) -> (r: Vec<StrategyType>)
        ensures
            r@ == StrategyType::spec_all(),
    {
        StrategyType::all_strategies()
    }

    pub fn get_current_strategy_type(&self) -> (r: Option<StrategyType>)
        ensures
            r == self.current_strategy(),
    {
        if self.selected_strategy == 0 {
            Some(StrategyType::ArbitrageDetector)
        } else if self.selected_strategy == 1 {
            Some(StrategyType::PriceAnomaly)
        } else if self.selected_strategy == 2 {
            Some(StrategyType::VolumeSpike)
        } else if self.selected_strategy == 3 {
            Some(StrategyType::CrossMarketCorrelation)
        } else {
            None
        }
    }

    /// How the session is left by [`App::next_strategy`].
    pub open spec fn next_strategy_done(before: App, after: App) -> bool {
        after == (App {
            selected_strategy: next_index(before.selected_strategy as int, 4) as usize,
            needs_redraw: true,
            ..before
        })
    }

    pub fn next_strategy(&mut self)
        ensures
            Self::next_strategy_done(*old(self), *final(self)),
    {
        self.selected_strategy = cycle_next(self.selected_strategy, 4);
        self.needs_redraw = true;
    }

    /// How the session is left by [`App::previous_strategy`].
    pub open spec fn previous_strategy_done(before: App, after: App) -> bool {
        after == (App {
            selected_strategy: previous_index(before.selected_strategy as int, 4) as usize,
            needs_redraw: true,
            ..before
        })
    }

    pub fn previous_strategy(&mut self)
        ensures
            Self::previous_strategy_done(*old(self), *final(self)),
    {
        self.selected_strategy = cycle_previous(self.selected_strategy, 4);
        self.needs_redraw = true;
    }

    /// How the session is left by [`App::select_strategy`].
    pub open spec fn select_strategy_done(before: App, after: App) -> bool {
        match before.current_strategy() {
            Some(kind) => after.bot_engine@ == (EngineModel {
                active_strategy: Some(kind),
                ..before.bot_engine@
            }) && after == (App {
                bot_engine: after.bot_engine,
                show_strategy_selector: false,
                show_strategy_runner: true,
                needs_redraw: true,
                ..before
            }),
            None => after == before,
        }
    }

    /// Makes the strategy at hand the active one and opens its runner.
    pub fn select_strategy(&mut self)
        ensures
            Self::select_strategy_done(*old(self), *final(self)),
            old(self).wf() ==> final(self).wf(),
    {
        if let Some(kind) = self.get_current_strategy_type() {
            self.bot_engine.active_strategy = Some(kind);
            self.show_strategy_selector = false;
            self.show_strategy_runner = true;
            self.needs_redraw = true;
        }
    }

    /// How the session is left by [`App::start_current_strategy`].
    pub open spec fn start_current_strategy_done(before: App, after: App, now: i64) -> bool {
        match before.current_strategy() {
            Some(kind) => after.bot_engine@ == start_spec(before.bot_engine@, kind, now)
                && after.status_text() == Some(
                "Started strategy: "@ + kind.spec_name(),
            ) && after == (App {
                bot_engine: after.bot_engine,
                status_message: after.status_message,
                status_message_time: Some(now),
                error_message: None,
                needs_redraw: true,
                ..before
            }),
            None => after == before,
        }
    }

    /// Starts the strategy at hand at `now` and says so in the status.
    pub fn start_current_strategy(&mut self, now: i64)
        ensures
            Self::start_current_strategy_done(*old(self), *final(self), now),
            old(self).wf() ==> final(self).wf(),
    {
        if let Some(kind) = self.get_current_strategy_type() {
            self.bot_engine.start_strategy_at(kind, now);
            self.set_status_message(String::from_str("Started strategy: ").concat(kind.name()), now);
            self.error_message = None;
        }
    }

    /// How the session is left by [`App::stop_current_strategy`].
    pub open spec fn stop_current_strategy_done(before: App, after: App, now: i64) -> bool {
        match before.current_strategy() {
            Some(kind) => after.bot_engine@ == stop_spec(before.bot_engine@, kind)
                && after.status_text() == Some(
                "Stopped strategy: "@ + kind.spec_name(),
            ) && after == (App {
                bot_engine: after.bot_engine,
                status_message: after.status_message,
                status_message_time: Some(now),
                error_message: None,
                needs_redraw: true,
                ..before
            }),
            None => after == before,
        }
    }

    /// Stops the strategy at hand and says so in the status.
    pub fn stop_current_strategy(&mut self, now: i64)
        ensures
            Self::stop_current_strategy_done(*old(self), *final(self), now),
            old(self).wf() ==> final(self).wf(),
    {
        if let Some(kind) = self.get_current_strategy_type() {
            self.bot_engine.stop_strategy(&kind);
            self.set_status_message(String::from_str("Stopped strategy: ").concat(kind.name()), now);
            self.error_message = None;
        }
    }

    /// How the session is left by [`App::add_current_market_to_strategy`].
    pub open spec fn add_current_market_to_strategy_done(before: App, after: App) -> bool {
        &&& after.bot_engine@ == before.engine_with_current_market()
        &&& after == (App {
            bot_engine: after.bot_engine,
            needs_redraw: before.needs_redraw || before.current_strategy() is Some,
            ..before
        })
    }

    /// Adds the market at hand to the strategy at hand, where the strategy
    /// works on markets.
    pub fn add_current_market_to_strategy(&mut self)
        requires
            old(self).wf(),
        ensures
            Self::add_current_market_to_strategy_done(*old(self), *final(self)),
            final(self).wf(),
    {
        if let Some(kind) = self.get_current_strategy_type() {
            match kind.scope() {
                StrategyScope::Event => {},
                _ => {
                    match &self.orderbook {
                        Some(book) => {
                            let name = market_name_for(&self.markets, book.token_id.as_str());
                            self.bot_engine.add_market_to_strategy(
                                &kind,
                                book.token_id.clone(),
                                name,
                            );
                        },
                        None => {
                            if let Some(m) = self.selected_market_index() {
                                if self.markets[m].tokens.len() > 0 {
                                    self.bot_engine.add_market_to_strategy(
                                        &kind,
                                        self.markets[m].tokens[0].token_id.clone(),
                                        self.markets[m].question.clone(),
                                    );
                                }
                            }
                        },
                    }
                },
            }
            self.needs_redraw = true;
        }
    }

    /// How the session is left by [`App::add_current_event_to_strategy`].
    pub open spec fn add_current_event_to_strategy_done(before: App, after: App, now: i64) -> bool {
        &&& after.bot_engine@ == before.engine_with_current_event()
        &&& if before.can_add_event() {
            let event = before.events@[before.current_event()->0];
            after.status_text() == Some(
                event_added_message(
                    event.title@,
                    token_total(event.markets@),
                    StrategyType::ArbitrageDetector,
                ),
            ) && after == (App {
                bot_engine: after.bot_engine,
                status_message: after.status_message,
                status_message_time: Some(now),
                needs_redraw: true,
                ..before
            })
        } else {
            after == before
        }
    }

    /// Adds the event at hand, and as legs the tokens of the markets under
    /// it, to the strategy at hand, where the strategy works on events;
    /// says in the status how many legs there were.
    pub fn add_current_event_to_strategy(&mut self, now: i64)
        requires
            old(self).wf(),
        ensures
            Self::add_current_event_to_strategy_done(*old(self), *final(self), now),
            final(self).wf(),
    {
        let kind = match self.get_current_strategy_type() {
            Some(kind) => kind,
            None => {
                return ;
            },
        };
        match kind.scope() {
            StrategyScope::Event => {},
            _ => {
                return ;
            },
        }
        let e = match self.selected_event_index() {
            Some(e) => e,
            None => {
                return ;
            },
        };
        assert(kind == StrategyType::ArbitrageDetector);
        let ghost event = self.events@[e as int];
        self.bot_engine.add_event_to_strategy(
            &kind,
            self.events[e].id.clone(),
            self.events[e].title.clone(),
        );
        let ghost with_event = self.bot_engine@;
        let mut added: u128 = 0;
        let mut i: usize = 0;
        assert(event.markets@.take(0) =~= Seq::<MarketInfo>::empty());
        while i < self.events[e].markets.len()
            invariant
                e < self.events@.len(),
                self.events == old(self).events,
                event == self.events@[e as int],
                i <= event.markets@.len(),
                engine_wf(self.bot_engine@),
                kind == StrategyType::ArbitrageDetector,
                self.bot_engine@ == markets_as_legs(with_event, kind, event.markets@.take(i as int)),
                added == token_total(event.markets@.take(i as int)),
                added <= i * 0xffff_ffff_ffff_ffff,
                *self == (App { bot_engine: self.bot_engine, ..*old(self) }),
            decreases event.markets@.len() - i,
        {
            let ghost market = event.markets@[i as int];
            let ghost before = self.bot_engine@;
            proof {
                assert(event.markets@.take(i + 1).drop_last() =~= event.markets@.take(i as int));
                assert(event.markets@.take(i + 1).last() == market);
                assert(market.tokens@.take(0) =~= Seq::<TokenInfo>::empty());
            }
            let mut k: usize = 0;
            while k < self.events[e].markets[i].tokens.len()
                invariant
                    e < self.events@.len(),
                    self.events == old(self).events,
                    event == self.events@[e as int],
                    i < event.markets@.len(),
                    market == event.markets@[i as int],
                    k <= market.tokens@.len(),
                    engine_wf(self.bot_engine@),
                    kind == StrategyType::ArbitrageDetector,
                    self.bot_engine@ == tokens_as_legs(
                        before,
                        kind,
                        market.tokens@.take(k as int),
                        market.question@,
                    ),
                    *self == (App { bot_engine: self.bot_engine, ..*old(self) }),
                decreases market.tokens@.len() - k,
            {
                proof {
                    assert(market.tokens@.take(k + 1).drop_last() =~= market.tokens@.take(k as int));
                    assert(market.tokens@.take(k + 1).last() == market.tokens@[k as int]);
                }
                let token_id = self.events[e].markets[i].tokens[k].token_id.clone();
                let question = self.events[e].markets[i].question.clone();
                self.bot_engine.add_leg_to_strategy(&kind, token_id, question);
                k = k + 1;
            }
            assert(market.tokens@.take(k as int) =~= market.tokens@);
            added = added + self.events[e].markets[i].tokens.len() as u128;
            i = i + 1;
        }
        assert(event.markets@.take(i as int) =~= event.markets@);
        let message = String::from_str("Added event '").concat(
            self.events[e].title.as_str(),
        ).concat("' with ").concat(nat_to_text(added).as_str()).concat(" markets to ").concat(
            kind.name(),
        );
        self.set_status_message(message, now);
    }

    /// How the session is left by [`App::show_strategy_market_selector`].
    pub open spec fn show_strategy_market_selector_done(before: App, after: App) -> bool {
        after == match before.current_strategy() {
            Some(kind) => App {
                show_market_selector: true,
                show_strategy_runner: false,
                strategy_selection_mode: true,
                market_selector_tab: if kind.spec_scope() == StrategyScope::Event {
                    MarketSelectorTab::Events
                } else {
                    MarketSelectorTab::AllMarkets
                },
                needs_redraw: true,
                ..before
            },
            None => before,
        }
    }

    /// Opens the selector in which markets or events are picked for the
    /// strategy at hand.
    pub fn show_strategy_market_selector(&mut self)
        ensures
            Self::show_strategy_market_selector_done(*old(self), *final(self)),
    {
        if let Some(kind) = self.get_current_strategy_type() {
            self.show_market_selector = true;
            self.show_strategy_runner = false;
            self.strategy_selection_mode = true;
            self.market_selector_tab = match kind.scope() {
                StrategyScope::Event => MarketSelectorTab::Events,
                _ => MarketSelectorTab::AllMarkets,
            };
            self.needs_redraw = true;
        }
    }

    /// How the session is left by [`App::select_market`].
    pub open spec fn select_market_done(before: App, after: App) -> bool {
        if before.current_market() is None {
            after == before
        } else if before.strategy_selection_mode {
            after.bot_engine@ == before.engine_with_current_market() && after
                == (App {
                bot_engine: after.bot_engine,
                show_market_selector: false,
                show_strategy_runner: true,
                strategy_selection_mode: false,
                search_mode: false,
                needs_redraw: true,
                ..before
            })
        } else {
            after == (App {
                selected_token: 0,
                token_scroll_offset: 0,
                show_market_selector: false,
                show_token_selector: true,
                search_mode: false,
                needs_redraw: true,
                ..before
            })
        }
    }

    /// Takes the selected market: for a strategy where one is being set
    /// up, else to pick one of its tokens.
    pub fn select_market(&mut self)
        requires
            old(self).wf(),
        ensures
            Self::select_market_done(*old(self), *final(self)),
            final(self).wf(),
    {
        if self.selected_market < self.filtered_markets.len() {
            if self.strategy_selection_mode {
                self.add_current_market_to_strategy();
                self.show_market_selector = false;
                self.show_strategy_runner = true;
                self.strategy_selection_mode = false;
                self.search_mode = false;
                self.needs_redraw = true;
            } else {
                self.selected_token = 0;
                self.token_scroll_offset = 0;
                self.show_market_selector = false;
                self.show_token_selector = true;
                self.search_mode = false;
                self.needs_redraw = true;
            }
        }
    }

    /// How the session is left by [`App::select_event`].
    pub open spec fn select_event_done(before: App, after: App, now: i64) -> bool {
        if before.current_event() is None {
            after == before
        } else if before.strategy_selection_mode {
            &&& after.bot_engine@ == before.engine_with_current_event()
            &&& before.can_add_event() ==> after.status_text() == Some(
                event_added_message(
                    before.events@[before.current_event()->0].title@,
                    token_total(before.events@[before.current_event()->0].markets@),
                    StrategyType::ArbitrageDetector,
                ),
            ) && after.status_message_time == Some(now)
            &&& !before.can_add_event() ==> after.status_message == before.status_message
                && after.status_message_time == before.status_message_time
            &&& after == (App {
                bot_engine: after.bot_engine,
                status_message: after.status_message,
                status_message_time: after.status_message_time,
                show_market_selector: false,
                show_strategy_runner: true,
                strategy_selection_mode: false,
                search_mode: false,
                needs_redraw: true,
                ..before
            })
        } else {
            after == (App {
                show_market_selector: false,
                show_event_market_selector: true,
                selected_token: 0,
                token_scroll_offset: 0,
                search_mode: false,
                needs_redraw: true,
                ..before
            })
        }
    }

    /// Takes the selected event: for a strategy where one is being set up,
    /// else to pick one of its markets.
    pub fn select_event(&mut self, now: i64)
        requires
            old(self).wf(),
        ensures
            Self::select_event_done(*old(self), *final(self), now),
            final(self).wf(),
    {
        if self.selected_event < self.filtered_events.len() {
            if self.strategy_selection_mode {
                self.add_current_event_to_strategy(now);
                self.show_market_selector = false;
                self.show_strategy_runner = true;
                self.strategy_selection_mode = false;
                self.search_mode = false;
                self.needs_redraw = true;
            } else {
                self.show_market_selector = false;
                self.show_event_market_selector = true;
                self.selected_token = 0;
                self.token_scroll_offset = 0;
                self.search_mode = false;
                self.needs_redraw = true;
            }
        }
    }
}

} // verus!
