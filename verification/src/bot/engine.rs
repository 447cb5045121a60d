//! The strategy engine: one strategy of every kind, fed with book updates.

use crate::bot::strategy::{
    arbitrage_alerts,
    contains_id,
    fresh_strategy,
    lemma_upsert_keeps_one_each,
    one_book_each,
    position_of_id,
    push_alert,
    push_alert_spec,
    push_alerts,
    push_alerts_spec,
    upsert_book,
    AlertModel,
    AlertSeverity,
    StatusModel,
    Strategy,
    StrategyAlert,
    StrategyModel,
    StrategyScope,
    StrategyStatus,
    StrategyType,
};
use crate::clock::now_millis;
use crate::data::{midpoint_spec, spread_spec, BookModel, OrderBookData};
use crate::decimal::{fixed_text, fixed_text_spec, nat_text, nat_to_text};
use crate::stats::{sum_sizes, total_size};

use vstd::prelude::*;

verus! {

/// A spread above this (0.10 of the price scale) is an anomaly.
pub const WIDE_SPREAD: u64 = 100_000;

/// A spread above this (0.20) is an anomaly of high severity.
pub const VERY_WIDE_SPREAD: u64 = 200_000;

/// Displayed size above this (10,000 units) is a volume spike.
pub const LARGE_VOLUME: u128 = 10_000_000_000;

/// Displayed size above this (50,000 units) is a spike of high severity.
pub const VERY_LARGE_VOLUME: u128 = 50_000_000_000;

/// The registry of strategies: one of every kind, in the order of
/// [`StrategyType::all_strategies`].
#[derive(Debug, Clone, PartialEq, Eq)]
pub struct BotEngine {
    pub strategies: Vec<Strategy>,
    pub active_strategy: Option<StrategyType>,
}

/// The mathematical content of a [`BotEngine`].
pub struct EngineModel {
    pub strategies: Seq<StrategyModel>,
    pub active_strategy: Option<StrategyType>,
}

/// The contents of a list of strategies.
pub open spec fn strategies_view(v: Seq<Strategy>) -> Seq<StrategyModel> {
    Seq::new(v.len(), |i: int| v[i]@)
}

impl View for BotEngine {
    type V = EngineModel;

    open spec fn view(&self) -> EngineModel {
        EngineModel {
            strategies: strategies_view(self.strategies@),
            active_strategy: self.active_strategy,
        }
    }
}

/// The position of the first strategy of a kind, or the length where there
/// is none.
pub open spec fn kind_position(strategies: Seq<StrategyModel>, kind: StrategyType) -> int
    decreases strategies.len(),
{
    if strategies.len() == 0 || strategies[0].strategy_type == kind {
        0
    } else {
        1 + kind_position(strategies.skip(1), kind)
    }
}

pub proof fn lemma_kind_position(strategies: Seq<StrategyModel>, kind: StrategyType, i: int)
    requires
        0 <= i <= strategies.len(),
        forall|j: int| 0 <= j < i ==> (#[trigger] strategies[j]).strategy_type != kind,
        i < strategies.len() ==> strategies[i].strategy_type == kind,
    ensures
        kind_position(strategies, kind) == i,
    decreases i,
{
    if i > 0 {
        assert(strategies[0].strategy_type != kind);
        let rest = strategies.skip(1);
        assert forall|j: int| 0 <= j < i - 1 implies (#[trigger] rest[j]).strategy_type
            != kind by {
            assert(rest[j] == strategies[j + 1]);
        }
        if i < strategies.len() {
            assert(rest[i - 1] == strategies[i]);
        }
        lemma_kind_position(rest, kind, i - 1);
    }
}

/// The registry holds one strategy of every kind, each at the position of
/// its kind.
pub open spec fn engine_wf(e: EngineModel) -> bool {
    &&& e.strategies.len() == 4
    &&& forall|i: int| 0 <= i < 4 ==> (#[trigger] e.strategies[i]).strategy_type
        == StrategyType::spec_all()[i]
}

/// In a well-formed registry every kind is found at its own position.
pub proof fn lemma_wf_position(e: EngineModel, kind: StrategyType)
    requires
        engine_wf(e),
    ensures
        kind_position(e.strategies, kind) == kind.spec_index(),
        e.strategies[kind.spec_index()].strategy_type == kind,
{
    let i = kind.spec_index();
    assert(e.strategies[0].strategy_type == StrategyType::ArbitrageDetector);
    assert(e.strategies[1].strategy_type == StrategyType::PriceAnomaly);
    assert(e.strategies[2].strategy_type == StrategyType::VolumeSpike);
    assert(e.strategies[3].strategy_type == StrategyType::CrossMarketCorrelation);
    assert forall|j: int| 0 <= j < i implies (#[trigger] e.strategies[j]).strategy_type
        != kind by {}
    lemma_kind_position(e.strategies, kind, i);
}

/// The strategies with the one at position `i`, if there is one, replaced.
pub open spec fn with_strategy(strategies: Seq<StrategyModel>, i: int, s: StrategyModel) -> Seq<
    StrategyModel,
> {
    if 0 <= i < strategies.len() {
        strategies.update(i, s)
    } else {
        strategies
    }
}

/// A strategy after it is started at `now`: it runs, whatever it did
/// before, and the time is noted.
pub open spec fn started(s: StrategyModel, now: i64) -> StrategyModel {
    StrategyModel { status: StatusModel::Running, last_run: Some(now), ..s }
}

/// The engine after the strategy of a kind is started at `now`: the
/// strategy runs and is the active one. Where there is no strategy of the
/// kind, nothing changes.
pub open spec fn start_spec(e: EngineModel, kind: StrategyType, now: i64) -> EngineModel {
    let i = kind_position(e.strategies, kind);
    if i < e.strategies.len() {
        EngineModel {
            strategies: e.strategies.update(i, started(e.strategies[i], now)),
            active_strategy: Some(kind),
        }
    } else {
        e
    }
}

/// A strategy after a market is added: a strategy that works on markets
/// takes a market that it does not have yet, with its name.
pub open spec fn with_market(s: StrategyModel, token_id: Seq<char>, name: Seq<char>) -> StrategyModel {
    if s.strategy_type.spec_scope() != StrategyScope::Event && !s.selected_market_ids.contains(
        token_id,
    ) {
        StrategyModel {
            selected_market_ids: s.selected_market_ids.push(token_id),
            selected_market_names: s.selected_market_names.push(name),
            ..s
        }
    } else {
        s
    }
}

/// A strategy after a leg is added: a strategy that works on events takes
/// a market of one of its events that it does not have yet, with its name.
pub open spec fn with_leg(s: StrategyModel, token_id: Seq<char>, name: Seq<char>) -> StrategyModel {
    if s.strategy_type.spec_scope() == StrategyScope::Event && !s.selected_market_ids.contains(
        token_id,
    ) {
        StrategyModel {
            selected_market_ids: s.selected_market_ids.push(token_id),
            selected_market_names: s.selected_market_names.push(name),
            ..s
        }
    } else {
        s
    }
}

/// A strategy after an event is added: a strategy that works on events
/// takes an event that it does not have yet, with its name.
pub open spec fn with_event(s: StrategyModel, event_id: Seq<char>, name: Seq<char>) -> StrategyModel {
    if s.strategy_type.spec_scope() == StrategyScope::Event && !s.selected_event_ids.contains(
        event_id,
    ) {
        StrategyModel {
            selected_event_ids: s.selected_event_ids.push(event_id),
            selected_event_names: s.selected_event_names.push(name),
            ..s
        }
    } else {
        s
    }
}

/// The engine with the strategy of a kind, if there is one, changed by
/// `change`.
pub open spec fn change_strategy(
    e: EngineModel,
    kind: StrategyType,
    change: spec_fn(StrategyModel) -> StrategyModel,
) -> EngineModel {
    let i = kind_position(e.strategies, kind);
    EngineModel { strategies: with_strategy(e.strategies, i, change(e.strategies[i])), ..e }
}

/// The engine after a market is added to the strategy of a kind.
pub open spec fn add_market_spec(
    e: EngineModel,
    kind: StrategyType,
    token_id: Seq<char>,
    name: Seq<char>,
) -> EngineModel {
    change_strategy(e, kind, |s: StrategyModel| with_market(s, token_id, name))
}

/// The engine after a leg is added to the strategy of a kind.
pub open spec fn add_leg_spec(
    e: EngineModel,
    kind: StrategyType,
    token_id: Seq<char>,
    name: Seq<char>,
) -> EngineModel {
    change_strategy(e, kind, |s: StrategyModel| with_leg(s, token_id, name))
}

/// The engine after an event is added to the strategy of a kind.
pub open spec fn add_event_spec(
    e: EngineModel,
    kind: StrategyType,
    event_id: Seq<char>,
    name: Seq<char>,
) -> EngineModel {
    change_strategy(e, kind, |s: StrategyModel| with_event(s, event_id, name))
}

/// The engine after the strategy of a kind is stopped: it no longer runs
/// and is no longer the active one.
pub open spec fn stop_spec(e: EngineModel, kind: StrategyType) -> EngineModel {
    let stopped = change_strategy(
        e,
        kind,
        |s: StrategyModel| StrategyModel { status: StatusModel::Stopped, ..s },
    );
    EngineModel {
        active_strategy: if e.active_strategy == Some(kind) {
            None
        } else {
            e.active_strategy
        },
        ..stopped
    }
}

/// The first position at which `id` stands in `ids`, or the length.
pub open spec fn id_position(ids: Seq<Seq<char>>, id: Seq<char>) -> int
    decreases ids.len(),
{
    if ids.len() == 0 || ids[0] == id {
        0
    } else {
        1 + id_position(ids.skip(1), id)
    }
}

pub proof fn lemma_id_position(ids: Seq<Seq<char>>, id: Seq<char>, i: int)
    requires
        0 <= i <= ids.len(),
        forall|j: int| 0 <= j < i ==> #[trigger] ids[j] != id,
        i < ids.len() ==> ids[i] == id,
    ensures
        id_position(ids, id) == i,
    decreases i,
{
    if i > 0 {
        assert(ids[0] != id);
        let rest = ids.skip(1);
        assert forall|j: int| 0 <= j < i - 1 implies #[trigger] rest[j] != id by {
            assert(rest[j] == ids[j + 1]);
        }
        if i < ids.len() {
            assert(rest[i - 1] == ids[i]);
        }
        lemma_id_position(rest, id, i - 1);
    }
}

/// Ids and names after the first occurrence of `id` is taken out, with the
/// name at the same position where there is one.
pub open spec fn without_id(ids: Seq<Seq<char>>, names: Seq<Seq<char>>, id: Seq<char>) -> (
    Seq<Seq<char>>,
    Seq<Seq<char>>,
) {
    let i = id_position(ids, id);
    if i < ids.len() {
        (
            ids.remove(i),
            if i < names.len() {
                names.remove(i)
            } else {
                names
            },
        )
    } else {
        (ids, names)
    }
}

/// The alert for an unusually wide spread, where there is one.
pub open spec fn anomaly_alert(book: BookModel, now: i64) -> Option<AlertModel> {
    let spread = spread_spec(book.bids, book.asks);
    if spread > WIDE_SPREAD {
        Some(
            AlertModel {
                timestamp: now,
                strategy: "Price Anomaly"@,
                severity: if spread > VERY_WIDE_SPREAD {
                    AlertSeverity::High
                } else {
                    AlertSeverity::Medium
                },
                message: "Wide spread detected: "@ + fixed_text_spec((spread * 100) as nat, 2)
                    + "% at midpoint "@ + fixed_text_spec(
                    midpoint_spec(book.bids, book.asks) as nat,
                    4,
                ),
                market_data: Seq::empty(),
            },
        )
    } else {
        None
    }
}

/// The displayed size of both sides, capped at the largest 128-bit number.
pub open spec fn displayed_size(book: BookModel) -> nat {
    let total = total_size(book.bids) + total_size(book.asks);
    if total > u128::MAX {
        u128::MAX as nat
    } else {
        total
    }
}

/// The alert for a large displayed size, where there is one.
pub open spec fn volume_alert(book: BookModel, now: i64) -> Option<AlertModel> {
    let total = displayed_size(book);
    if total > LARGE_VOLUME {
        Some(
            AlertModel {
                timestamp: now,
                strategy: "Volume Spike"@,
                severity: if total > VERY_LARGE_VOLUME {
                    AlertSeverity::High
                } else {
                    AlertSeverity::Medium
                },
                message: "Volume spike detected: "@ + fixed_text_spec(total, 0)
                    + " total volume (bids: "@ + fixed_text_spec(total_size(book.bids), 0)
                    + ", asks: "@ + fixed_text_spec(total_size(book.asks), 0) + ")"@,
                market_data: Seq::empty(),
            },
        )
    } else {
        None
    }
}

/// The log with an alert pushed, where there is one.
pub open spec fn with_alert(log: Seq<AlertModel>, alert: Option<AlertModel>) -> Seq<AlertModel> {
    match alert {
        Some(a) => push_alert_spec(log, a),
        None => log,
    }
}

/// A strategy after a book update is dispatched to it at `now`. The run is
/// counted and timed whether or not an alert comes of it. The arbitrage
/// detector caches the book and checks its events; the anomaly scanner
/// looks at the spread; the volume alert at the displayed size.
pub open spec fn dispatch_spec(s: StrategyModel, book: BookModel, now: i64) -> StrategyModel {
    let ran = StrategyModel {
        run_count: if s.run_count < u64::MAX {
            (s.run_count + 1) as u64
        } else {
            s.run_count
        },
        last_run: Some(now),
        ..s
    };
    match s.strategy_type {
        StrategyType::ArbitrageDetector => {
            let cached = StrategyModel { orderbooks: upsert_book(ran.orderbooks, book), ..ran };
            StrategyModel {
                alerts: push_alerts_spec(cached.alerts, arbitrage_alerts(cached, now)),
                last_arbitrage_check: Some(now),
                ..cached
            }
        },
        StrategyType::PriceAnomaly => StrategyModel {
            alerts: with_alert(ran.alerts, anomaly_alert(book, now)),
            ..ran
        },
        StrategyType::VolumeSpike => StrategyModel {
            alerts: with_alert(ran.alerts, volume_alert(book, now)),
            ..ran
        },
        StrategyType::CrossMarketCorrelation => ran,
    }
}

/// Whether a book update is dispatched to a strategy: it runs and is
/// subscribed to the book's instrument.
pub open spec fn takes_update(s: StrategyModel, book: BookModel) -> bool {
    s.status is Running && s.selected_market_ids.contains(book.token_id)
}

/// A strategy after a book update at `now`.
pub open spec fn process_spec(s: StrategyModel, book: BookModel, now: i64) -> StrategyModel {
    if takes_update(s, book) {
        dispatch_spec(s, book, now)
    } else {
        s
    }
}

/// The engine after a book update at `now`: every strategy after the
/// update, the active one as before.
pub open spec fn engine_process_spec(e: EngineModel, book: BookModel, now: i64) -> EngineModel {
    EngineModel {
        strategies: Seq::new(e.strategies.len(), |i: int| process_spec(e.strategies[i], book, now)),
        ..e
    }
}

/// The line that tells a strategy's status.
pub open spec fn status_line(s: StrategyModel) -> Seq<char> {
    match s.status {
        StatusModel::Stopped => "Stopped"@,
        StatusModel::Running => if s.strategy_type == StrategyType::ArbitrageDetector {
            "Running - "@ + nat_text(s.selected_event_ids.len()) + " events, "@ + nat_text(
                s.selected_market_ids.len(),
            ) + " markets, "@ + nat_text(s.alerts.len()) + " alerts"@
        } else {
            "Running - "@ + nat_text(s.selected_market_ids.len()) + " markets, "@ + nat_text(
                s.alerts.len(),
            ) + " alerts"@
        },
        StatusModel::Error(reason) => "Error: "@ + reason,
    }
}

fn make_anomaly_alert(book: &OrderBookData, now: i64) -> (r: Option<StrategyAlert>)
    ensures
        match r {
            Some(a) => anomaly_alert(book@, now) == Some(a@),
            None => anomaly_alert(book@, now) is None,
        },
{
    let spread = book.get_spread();
    if spread > WIDE_SPREAD as i128 {
        let percent = fixed_text((spread * 100) as u128, 2);
        let mid = fixed_text(book.get_midpoint() as u128, 4);
        let message = String::from_str("Wide spread detected: ").concat(percent.as_str()).concat(
            "% at midpoint ",
        ).concat(mid.as_str());
        let a = StrategyAlert {
            timestamp: now,
            strategy: String::from_str("Price Anomaly"),
            severity: if spread > VERY_WIDE_SPREAD as i128 {
                AlertSeverity::High
            } else {
                AlertSeverity::Medium
            },
            message,
            market_data: Vec::new(),
        };
        assert(a@.market_data =~= Seq::empty());
        Some(a)
    } else {
        None
    }
}

fn make_volume_alert(book: &OrderBookData, now: i64) -> (r: Option<StrategyAlert>)
    ensures
        match r {
            Some(a) => volume_alert(book@, now) == Some(a@),
            None => volume_alert(book@, now) is None,
        },
{
    let bid_size = sum_sizes(book.bids.as_slice());
    let ask_size = sum_sizes(book.asks.as_slice());
    let total: u128 = match bid_size.checked_add(ask_size) {
        Some(t) => t,
        None => u128::MAX,
    };
    if total > LARGE_VOLUME {
        let message = String::from_str("Volume spike detected: ").concat(
            fixed_text(total, 0).as_str(),
        ).concat(" total volume (bids: ").concat(fixed_text(bid_size, 0).as_str()).concat(
            ", asks: ",
        ).concat(fixed_text(ask_size, 0).as_str()).concat(")");
        let a = StrategyAlert {
            timestamp: now,
            strategy: String::from_str("Volume Spike"),
            severity: if total > VERY_LARGE_VOLUME {
                AlertSeverity::High
            } else {
                AlertSeverity::Medium
            },
            message,
            market_data: Vec::new(),
        };
        assert(a@.market_data =~= Seq::empty());
        Some(a)
    } else {
        None
    }
}

impl Strategy {
    /// Runs the strategy on a book update at `now`.
    pub fn dispatch(&mut self, orderbook: &OrderBookData, now: i64)
        ensures
            final(self)@ == dispatch_spec(old(self)@, orderbook@, now),
            one_book_each(old(self)@.orderbooks) ==> one_book_each(final(self)@.orderbooks),
    {
        proof {
            if one_book_each(self@.orderbooks) {
                lemma_upsert_keeps_one_each(self@.orderbooks, orderbook@);
            }
        }
        if self.run_count < u64::MAX {
            self.run_count = self.run_count + 1;
        }
        self.last_run = Some(now);
        match self.strategy_type {
            StrategyType::ArbitrageDetector => {
                self.update_orderbook(orderbook.duplicate());
                let found = self.check_arbitrage_opportunities_at(now);
                push_alerts(&mut self.alerts, found);
            },
            StrategyType::PriceAnomaly => {
                if let Some(a) = make_anomaly_alert(orderbook, now) {
                    push_alert(&mut self.alerts, a);
                }
            },
            StrategyType::VolumeSpike => {
                if let Some(a) = make_volume_alert(orderbook, now) {
                    push_alert(&mut self.alerts, a);
                }
            },
            StrategyType::CrossMarketCorrelation => {},
        }
    }

    /// Whether a book update is dispatched to the strategy.
    pub fn takes(&self, orderbook: &OrderBookData) -> (r: bool)
        ensures
            r == takes_update(self@, orderbook@),
    {
        match self.status {
            StrategyStatus::Running => contains_id(
                &self.selected_market_ids,
                orderbook.token_id.as_str(),
            ),
            _ => false,
        }
    }

    /// The line that tells the strategy's status.
    pub fn status_text(&self) -> (r: String)
        ensures
            r@ == status_line(self@),
    {
        match &self.status {
            StrategyStatus::Stopped => String::from_str("Stopped"),
            StrategyStatus::Running => {
                let markets = nat_to_text(self.selected_market_ids.len() as u128);
                let events = nat_to_text(self.selected_event_ids.len() as u128);
                let alerts = nat_to_text(self.alerts.len() as u128);
                if self.strategy_type == StrategyType::ArbitrageDetector {
                    String::from_str("Running - ").concat(events.as_str()).concat(
                        " events, ",
                    ).concat(markets.as_str()).concat(" markets, ").concat(alerts.as_str()).concat(
                        " alerts",
                    )
                } else {
                    String::from_str("Running - ").concat(markets.as_str()).concat(
                        " markets, ",
                    ).concat(alerts.as_str()).concat(" alerts")
                }
            },
            StrategyStatus::Error(reason) => String::from_str("Error: ").concat(reason.as_str()),
        }
    }
}

impl BotEngine {
    /// The engine as it starts: one stopped strategy of every kind, none
    /// of them active.
    pub open spec fn new_model() -> EngineModel {
        EngineModel {
            strategies: Seq::new(4, |i: int| fresh_strategy(StrategyType::spec_all()[i])),
            active_strategy: None,
        }
    }

    /// An engine with one stopped strategy of every kind.
    pub fn new() -> (r: Self)
        ensures
            r@ == Self::new_model(),
            engine_wf(r@),
    {
        let mut strategies: Vec<Strategy> = Vec::new();
        strategies.push(Strategy::new(StrategyType::ArbitrageDetector));
        strategies.push(Strategy::new(StrategyType::PriceAnomaly));
        strategies.push(Strategy::new(StrategyType::VolumeSpike));
        strategies.push(Strategy::new(StrategyType::CrossMarketCorrelation));
        let r = BotEngine { strategies, active_strategy: None };
        assert(r@.strategies =~= Seq::new(4, |i: int| fresh_strategy(StrategyType::spec_all()[i])));
        r
    }

    /// Whether the registry holds one strategy of every kind, each at the
    /// position of its kind.
    pub fn is_wf(&self) -> (r: bool)
        ensures
            r == engine_wf(self@),
    {
        if self.strategies.len() != 4 {
            return false;
        }
        let kinds = StrategyType::all_strategies();
        let mut i: usize = 0;
        while i < 4
            invariant
                i <= 4,
                self.strategies@.len() == 4,
                kinds@ == StrategyType::spec_all(),
                forall|j: int| 0 <= j < i ==> (#[trigger] self@.strategies[j]).strategy_type
                    == StrategyType::spec_all()[j],
            decreases 4 - i,
        {
            assert(self@.strategies[i as int] == self.strategies@[i as int]@);
            if self.strategies[i].strategy_type != kinds[i] {
                return false;
            }
            i = i + 1;
        }
        true
    }

    /// The position of the strategy of a kind, or the number of strategies.
    pub fn find(&self, kind: &StrategyType) -> (i: usize)
        ensures
            i == kind_position(self@.strategies, *kind),
            i <= self.strategies@.len(),
            i < self.strategies@.len() ==> self.strategies@[i as int].strategy_type == *kind,
    {
        let ghost models = self@.strategies;
        let mut i: usize = 0;
        while i < self.strategies.len()
            invariant
                i <= self.strategies.len(),
                models == self@.strategies,
                forall|j: int| 0 <= j < i ==> (#[trigger] models[j]).strategy_type != *kind,
            decreases self.strategies.len() - i,
        {
            if self.strategies[i].strategy_type == *kind {
                proof {
                    assert(models[i as int].strategy_type == *kind);
                    lemma_kind_position(models, *kind, i as int);
                }
                return i;
            }
            i = i + 1;
        }
        proof {
            lemma_kind_position(models, *kind, i as int);
        }
        i
    }

    /// The strategy of a kind.
    pub fn get_strategy(&self, strategy_type: &StrategyType) -> (r: Option<&Strategy>)
        ensures
            ({
                let i = kind_position(self@.strategies, *strategy_type);
                match r {
                    Some(s) => i < self.strategies@.len() && *s == self.strategies@[i] && s@
                        == self@.strategies[i],
                    None => i >= self.strategies@.len(),
                }
            }),
    {
        let i = self.find(strategy_type);
        if i < self.strategies.len() {
            assert(self@.strategies[i as int] == self.strategies@[i as int]@);
            Some(&self.strategies[i])
        } else {
            None
        }
    }

    /// The strategy of a kind, to be changed in place.
    pub fn get_strategy_mut(&mut self, strategy_type: &StrategyType) -> (r: Option<&mut Strategy>)
        ensures
            ({
                let i = kind_position(old(self)@.strategies, *strategy_type);
                match r {
                    Some(s) => i < old(self).strategies@.len() && *s == old(self).strategies@[i]
                        && final(self).strategies@ == old(self).strategies@.update(i, *final(s))
                        && final(self).active_strategy == old(self).active_strategy,
                    None => i >= old(self).strategies@.len() && *final(self) == *old(self),
                }
            }),
    {
        let i = self.find(strategy_type);
        if i < self.strategies.len() {
            Some(&mut self.strategies[i])
        } else {
            None
        }
    }

    /// Starts the strategy of a kind at `now` and makes it the active one.
    pub fn start_strategy_at(&mut self, strategy_type: StrategyType, now: i64)
        ensures
            final(self)@ == start_spec(old(self)@, strategy_type, now),
            engine_wf(old(self)@) ==> engine_wf(final(self)@),
    {
        let i = self.find(&strategy_type);
        if i < self.strategies.len() {
            let mut s = self.strategies.remove(i);
            s.status = StrategyStatus::Running;
            s.last_run = Some(now);
            self.strategies.insert(i, s);
            self.active_strategy = Some(strategy_type);
            assert(self@.strategies =~= old(self)@.strategies.update(
                i as int,
                started(old(self)@.strategies[i as int], now),
            ));
        }
    }

    /// Starts the strategy of a kind and makes it the active one.
    pub fn start_strategy(&mut self, strategy_type: StrategyType)
        ensures
            exists|now: i64| final(self)@ == start_spec(old(self)@, strategy_type, now),
            engine_wf(old(self)@) ==> engine_wf(final(self)@),
    {
        let now = now_millis();
        self.start_strategy_at(strategy_type, now);
        assert(self@ == start_spec(old(self)@, strategy_type, now));
    }

    /// Stops the strategy of a kind; it is no longer the active one.
    pub fn stop_strategy(&mut self, strategy_type: &StrategyType)
        ensures
            final(self)@ == stop_spec(old(self)@, *strategy_type),
            engine_wf(old(self)@) ==> engine_wf(final(self)@),
    {
        let i = self.find(strategy_type);
        if i < self.strategies.len() {
            let mut s = self.strategies.remove(i);
            s.status = StrategyStatus::Stopped;
            self.strategies.insert(i, s);
            assert(self@.strategies =~= old(self)@.strategies.update(
                i as int,
                StrategyModel { status: StatusModel::Stopped, ..old(self)@.strategies[i as int] },
            ));
        } else {
            assert(self@.strategies =~= old(self)@.strategies);
        }
        let is_active = match self.active_strategy {
            Some(active) => active == *strategy_type,
            None => false,
        };
        if is_active {
            self.active_strategy = None;
        }
    }

    /// Records that the strategy of a kind failed. The error stays until
    /// the strategy is started or stopped.
    pub fn report_error(&mut self, strategy_type: &StrategyType, reason: String)
        ensures
            ({
                let i = kind_position(old(self)@.strategies, *strategy_type);
                final(self)@ == (EngineModel {
                    strategies: with_strategy(
                        old(self)@.strategies,
                        i,
                        StrategyModel {
                            status: StatusModel::Error(reason@),
                            ..old(self)@.strategies[i]
                        },
                    ),
                    ..old(self)@
                })
            }),
            engine_wf(old(self)@) ==> engine_wf(final(self)@),
    {
        let i = self.find(strategy_type);
        if i < self.strategies.len() {
            let mut s = self.strategies.remove(i);
            s.status = StrategyStatus::Error(reason);
            self.strategies.insert(i, s);
            assert(self@.strategies =~= old(self)@.strategies.update(
                i as int,
                StrategyModel {
                    status: StatusModel::Error(reason@),
                    ..old(self)@.strategies[i as int]
                },
            ));
        } else {
            assert(self@.strategies =~= old(self)@.strategies);
        }
    }

    /// Subscribes a strategy that works on markets to a market.
    pub fn add_market_to_strategy(
        &mut self,
        strategy_type: &StrategyType,
        token_id: String,
        market_name: String,
    )
        ensures
            final(self)@ == add_market_spec(old(self)@, *strategy_type, token_id@, market_name@),
            engine_wf(old(self)@) ==> engine_wf(final(self)@),
    {
        let i = self.find(strategy_type);
        if i < self.strategies.len() {
            let mut s = self.strategies.remove(i);
            let on_markets = match s.strategy_type.scope() {
                StrategyScope::Event => false,
                _ => true,
            };
            if on_markets && !contains_id(&s.selected_market_ids, token_id.as_str()) {
                s.selected_market_ids.push(token_id);
                s.selected_market_names.push(market_name);
                proof {
                    let before = old(self)@.strategies[i as int];
                    assert(s@.selected_market_ids =~= before.selected_market_ids.push(token_id@));
                    assert(s@.selected_market_names =~= before.selected_market_names.push(
                        market_name@,
                    ));
                }
            }
            self.strategies.insert(i, s);
            assert(self@.strategies =~= old(self)@.strategies.update(
                i as int,
                with_market(old(self)@.strategies[i as int], token_id@, market_name@),
            ));
        } else {
            assert(self@.strategies =~= old(self)@.strategies);
        }
    }

    /// Gives a strategy that works on events one more leg: a market under
    /// one of its events.
    pub fn add_leg_to_strategy(
        &mut self,
        strategy_type: &StrategyType,
        token_id: String,
        market_name: String,
    )
        ensures
            final(self)@ == add_leg_spec(old(self)@, *strategy_type, token_id@, market_name@),
            engine_wf(old(self)@) ==> engine_wf(final(self)@),
    {
        let i = self.find(strategy_type);
        if i < self.strategies.len() {
            let mut s = self.strategies.remove(i);
            let on_events = match s.strategy_type.scope() {
                StrategyScope::Event => true,
                _ => false,
            };
            if on_events && !contains_id(&s.selected_market_ids, token_id.as_str()) {
                s.selected_market_ids.push(token_id);
                s.selected_market_names.push(market_name);
                proof {
                    let before = old(self)@.strategies[i as int];
                    assert(s@.selected_market_ids =~= before.selected_market_ids.push(token_id@));
                    assert(s@.selected_market_names =~= before.selected_market_names.push(
                        market_name@,
                    ));
                }
            }
            self.strategies.insert(i, s);
            assert(self@.strategies =~= old(self)@.strategies.update(
                i as int,
                with_leg(old(self)@.strategies[i as int], token_id@, market_name@),
            ));
        } else {
            assert(self@.strategies =~= old(self)@.strategies);
        }
    }

    /// Subscribes a strategy that works on events to an event.
    pub fn add_event_to_strategy(
        &mut self,
        strategy_type: &StrategyType,
        event_id: String,
        event_name: String,
    )
        ensures
            final(self)@ == add_event_spec(old(self)@, *strategy_type, event_id@, event_name@),
            engine_wf(old(self)@) ==> engine_wf(final(self)@),
    {
        let i = self.find(strategy_type);
        if i < self.strategies.len() {
            let mut s = self.strategies.remove(i);
            let on_events = match s.strategy_type.scope() {
                StrategyScope::Event => true,
                _ => false,
            };
            if on_events && !contains_id(&s.selected_event_ids, event_id.as_str()) {
                s.selected_event_ids.push(event_id);
                s.selected_event_names.push(event_name);
                proof {
                    let before = old(self)@.strategies[i as int];
                    assert(s@.selected_event_ids =~= before.selected_event_ids.push(event_id@));
                    assert(s@.selected_event_names =~= before.selected_event_names.push(
                        event_name@,
                    ));
                }
            }
            self.strategies.insert(i, s);
            assert(self@.strategies =~= old(self)@.strategies.update(
                i as int,
                with_event(old(self)@.strategies[i as int], event_id@, event_name@),
            ));
        } else {
            assert(self@.strategies =~= old(self)@.strategies);
        }
    }

    /// Takes a market out of a strategy's subscriptions.
    pub fn remove_market_from_strategy(&mut self, strategy_type: &StrategyType, token_id: &str)
        ensures
            ({
                let i = kind_position(old(self)@.strategies, *strategy_type);
                let s = old(self)@.strategies[i];
                let left = without_id(s.selected_market_ids, s.selected_market_names, token_id@);
                final(self)@ == (EngineModel {
                    strategies: with_strategy(
                        old(self)@.strategies,
                        i,
                        StrategyModel {
                            selected_market_ids: left.0,
                            selected_market_names: left.1,
                            ..s
                        },
                    ),
                    ..old(self)@
                })
            }),
            engine_wf(old(self)@) ==> engine_wf(final(self)@),
    {
        let i = self.find(strategy_type);
        if i < self.strategies.len() {
            let mut s = self.strategies.remove(i);
            let ghost before = s@;
            let k = position_of_id(&s.selected_market_ids, token_id);
            proof {
                assert forall|j: int| 0 <= j < k implies #[trigger] before.selected_market_ids[j]
                    != token_id@ by {
                    assert(s.selected_market_ids@[j]@ != token_id@);
                }
                lemma_id_position(before.selected_market_ids, token_id@, k as int);
            }
            if k < s.selected_market_ids.len() {
                let _ = s.selected_market_ids.remove(k);
                assert(s@.selected_market_ids =~= before.selected_market_ids.remove(k as int));
                if k < s.selected_market_names.len() {
                    let _ = s.selected_market_names.remove(k);
                    assert(s@.selected_market_names =~= before.selected_market_names.remove(
                        k as int,
                    ));
                }
            }
            let ghost left = without_id(
                before.selected_market_ids,
                before.selected_market_names,
                token_id@,
            );
            assert(s@ == (StrategyModel {
                selected_market_ids: left.0,
                selected_market_names: left.1,
                ..before
            }));
            self.strategies.insert(i, s);
            assert(self@.strategies =~= old(self)@.strategies.update(i as int, s@));
        } else {
            assert(self@.strategies =~= old(self)@.strategies);
        }
    }

    /// Takes an event out of a strategy's subscriptions.
    pub fn remove_event_from_strategy(&mut self, strategy_type: &StrategyType, event_id: &str)
        ensures
            ({
                let i = kind_position(old(self)@.strategies, *strategy_type);
                let s = old(self)@.strategies[i];
                let left = without_id(s.selected_event_ids, s.selected_event_names, event_id@);
                final(self)@ == (EngineModel {
                    strategies: with_strategy(
                        old(self)@.strategies,
                        i,
                        StrategyModel {
                            selected_event_ids: left.0,
                            selected_event_names: left.1,
                            ..s
                        },
                    ),
                    ..old(self)@
                })
            }),
            engine_wf(old(self)@) ==> engine_wf(final(self)@),
    {
        let i = self.find(strategy_type);
        if i < self.strategies.len() {
            let mut s = self.strategies.remove(i);
            let ghost before = s@;
            let k = position_of_id(&s.selected_event_ids, event_id);
            proof {
                assert forall|j: int| 0 <= j < k implies #[trigger] before.selected_event_ids[j]
                    != event_id@ by {
                    assert(s.selected_event_ids@[j]@ != event_id@);
                }
                lemma_id_position(before.selected_event_ids, event_id@, k as int);
            }
            if k < s.selected_event_ids.len() {
                let _ = s.selected_event_ids.remove(k);
                assert(s@.selected_event_ids =~= before.selected_event_ids.remove(k as int));
                if k < s.selected_event_names.len() {
                    let _ = s.selected_event_names.remove(k);
                    assert(s@.selected_event_names =~= before.selected_event_names.remove(
                        k as int,
                    ));
                }
            }
            let ghost left = without_id(
                before.selected_event_ids,
                before.selected_event_names,
                event_id@,
            );
            assert(s@ == (StrategyModel {
                selected_event_ids: left.0,
                selected_event_names: left.1,
                ..before
            }));
            self.strategies.insert(i, s);
            assert(self@.strategies =~= old(self)@.strategies.update(i as int, s@));
        } else {
            assert(self@.strategies =~= old(self)@.strategies);
        }
    }

    /// Hands a book update at `now` to every strategy that runs and is
    /// subscribed to the book's instrument.
    pub fn process_orderbook_at(&mut self, orderbook: &OrderBookData, now: i64)
        ensures
            final(self)@ == engine_process_spec(old(self)@, orderbook@, now),
            engine_wf(old(self)@) ==> engine_wf(final(self)@),
    {
        let n = self.strategies.len();
        let mut i: usize = 0;
        while i < n
            invariant
                i <= n,
                n == self.strategies@.len(),
                n == old(self).strategies@.len(),
                self.active_strategy == old(self).active_strategy,
                forall|j: int|
                    0 <= j < i ==> (#[trigger] self.strategies@[j])@ == process_spec(
                        old(self).strategies@[j]@,
                        orderbook@,
                        now,
                    ),
                forall|j: int| i <= j < n ==> #[trigger] self.strategies@[j] == old(self).strategies@[j],
            decreases n - i,
        {
            if self.strategies[i].takes(orderbook) {
                let mut s = self.strategies.remove(i);
                s.dispatch(orderbook, now);
                self.strategies.insert(i, s);
            }
            i = i + 1;
        }
        assert(self@.strategies =~= Seq::new(
            old(self)@.strategies.len(),
            |i: int| process_spec(old(self)@.strategies[i], orderbook@, now),
        ));
    }

    /// Hands a book update to the strategies, by the current time.
    pub fn process_orderbook(&mut self, orderbook: &OrderBookData)
        ensures
            exists|now: i64| final(self)@ == engine_process_spec(old(self)@, orderbook@, now),
            engine_wf(old(self)@) ==> engine_wf(final(self)@),
    {
        let now = now_millis();
        self.process_orderbook_at(orderbook, now);
        assert(self@ == engine_process_spec(old(self)@, orderbook@, now));
    }

    /// The line that tells the status of the strategy of a kind.
    pub fn get_strategy_status(&self, strategy_type: &StrategyType) -> (r: Option<String>)
        ensures
            ({
                let i = kind_position(self@.strategies, *strategy_type);
                if i < self@.strategies.len() {
                    r matches Some(text) && text@ == status_line(self@.strategies[i])
                } else {
                    r is None
                }
            }),
    {
        let i = self.find(strategy_type);
        if i < self.strategies.len() {
            Some(self.strategies[i].status_text())
        } else {
            None
        }
    }
}

} // verus!
