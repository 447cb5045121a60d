//! Strategies: their kinds, their state, and the arbitrage check.

use crate::clock::now_millis;
use crate::config::MAX_ALERTS;
use crate::data::{BookModel, OrderBookData};
use crate::decimal::{fixed_text, fixed_text_spec, nat_text, nat_to_text, SCALE};
use crate::text::str_eq;
use crate::websocket::connection::strings_view;
use vstd::prelude::*;

verus! {

/// The kinds of strategy.
#[derive(Debug, Clone, Copy, PartialEq, Eq, Hash, Structural)]
pub enum StrategyType {
    ArbitrageDetector,
    PriceAnomaly,
    VolumeSpike,
    CrossMarketCorrelation,
}

/// What a strategy is subscribed to.
#[derive(Debug, Clone, Copy, PartialEq, Eq, Structural)]
pub enum StrategyScope {
    /// Individual markets.
    SingleMarket,
    /// Events, each with the markets under it.
    Event,
    /// Several individual markets at once.
    MultiMarket,
}

impl StrategyType {
    pub open spec fn spec_name(self) -> Seq<char> {
        match self {
            StrategyType::ArbitrageDetector => "Arbitrage Detector"@,
            StrategyType::PriceAnomaly => "Price Anomaly Scanner"@,
            StrategyType::VolumeSpike => "Volume Spike Alert"@,
            StrategyType::CrossMarketCorrelation => "Cross-Market Correlation"@,
        }
    }

    pub open spec fn spec_description(self) -> Seq<char> {
        match self {
            StrategyType::ArbitrageDetector => "Finds price discrepancies between markets in the same event"@,
            StrategyType::PriceAnomaly => "Detects unusual price movements in individual markets"@,
            StrategyType::VolumeSpike => "Alerts on sudden volume increases in individual markets"@,
            StrategyType::CrossMarketCorrelation => "Analyzes correlation between multiple markets"@,
        }
    }

    /// The scope is fixed by the kind.
    pub open spec fn spec_scope(self) -> StrategyScope {
        match self {
            StrategyType::ArbitrageDetector => StrategyScope::Event,
            StrategyType::PriceAnomaly => StrategyScope::SingleMarket,
            StrategyType::VolumeSpike => StrategyScope::SingleMarket,
            StrategyType::CrossMarketCorrelation => StrategyScope::MultiMarket,
        }
    }

    /// The position of the kind in [`StrategyType::all_strategies`].
    pub open spec fn spec_index(self) -> int {
        match self {
            StrategyType::ArbitrageDetector => 0,
            StrategyType::PriceAnomaly => 1,
            StrategyType::VolumeSpike => 2,
            StrategyType::CrossMarketCorrelation => 3,
        }
    }

    /// Every kind, in the order of their declaration.
    pub open spec fn spec_all() -> Seq<StrategyType> {
        seq![
            StrategyType::ArbitrageDetector,
            StrategyType::PriceAnomaly,
            StrategyType::VolumeSpike,
            StrategyType::CrossMarketCorrelation,
        ]
    }

    pub fn name(&self) -> (r: &'static str)
        ensures
            r@ == self.spec_name(),
    {
        match self {
            StrategyType::ArbitrageDetector => "Arbitrage Detector",
            StrategyType::PriceAnomaly => "Price Anomaly Scanner",
            StrategyType::VolumeSpike => "Volume Spike Alert",
            StrategyType::CrossMarketCorrelation => "Cross-Market Correlation",
        }
    }

    pub fn description(&self) -> (r: &'static str)
        ensures
            r@ == self.spec_description(),
    {
        match self {
            StrategyType::ArbitrageDetector => "Finds price discrepancies between markets in the same event",
            StrategyType::PriceAnomaly => "Detects unusual price movements in individual markets",
            StrategyType::VolumeSpike => "Alerts on sudden volume increases in individual markets",
            StrategyType::CrossMarketCorrelation => "Analyzes correlation between multiple markets",
        }
    }

    pub fn scope(&self) -> (r: StrategyScope)
        ensures
            r == self.spec_scope(),
    {
        match self {
            StrategyType::ArbitrageDetector => StrategyScope::Event,
            StrategyType::PriceAnomaly => StrategyScope::SingleMarket,
            StrategyType::VolumeSpike => StrategyScope::SingleMarket,
            StrategyType::CrossMarketCorrelation => StrategyScope::MultiMarket,
        }
    }

    /// Whether the kind looks at several markets at once.
    pub fn requires_multiple_markets(&self) -> (r: bool)
        ensures
            r == (*self == StrategyType::ArbitrageDetector || *self
                == StrategyType::CrossMarketCorrelation),
    {
        match self {
            StrategyType::ArbitrageDetector => true,
            StrategyType::CrossMarketCorrelation => true,
            _ => false,
        }
    }

    pub fn all_strategies() -> (r: Vec<Self>)
        ensures
            r@ == Self::spec_all(),
    {
        let mut all: Vec<StrategyType> = Vec::new();
        all.push(StrategyType::ArbitrageDetector);
        all.push(StrategyType::PriceAnomaly);
        all.push(StrategyType::VolumeSpike);
        all.push(StrategyType::CrossMarketCorrelation);
        assert(all@ =~= Self::spec_all());
        all
    }

    /// The position of the kind in [`StrategyType::all_strategies`].
    pub fn index(&self) -> (r: usize)
        ensures
            r == self.spec_index(),
            r < 4,
            Self::spec_all()[r as int] == *self,
    {
        match self {
            StrategyType::ArbitrageDetector => 0,
            StrategyType::PriceAnomaly => 1,
            StrategyType::VolumeSpike => 2,
            StrategyType::CrossMarketCorrelation => 3,
        }
    }
}

/// Whether a strategy runs.
#[derive(Debug, Clone, PartialEq, Eq)]
pub enum StrategyStatus {
    Stopped,
    Running,
    Error(String),
}

/// The mathematical content of a [`StrategyStatus`].
pub enum StatusModel {
    Stopped,
    Running,
    Error(Seq<char>),
}

impl View for StrategyStatus {
    type V = StatusModel;

    open spec fn view(&self) -> StatusModel {
        match self {
            StrategyStatus::Stopped => StatusModel::Stopped,
            StrategyStatus::Running => StatusModel::Running,
            StrategyStatus::Error(reason) => StatusModel::Error(reason@),
        }
    }
}

/// How much an alert matters.
#[derive(Debug, Clone, Copy, PartialEq, Eq, Structural)]
pub enum AlertSeverity {
    Low,
    Medium,
    High,
    Critical,
}

/// One member of an alert's payload: a name and a value, both text.
#[derive(Debug, Clone, PartialEq, Eq)]
pub struct AlertDatum {
    pub name: String,
    pub value: String,
}

/// What a strategy found. An alert is never changed once made.
#[derive(Debug, Clone, PartialEq, Eq)]
pub struct StrategyAlert {
    pub timestamp: i64,
    pub strategy: String,
    pub severity: AlertSeverity,
    pub message: String,
    pub market_data: Vec<AlertDatum>,
}

/// The mathematical content of a [`StrategyAlert`].
pub struct AlertModel {
    pub timestamp: i64,
    pub strategy: Seq<char>,
    pub severity: AlertSeverity,
    pub message: Seq<char>,
    pub market_data: Seq<(Seq<char>, Seq<char>)>,
}

impl View for StrategyAlert {
    type V = AlertModel;

    open spec fn view(&self) -> AlertModel {
        AlertModel {
            timestamp: self.timestamp,
            strategy: self.strategy@,
            severity: self.severity,
            message: self.message@,
            market_data: Seq::new(
                self.market_data@.len(),
                |i: int| (self.market_data@[i].name@, self.market_data@[i].value@),
            ),
        }
    }
}

/// The contents of a list of alerts.
pub open spec fn alerts_view(v: Seq<StrategyAlert>) -> Seq<AlertModel> {
    Seq::new(v.len(), |i: int| v[i]@)
}

/// The contents of a list of books.
pub open spec fn books_view(v: Seq<OrderBookData>) -> Seq<BookModel> {
    Seq::new(v.len(), |i: int| v[i]@)
}

/// The log after one more alert: the alert goes to the end and only the
/// newest 100 stay.
pub open spec fn push_alert_spec(log: Seq<AlertModel>, alert: AlertModel) -> Seq<AlertModel> {
    let pushed = log.push(alert);
    if pushed.len() > MAX_ALERTS {
        pushed.skip(pushed.len() - MAX_ALERTS)
    } else {
        pushed
    }
}

/// The log after several alerts, pushed in order.
pub open spec fn push_alerts_spec(log: Seq<AlertModel>, alerts: Seq<AlertModel>) -> Seq<AlertModel>
    decreases alerts.len(),
{
    if alerts.len() == 0 {
        log
    } else {
        push_alert_spec(push_alerts_spec(log, alerts.drop_last()), alerts.last())
    }
}

/// The newest 100 of a series of alerts, in order.
pub open spec fn newest_alerts(all: Seq<AlertModel>) -> Seq<AlertModel> {
    if all.len() > MAX_ALERTS {
        all.skip(all.len() - MAX_ALERTS)
    } else {
        all
    }
}

/// However many alerts are pushed, the log holds the newest 100 of all
/// that it has seen, in order: after 150 alerts into an empty log, exactly
/// the last 100.
pub proof fn lemma_alert_log_bound(log: Seq<AlertModel>, alerts: Seq<AlertModel>)
    requires
        log.len() <= MAX_ALERTS,
    ensures
        push_alerts_spec(log, alerts) == newest_alerts(log + alerts),
        push_alerts_spec(log, alerts).len() <= MAX_ALERTS,
        push_alerts_spec(Seq::empty(), alerts) == newest_alerts(alerts),
        alerts.len() >= MAX_ALERTS ==> push_alerts_spec(log, alerts).len() == MAX_ALERTS,
    decreases alerts.len(),
{
    assert(Seq::<AlertModel>::empty() + alerts =~= alerts);
    if alerts.len() == 0 {
        assert(log + alerts =~= log);
    } else {
        let head = alerts.drop_last();
        lemma_alert_log_bound(log, head);
        let before = push_alerts_spec(log, head);
        let all_before = log + head;
        let all = log + alerts;
        assert(all =~= all_before.push(alerts.last()));
        assert(before.push(alerts.last()).len() <= MAX_ALERTS + 1);
        assert(push_alert_spec(before, alerts.last()) =~= newest_alerts(all));
        lemma_alert_log_bound_empty(alerts);
    }
}

proof fn lemma_alert_log_bound_empty(alerts: Seq<AlertModel>)
    ensures
        push_alerts_spec(Seq::empty(), alerts) == newest_alerts(alerts),
    decreases alerts.len(),
{
    if alerts.len() > 0 {
        let head = alerts.drop_last();
        lemma_alert_log_bound_empty(head);
        let before = push_alerts_spec(Seq::empty(), head);
        assert(alerts =~= head.push(alerts.last()));
        assert(push_alert_spec(before, alerts.last()) =~= newest_alerts(alerts));
    }
}

/// Appends one alert to a log and enforces the bound.
pub fn push_alert(log: &mut Vec<StrategyAlert>, alert: StrategyAlert)
    ensures
        alerts_view(final(log)@) == push_alert_spec(alerts_view(old(log)@), alert@),
{
    log.push(alert);
    assert(alerts_view(log@) =~= alerts_view(old(log)@).push(alert@));
    let n = log.len();
    if n > MAX_ALERTS {
        let kept = log.split_off(n - MAX_ALERTS);
        *log = kept;
        assert(alerts_view(log@) =~= alerts_view(old(log)@).push(alert@).skip(n - MAX_ALERTS));
    }
}

/// Appends several alerts to a log, in order.
pub fn push_alerts(log: &mut Vec<StrategyAlert>, alerts: Vec<StrategyAlert>)
    ensures
        alerts_view(final(log)@) == push_alerts_spec(alerts_view(old(log)@), alerts_view(alerts@)),
{
    let ghost all = alerts_view(alerts@);
    let ghost start = alerts_view(log@);
    let mut rest = alerts;
    let ghost mut done: int = 0;
    assert(all.take(0) =~= Seq::<AlertModel>::empty());
    assert(all.skip(0) =~= all);
    while rest.len() > 0
        invariant
            0 <= done <= all.len(),
            alerts_view(rest@) == all.skip(done),
            alerts_view(log@) == push_alerts_spec(start, all.take(done)),
        decreases rest.len(),
    {
        let ghost before = alerts_view(rest@);
        let a = rest.remove(0);
        proof {
            assert(before[0] == a@);
            assert(before.len() == all.len() - done);
            assert(all.skip(done)[0] == all[done]);
            assert(alerts_view(rest@) =~= before.skip(1));
            assert(before.skip(1) =~= all.skip(done + 1));
            assert(all.take(done + 1).drop_last() =~= all.take(done));
            assert(all.take(done + 1).last() == a@);
        }
        push_alert(log, a);
        proof {
            done = done + 1;
        }
    }
    assert(all.skip(done).len() == 0);
    assert(all.take(done) =~= all);
}

/// Whether `ids` holds `id`.
pub fn contains_id(ids: &Vec<String>, id: &str) -> (r: bool)
    ensures
        r == strings_view(ids@).contains(id@),
{
    position_of_id(ids, id) < ids.len()
}

/// The position of the first occurrence of `id` in `ids`, or the length of
/// `ids` where it does not occur.
pub fn position_of_id(ids: &Vec<String>, id: &str) -> (r: usize)
    ensures
        r <= ids@.len(),
        r < ids@.len() ==> ids@[r as int]@ == id@,
        forall|j: int| 0 <= j < r ==> (#[trigger] ids@[j])@ != id@,
        r < ids@.len() <==> strings_view(ids@).contains(id@),
{
    let ghost all = strings_view(ids@);
    let mut i: usize = 0;
    while i < ids.len()
        invariant
            i <= ids.len(),
            all == strings_view(ids@),
            forall|j: int| 0 <= j < i ==> (#[trigger] ids@[j])@ != id@,
        decreases ids.len() - i,
    {
        if str_eq(ids[i].as_str(), id) {
            assert(all[i as int] == id@);
            return i;
        }
        i = i + 1;
    }
    assert forall|j: int| 0 <= j < all.len() implies all[j] != id@ by {
        assert(ids@[j]@ != id@);
    }
    i
}

/// A copy of a list of strings.
pub fn copy_strings(v: &Vec<String>) -> (r: Vec<String>)
    ensures
        strings_view(r@) == strings_view(v@),
{
    let mut r: Vec<String> = Vec::new();
    let mut i: usize = 0;
    while i < v.len()
        invariant
            i <= v.len(),
            r@.len() == i,
            forall|j: int| 0 <= j < i ==> (#[trigger] r@[j])@ == v@[j]@,
        decreases v.len() - i,
    {
        r.push(v[i].clone());
        i = i + 1;
    }
    assert(strings_view(r@) =~= strings_view(v@));
    r
}

/// One strategy: its kind, whether it runs, what it is subscribed to, the
/// books it has cached, and the alerts it has raised.
#[derive(Debug, Clone, PartialEq, Eq)]
pub struct Strategy {
    pub strategy_type: StrategyType,
    pub status: StrategyStatus,
    pub selected_market_ids: Vec<String>,
    pub selected_market_names: Vec<String>,
    pub selected_event_ids: Vec<String>,
    pub selected_event_names: Vec<String>,
    pub alerts: Vec<StrategyAlert>,
    pub last_run: Option<i64>,
    pub run_count: u64,
    pub orderbooks: Vec<OrderBookData>,
    pub last_arbitrage_check: Option<i64>,
}

/// The mathematical content of a [`Strategy`].
pub struct StrategyModel {
    pub strategy_type: StrategyType,
    pub status: StatusModel,
    pub selected_market_ids: Seq<Seq<char>>,
    pub selected_market_names: Seq<Seq<char>>,
    pub selected_event_ids: Seq<Seq<char>>,
    pub selected_event_names: Seq<Seq<char>>,
    pub alerts: Seq<AlertModel>,
    pub last_run: Option<i64>,
    pub run_count: u64,
    pub orderbooks: Seq<BookModel>,
    pub last_arbitrage_check: Option<i64>,
}

impl View for Strategy {
    type V = StrategyModel;

    open spec fn view(&self) -> StrategyModel {
        StrategyModel {
            strategy_type: self.strategy_type,
            status: self.status@,
            selected_market_ids: strings_view(self.selected_market_ids@),
            selected_market_names: strings_view(self.selected_market_names@),
            selected_event_ids: strings_view(self.selected_event_ids@),
            selected_event_names: strings_view(self.selected_event_names@),
            alerts: alerts_view(self.alerts@),
            last_run: self.last_run,
            run_count: self.run_count,
            orderbooks: books_view(self.orderbooks@),
            last_arbitrage_check: self.last_arbitrage_check,
        }
    }
}

/// A strategy of a kind as the engine first makes it: stopped, subscribed
/// to nothing, with no alert.
pub open spec fn fresh_strategy(strategy_type: StrategyType) -> StrategyModel {
    StrategyModel {
        strategy_type,
        status: StatusModel::Stopped,
        selected_market_ids: Seq::empty(),
        selected_market_names: Seq::empty(),
        selected_event_ids: Seq::empty(),
        selected_event_names: Seq::empty(),
        alerts: Seq::empty(),
        last_run: None,
        run_count: 0,
        orderbooks: Seq::empty(),
        last_arbitrage_check: None,
    }
}

/// The position of the first book of instrument `token`, or the length
/// where there is none.
pub open spec fn book_position(books: Seq<BookModel>, token: Seq<char>) -> int
    decreases books.len(),
{
    if books.len() == 0 || books[0].token_id == token {
        0
    } else {
        1 + book_position(books.skip(1), token)
    }
}

pub proof fn lemma_book_position(books: Seq<BookModel>, token: Seq<char>, i: int)
    requires
        0 <= i <= books.len(),
        forall|j: int| 0 <= j < i ==> (#[trigger] books[j]).token_id != token,
        i < books.len() ==> books[i].token_id == token,
    ensures
        book_position(books, token) == i,
    decreases i,
{
    if i > 0 {
        assert(books[0].token_id != token);
        let rest = books.skip(1);
        assert forall|j: int| 0 <= j < i - 1 implies (#[trigger] rest[j]).token_id != token by {
            assert(rest[j] == books[j + 1]);
        }
        if i < books.len() {
            assert(rest[i - 1] == books[i]);
        }
        lemma_book_position(rest, token, i - 1);
    }
}

/// The cache after a book is put in: it takes the place of the cached book
/// of the same instrument, or goes to the end.
pub open spec fn upsert_book(books: Seq<BookModel>, book: BookModel) -> Seq<BookModel> {
    let i = book_position(books, book.token_id);
    if i < books.len() {
        books.update(i, book)
    } else {
        books.push(book)
    }
}

/// No instrument has two books in the cache: the cache is a map from
/// instrument to book.
pub open spec fn one_book_each(books: Seq<BookModel>) -> bool {
    forall|i: int, j: int|
        0 <= i < j < books.len() ==> (#[trigger] books[i]).token_id != (
        #[trigger] books[j]).token_id
}

/// The position that `book_position` gives lies within the cache or at
/// its end; before it no book is of the instrument, and at it, where it
/// lies within, the book is.
pub proof fn lemma_book_position_found(books: Seq<BookModel>, token: Seq<char>)
    ensures
        0 <= book_position(books, token) <= books.len(),
        forall|j: int|
            0 <= j < book_position(books, token) ==> (#[trigger] books[j]).token_id != token,
        book_position(books, token) < books.len() ==> books[book_position(
            books,
            token,
        )].token_id == token,
    decreases books.len(),
{
    if books.len() == 0 || books[0].token_id == token {
    } else {
        let rest = books.skip(1);
        lemma_book_position_found(rest, token);
        assert forall|j: int| 0 <= j < book_position(books, token) implies (
        #[trigger] books[j]).token_id != token by {
            if j > 0 {
                assert(rest[j - 1] == books[j]);
            }
        }
        if book_position(books, token) < books.len() {
            assert(rest[book_position(rest, token)] == books[book_position(books, token)]);
        }
    }
}

/// Putting a book into a cache that holds one book for each instrument
/// leaves it so.
pub proof fn lemma_upsert_keeps_one_each(books: Seq<BookModel>, book: BookModel)
    requires
        one_book_each(books),
    ensures
        one_book_each(upsert_book(books, book)),
{
    lemma_book_position_found(books, book.token_id);
    let i = book_position(books, book.token_id);
    let after = upsert_book(books, book);
    assert forall|a: int, b: int| 0 <= a < b < after.len() implies (
    #[trigger] after[a]).token_id != (#[trigger] after[b]).token_id by {
        if i < books.len() {
            assert(after[a].token_id == books[a].token_id);
            assert(after[b].token_id == books[b].token_id);
        } else if b == books.len() {
            assert(after[a] == books[a]);
        } else {
            assert(after[a] == books[a] && after[b] == books[b]);
        }
    }
}

/// The best price of one side of the cached book of `token`; `None` where
/// no book is cached or the side is empty.
pub open spec fn best_price_of(books: Seq<BookModel>, token: Seq<char>, bid_side: bool) -> Option<
    u64,
> {
    let i = book_position(books, token);
    if i < books.len() {
        let side = if bid_side {
            books[i].bids
        } else {
            books[i].asks
        };
        if side.len() > 0 {
            Some(side[0].price)
        } else {
            None
        }
    } else {
        None
    }
}

/// The best prices of all legs, added up; `None` where a leg has none.
pub open spec fn legs_total(books: Seq<BookModel>, legs: Seq<Seq<char>>, bid_side: bool) -> Option<
    nat,
>
    decreases legs.len(),
{
    if legs.len() == 0 {
        Some(0)
    } else {
        match (
            legs_total(books, legs.drop_last(), bid_side),
            best_price_of(books, legs.last(), bid_side),
        ) {
            (Some(total), Some(price)) => Some(total + price as nat),
            _ => None,
        }
    }
}

/// The text of an arbitrage alert for legs that add up to `total`, below 1.
pub open spec fn arbitrage_message(label: Seq<char>, total: nat) -> Seq<char> {
    "Arbitrage opportunity detected! Sum of "@ + label + " prices: "@ + fixed_text_spec(total, 4)
        + " (opportunity: $"@ + fixed_text_spec((SCALE - total) as nat, 4) + ")"@
}

/// The alert for legs that add up to `total`, below 1: the opportunity is
/// what is missing to 1, and it is of high severity above 0.10.
pub open spec fn arbitrage_alert(label: Seq<char>, total: nat, now: i64) -> AlertModel {
    AlertModel {
        timestamp: now,
        strategy: "Arbitrage Detector"@,
        severity: if SCALE - total > 100_000 {
            AlertSeverity::High
        } else {
            AlertSeverity::Medium
        },
        message: arbitrage_message(label, total),
        market_data: Seq::empty(),
    }
}

/// The alert of one side of an event: there is one where every leg has a
/// best price on that side and the prices add up to less than 1.
pub open spec fn side_alert(
    books: Seq<BookModel>,
    legs: Seq<Seq<char>>,
    bid_side: bool,
    now: i64,
) -> Option<AlertModel> {
    match legs_total(books, legs, bid_side) {
        Some(total) if total < SCALE => Some(
            arbitrage_alert(
                if bid_side {
                    "YES"@
                } else {
                    "NO"@
                },
                total,
                now,
            ),
        ),
        _ => None,
    }
}

/// The alerts of one event with the given legs: none for fewer than two
/// legs, else that of the bids, then that of the asks.
pub open spec fn event_alerts(books: Seq<BookModel>, legs: Seq<Seq<char>>, now: i64) -> Seq<
    AlertModel,
> {
    if legs.len() < 2 {
        Seq::empty()
    } else {
        let yes = match side_alert(books, legs, true, now) {
            Some(a) => seq![a],
            None => Seq::empty(),
        };
        let no = match side_alert(books, legs, false, now) {
            Some(a) => seq![a],
            None => Seq::empty(),
        };
        yes + no
    }
}

/// `alerts`, `times` times over.
pub open spec fn repeated(alerts: Seq<AlertModel>, times: nat) -> Seq<AlertModel>
    decreases times,
{
    if times == 0 {
        Seq::empty()
    } else {
        repeated(alerts, (times - 1) as nat) + alerts
    }
}

/// What the arbitrage check finds at `now`: for each subscribed event the
/// alerts of that event, whose legs are all the subscribed markets. A
/// strategy of another kind finds nothing.
pub open spec fn arbitrage_alerts(s: StrategyModel, now: i64) -> Seq<AlertModel> {
    if s.strategy_type != StrategyType::ArbitrageDetector {
        Seq::empty()
    } else {
        repeated(
            event_alerts(s.orderbooks, s.selected_market_ids, now),
            s.selected_event_ids.len(),
        )
    }
}

/// The summary of what a strategy is subscribed to.
pub open spec fn selection_summary(s: StrategyModel) -> Seq<char> {
    if s.strategy_type.spec_scope() == StrategyScope::Event {
        if s.selected_event_ids.len() == 0 {
            "No events selected"@
        } else {
            nat_text(s.selected_event_ids.len()) + " event(s) selected"@
        }
    } else {
        if s.selected_market_ids.len() == 0 {
            "No markets selected"@
        } else {
            nat_text(s.selected_market_ids.len()) + " market(s) selected"@
        }
    }
}

/// Makes the alert for legs that add up to `total`.
fn make_arbitrage_alert(label: &str, total: u128, now: i64) -> (r: StrategyAlert)
    requires
        total < SCALE,
    ensures
        r@ == arbitrage_alert(label@, total as nat, now),
{
    let opportunity: u128 = SCALE as u128 - total;
    let message = String::from_str("Arbitrage opportunity detected! Sum of ").concat(label).concat(
        " prices: ",
    ).concat(fixed_text(total, 4).as_str()).concat(" (opportunity: $").concat(
        fixed_text(opportunity, 4).as_str(),
    ).concat(")");
    let r = StrategyAlert {
        timestamp: now,
        strategy: String::from_str("Arbitrage Detector"),
        severity: if opportunity > 100_000 {
            AlertSeverity::High
        } else {
            AlertSeverity::Medium
        },
        message,
        market_data: Vec::new(),
    };
    assert(r@.market_data =~= Seq::empty());
    r
}

impl Strategy {
    pub fn new(strategy_type: StrategyType) -> (r: Self)
        ensures
            r@ == fresh_strategy(strategy_type),
            one_book_each(r@.orderbooks),
    {
        let r = Strategy {
            strategy_type,
            status: StrategyStatus::Stopped,
            selected_market_ids: Vec::new(),
            selected_market_names: Vec::new(),
            selected_event_ids: Vec::new(),
            selected_event_names: Vec::new(),
            alerts: Vec::new(),
            last_run: None,
            run_count: 0,
            orderbooks: Vec::new(),
            last_arbitrage_check: None,
        };
        proof {
            assert(r@.selected_market_ids =~= Seq::empty());
            assert(r@.selected_market_names =~= Seq::empty());
            assert(r@.selected_event_ids =~= Seq::empty());
            assert(r@.selected_event_names =~= Seq::empty());
            assert(r@.alerts =~= Seq::empty());
            assert(r@.orderbooks =~= Seq::empty());
        }
        r
    }

    pub fn get_selection_summary(&self) -> (r: String)
        ensures
            r@ == selection_summary(self@),
    {
        match self.strategy_type.scope() {
            StrategyScope::Event => {
                if self.selected_event_ids.len() == 0 {
                    String::from_str("No events selected")
                } else {
                    nat_to_text(self.selected_event_ids.len() as u128).concat(" event(s) selected")
                }
            },
            _ => {
                if self.selected_market_ids.len() == 0 {
                    String::from_str("No markets selected")
                } else {
                    nat_to_text(self.selected_market_ids.len() as u128).concat(
                        " market(s) selected",
                    )
                }
            },
        }
    }

    /// The position of the cached book of `token`, or the number of cached
    /// books.
    fn find_book(&self, token: &str) -> (i: usize)
        ensures
            i == book_position(self@.orderbooks, token@),
            i <= self.orderbooks@.len(),
    {
        let ghost books = books_view(self.orderbooks@);
        let mut i: usize = 0;
        while i < self.orderbooks.len()
            invariant
                i <= self.orderbooks.len(),
                books == books_view(self.orderbooks@),
                forall|j: int| 0 <= j < i ==> (#[trigger] books[j]).token_id != token@,
            decreases self.orderbooks.len() - i,
        {
            if str_eq(self.orderbooks[i].token_id.as_str(), token) {
                proof {
                    assert(books[i as int].token_id == token@);
                    lemma_book_position(books, token@, i as int);
                }
                return i;
            }
            i = i + 1;
        }
        proof {
            lemma_book_position(books, token@, i as int);
        }
        i
    }

    /// Caches the latest book of its instrument: it takes the place of the
    /// book of that instrument, so that no instrument is cached twice.
    pub fn update_orderbook(&mut self, orderbook: OrderBookData)
        ensures
            final(self)@ == (StrategyModel {
                orderbooks: upsert_book(old(self)@.orderbooks, orderbook@),
                ..old(self)@
            }),
            one_book_each(old(self)@.orderbooks) ==> one_book_each(final(self)@.orderbooks),
    {
        proof {
            if one_book_each(self@.orderbooks) {
                lemma_upsert_keeps_one_each(self@.orderbooks, orderbook@);
            }
        }
        let i = self.find_book(orderbook.token_id.as_str());
        if i < self.orderbooks.len() {
            self.orderbooks.set(i, orderbook);
            assert(books_view(self.orderbooks@) =~= old(self)@.orderbooks.update(
                i as int,
                orderbook@,
            ));
        } else {
            self.orderbooks.push(orderbook);
            assert(books_view(self.orderbooks@) =~= old(self)@.orderbooks.push(orderbook@));
        }
    }

    /// The instruments taken to belong to an event: for a subscribed event
    /// all the subscribed markets, for any other none.
    pub fn get_event_markets(&self, event_id: &str) -> (r: Vec<String>)
        ensures
            strings_view(r@) == if self@.selected_event_ids.contains(event_id@) {
                self@.selected_market_ids
            } else {
                Seq::empty()
            },
    {
        if contains_id(&self.selected_event_ids, event_id) {
            copy_strings(&self.selected_market_ids)
        } else {
            let r: Vec<String> = Vec::new();
            assert(strings_view(r@) =~= Seq::empty());
            r
        }
    }

    /// The best price of one side of the cached book of `token`.
    fn best_price(&self, token: &str, bid_side: bool) -> (r: Option<u64>)
        ensures
            r == best_price_of(self@.orderbooks, token@, bid_side),
    {
        let i = self.find_book(token);
        if i < self.orderbooks.len() {
            let book = &self.orderbooks[i];
            assert(books_view(self.orderbooks@)[i as int] == book@);
            if bid_side {
                if book.bids.len() > 0 {
                    Some(book.bids[0].price)
                } else {
                    None
                }
            } else {
                if book.asks.len() > 0 {
                    Some(book.asks[0].price)
                } else {
                    None
                }
            }
        } else {
            None
        }
    }

    /// The best prices of all subscribed markets on one side, added up.
    fn total_of_legs(&self, bid_side: bool) -> (r: Option<u128>)
        ensures
            match r {
                Some(total) => legs_total(self@.orderbooks, self@.selected_market_ids, bid_side)
                    == Some(total as nat),
                None => legs_total(self@.orderbooks, self@.selected_market_ids, bid_side) is None,
            },
    {
        let ghost legs = strings_view(self.selected_market_ids@);
        let ghost books = self@.orderbooks;
        let mut total: u128 = 0;
        let mut i: usize = 0;
        assert(legs.take(0) =~= Seq::<Seq<char>>::empty());
        while i < self.selected_market_ids.len()
            invariant
                i <= self.selected_market_ids.len(),
                legs == strings_view(self.selected_market_ids@),
                books == self@.orderbooks,
                legs_total(books, legs.take(i as int), bid_side) == Some(total as nat),
                total <= i * 0xffff_ffff_ffff_ffff,
            decreases self.selected_market_ids.len() - i,
        {
            proof {
                assert(legs.take(i + 1).drop_last() =~= legs.take(i as int));
                assert(legs.take(i + 1).last() == self.selected_market_ids@[i as int]@);
            }
            match self.best_price(self.selected_market_ids[i].as_str(), bid_side) {
                Some(price) => {
                    total = total + price as u128;
                },
                None => {
                    proof {
                        lemma_legs_total_none(books, legs, bid_side, i as int);
                    }
                    return None;
                },
            }
            i = i + 1;
        }
        assert(legs.take(i as int) =~= legs);
        Some(total)
    }

    /// The alerts of one event at `now`.
    fn alerts_of_event(&self, now: i64) -> (r: Vec<StrategyAlert>)
        ensures
            alerts_view(r@) == event_alerts(self@.orderbooks, self@.selected_market_ids, now),
    {
        let mut found: Vec<StrategyAlert> = Vec::new();
        assert(alerts_view(found@) =~= Seq::empty());
        if self.selected_market_ids.len() < 2 {
            return found;
        }
        if let Some(total) = self.total_of_legs(true) {
            if total < SCALE as u128 {
                let a = make_arbitrage_alert("YES", total, now);
                found.push(a);
                assert(alerts_view(found@) =~= seq![a@]);
            }
        }
        let ghost yes = alerts_view(found@);
        if let Some(total) = self.total_of_legs(false) {
            if total < SCALE as u128 {
                let a = make_arbitrage_alert("NO", total, now);
                found.push(a);
                assert(alerts_view(found@) =~= yes + seq![a@]);
            }
        }
        assert(alerts_view(found@) =~= event_alerts(
            self@.orderbooks,
            self@.selected_market_ids,
            now,
        ));
        found
    }

    /// Looks for arbitrage among the cached books at `now`.
    pub fn check_arbitrage_opportunities_at(&mut self, now: i64) -> (r: Vec<StrategyAlert>)
        ensures
            alerts_view(r@) == arbitrage_alerts(old(self)@, now),
            final(self)@ == (StrategyModel {
                last_arbitrage_check: if old(self)@.strategy_type
                    == StrategyType::ArbitrageDetector {
                    Some(now)
                } else {
                    old(self)@.last_arbitrage_check
                },
                ..old(self)@
            }),
    {
        let mut alerts: Vec<StrategyAlert> = Vec::new();
        assert(alerts_view(alerts@) =~= Seq::empty());
        if self.strategy_type != StrategyType::ArbitrageDetector {
            return alerts;
        }
        let ghost per_event = event_alerts(self@.orderbooks, self@.selected_market_ids, now);
        let mut i: usize = 0;
        while i < self.selected_event_ids.len()
            invariant
                i <= self.selected_event_ids.len(),
                *self == *old(self),
                per_event == event_alerts(self@.orderbooks, self@.selected_market_ids, now),
                alerts_view(alerts@) == repeated(per_event, i as nat),
            decreases self.selected_event_ids.len() - i,
        {
            let ghost before = alerts_view(alerts@);
            let mut found = self.alerts_of_event(now);
            let ghost more = alerts_view(found@);
            alerts.append(&mut found);
            assert(alerts_view(alerts@) =~= before + more);
            i = i + 1;
        }
        self.last_arbitrage_check = Some(now);
        assert(strings_view(self.selected_event_ids@).len() == self.selected_event_ids@.len());
        alerts
    }

    /// Looks for arbitrage among the cached books, by the current time.
    pub fn check_arbitrage_opportunities(&mut self) -> (r: Vec<StrategyAlert>)
        ensures
            exists|now: i64|
                alerts_view(r@) == arbitrage_alerts(old(self)@, now) && final(self)@
                    == (StrategyModel {
                    last_arbitrage_check: if old(self)@.strategy_type
                        == StrategyType::ArbitrageDetector {
                        Some(now)
                    } else {
                        old(self)@.last_arbitrage_check
                    },
                    ..old(self)@
                }),
    {
        let now = now_millis();
        let r = self.check_arbitrage_opportunities_at(now);
        assert(alerts_view(r@) == arbitrage_alerts(old(self)@, now));
        r
    }
}

/// Where one leg has no best price, the legs have no total.
pub proof fn lemma_legs_total_none(
    books: Seq<BookModel>,
    legs: Seq<Seq<char>>,
    bid_side: bool,
    i: int,
)
    requires
        0 <= i < legs.len(),
        best_price_of(books, legs[i], bid_side) is None,
    ensures
        legs_total(books, legs, bid_side) is None,
    decreases legs.len(),
{
    if i < legs.len() - 1 {
        let head = legs.drop_last();
        assert(head[i] == legs[i]);
        lemma_legs_total_none(books, head, bid_side, i);
    }
}

} // verus!
