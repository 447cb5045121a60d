//! What holds of a strategy's alert log over any run of book updates.

use crate::bot::engine::{
    anomaly_alert,
    dispatch_spec,
    engine_process_spec,
    process_spec,
    takes_update,
    volume_alert,
    EngineModel,
};
use crate::bot::strategy::{
    arbitrage_alerts,
    event_alerts,
    lemma_alert_log_bound,
    newest_alerts,
    push_alerts_spec,
    repeated,
    upsert_book,
    AlertModel,
    StrategyModel,
    StrategyType,
};
use crate::config::MAX_ALERTS;
use crate::data::BookModel;
use vstd::prelude::*;

verus! {

/// One book update: the book, and the time at which it is handed to the
/// strategies.
pub struct Update {
    pub book: BookModel,
    pub now: i64,
}

/// The alert, where there is one, as a sequence.
pub open spec fn alert_seq(alert: Option<AlertModel>) -> Seq<AlertModel> {
    match alert {
        Some(a) => seq![a],
        None => Seq::empty(),
    }
}

/// The alerts that a dispatch of `book` to `s` at `now` raises, in order.
pub open spec fn emitted(s: StrategyModel, book: BookModel, now: i64) -> Seq<AlertModel> {
    match s.strategy_type {
        StrategyType::ArbitrageDetector => arbitrage_alerts(
            StrategyModel { orderbooks: upsert_book(s.orderbooks, book), ..s },
            now,
        ),
        StrategyType::PriceAnomaly => alert_seq(anomaly_alert(book, now)),
        StrategyType::VolumeSpike => alert_seq(volume_alert(book, now)),
        StrategyType::CrossMarketCorrelation => Seq::empty(),
    }
}

/// A strategy after a run of book updates, handed over in order.
pub open spec fn strategy_after(s: StrategyModel, updates: Seq<Update>) -> StrategyModel
    decreases updates.len(),
{
    if updates.len() == 0 {
        s
    } else {
        process_spec(
            strategy_after(s, updates.drop_last()),
            updates.last().book,
            updates.last().now,
        )
    }
}

/// All the alerts that a strategy raises over a run of book updates, in
/// the order in which they are raised.
pub open spec fn raised(s: StrategyModel, updates: Seq<Update>) -> Seq<AlertModel>
    decreases updates.len(),
{
    if updates.len() == 0 {
        Seq::empty()
    } else {
        let before = strategy_after(s, updates.drop_last());
        raised(s, updates.drop_last()) + if takes_update(before, updates.last().book) {
            emitted(before, updates.last().book, updates.last().now)
        } else {
            Seq::empty()
        }
    }
}

/// The engine after a run of book updates, handed over in order.
pub open spec fn engine_after(e: EngineModel, updates: Seq<Update>) -> EngineModel
    decreases updates.len(),
{
    if updates.len() == 0 {
        e
    } else {
        engine_process_spec(
            engine_after(e, updates.drop_last()),
            updates.last().book,
            updates.last().now,
        )
    }
}

/// Each strategy of an engine goes through a run of updates on its own.
pub proof fn lemma_engine_after(e: EngineModel, updates: Seq<Update>, i: int)
    requires
        0 <= i < e.strategies.len(),
    ensures
        engine_after(e, updates).strategies.len() == e.strategies.len(),
        engine_after(e, updates).strategies[i] == strategy_after(e.strategies[i], updates),
        engine_after(e, updates).active_strategy == e.active_strategy,
    decreases updates.len(),
{
    if updates.len() > 0 {
        lemma_engine_after(e, updates.drop_last(), i);
    }
}

/// The newest 100 of a series are the newest 100 of what is left when
/// older ones have been dropped from it already.
pub proof fn lemma_newest_absorbs(older: Seq<AlertModel>, newer: Seq<AlertModel>)
    ensures
        newest_alerts(newest_alerts(older) + newer) == newest_alerts(older + newer),
{
    if older.len() > MAX_ALERTS {
        let cut = older.len() - MAX_ALERTS;
        let kept = older.skip(cut);
        assert(newest_alerts(older) == kept);
        if newer.len() > 0 {
            assert((kept + newer).skip(newer.len() as int) =~= (older + newer).skip(
                cut + newer.len(),
            ));
        } else {
            assert(kept + newer =~= kept);
            assert(older + newer =~= older);
        }
    }
}

/// A dispatch pushes the alerts that it raises onto the log, in order.
pub proof fn lemma_dispatch_alerts(s: StrategyModel, book: BookModel, now: i64)
    ensures
        dispatch_spec(s, book, now).alerts == push_alerts_spec(s.alerts, emitted(s, book, now)),
{
    let e = emitted(s, book, now);
    match s.strategy_type {
        StrategyType::ArbitrageDetector => {},
        StrategyType::CrossMarketCorrelation => {},
        _ => {
            if e.len() > 0 {
                assert(e.drop_last() =~= Seq::<AlertModel>::empty());
                assert(push_alerts_spec(s.alerts, e.drop_last()) == s.alerts);
            }
        },
    }
}

/// Over any run of book updates a strategy's log holds the newest 100 of
/// the alerts it held and raised, in the order in which they were raised.
/// So after 150 updates that raise one alert each, an empty log holds
/// exactly the last 100 of them.
pub proof fn lemma_alert_log_over_run(s: StrategyModel, updates: Seq<Update>)
    requires
        s.alerts.len() <= MAX_ALERTS,
    ensures
        strategy_after(s, updates).alerts == newest_alerts(s.alerts + raised(s, updates)),
        strategy_after(s, updates).alerts.len() <= MAX_ALERTS,
        s.alerts.len() + raised(s, updates).len() >= MAX_ALERTS ==> strategy_after(
            s,
            updates,
        ).alerts.len() == MAX_ALERTS,
        s.alerts.len() == 0 && raised(s, updates).len() >= MAX_ALERTS ==> strategy_after(
            s,
            updates,
        ).alerts == raised(s, updates).skip(raised(s, updates).len() - MAX_ALERTS),
    decreases updates.len(),
{
    if updates.len() == 0 {
        assert(s.alerts + raised(s, updates) =~= s.alerts);
    } else {
        let head = updates.drop_last();
        let last = updates.last();
        lemma_alert_log_over_run(s, head);
        let before = strategy_after(s, head);
        let seen = s.alerts + raised(s, head);
        if takes_update(before, last.book) {
            let e = emitted(before, last.book, last.now);
            lemma_dispatch_alerts(before, last.book, last.now);
            lemma_alert_log_bound(before.alerts, e);
            lemma_newest_absorbs(seen, e);
            assert(seen + e =~= s.alerts + raised(s, updates));
        } else {
            assert(raised(s, updates) =~= raised(s, head));
        }
    }
    if s.alerts.len() == 0 {
        assert(s.alerts + raised(s, updates) =~= raised(s, updates));
    }
}

/// Whether the update at position `k` of a run is dispatched to the
/// strategy and raises exactly the alert `alert`.
#[verifier::opaque]
pub open spec fn raises_just(
    s: StrategyModel,
    updates: Seq<Update>,
    k: int,
    alert: AlertModel,
) -> bool {
    let before = strategy_after(s, updates.take(k));
    takes_update(before, updates[k].book) && emitted(before, updates[k].book, updates[k].now)
        == seq![alert]
}

/// Where every update of a run is dispatched and raises exactly one
/// alert, the alerts raised are those, one for each update in order; and a
/// log that was empty holds the last 100 of them once there are that many.
pub proof fn lemma_one_alert_each(s: StrategyModel, updates: Seq<Update>, alerts: Seq<AlertModel>)
    requires
        s.alerts.len() == 0,
        alerts.len() == updates.len(),
        forall|k: int| 0 <= k < updates.len() ==> #[trigger] raises_just(s, updates, k, alerts[k]),
    ensures
        raised(s, updates) == alerts,
        updates.len() >= MAX_ALERTS ==> strategy_after(s, updates).alerts == alerts.skip(
            alerts.len() - MAX_ALERTS,
        ),
    decreases updates.len(),
{
    if updates.len() == 0 {
        assert(raised(s, updates) =~= alerts);
    } else {
        let head = updates.drop_last();
        let n = head.len() as int;
        assert forall|k: int| 0 <= k < head.len() implies #[trigger] raises_just(
            s,
            head,
            k,
            alerts.drop_last()[k],
        ) by {
            assert(raises_just(s, updates, k, alerts[k]));
            assert(head.take(k) =~= updates.take(k));
            assert(head[k] == updates[k]);
            reveal(raises_just);
        }
        lemma_one_alert_each(s, head, alerts.drop_last());
        let before = strategy_after(s, head);
        assert(takes_update(before, updates.last().book) && emitted(
            before,
            updates.last().book,
            updates.last().now,
        ) == seq![alerts[n]]) by {
            assert(raises_just(s, updates, n, alerts[n]));
            assert(updates.take(n) =~= head);
            reveal(raises_just);
        }
        assert(raised(s, updates) == raised(s, head) + seq![alerts[n]]);
        assert(alerts.drop_last() + seq![alerts[n]] =~= alerts);
    }
    lemma_alert_log_over_run(s, updates);
}

/// The same of a strategy in an engine, over a run of
/// [`crate::bot::engine::BotEngine::process_orderbook_at`].
pub proof fn lemma_engine_alert_log(e: EngineModel, updates: Seq<Update>, i: int)
    requires
        0 <= i < e.strategies.len(),
        e.strategies[i].alerts.len() <= MAX_ALERTS,
    ensures
        engine_after(e, updates).strategies[i].alerts == newest_alerts(
            e.strategies[i].alerts + raised(e.strategies[i], updates),
        ),
        e.strategies[i].alerts.len() + raised(e.strategies[i], updates).len() >= MAX_ALERTS
            ==> engine_after(e, updates).strategies[i].alerts.len() == MAX_ALERTS,
{
    lemma_engine_after(e, updates, i);
    lemma_alert_log_over_run(e.strategies[i], updates);
}

/// Every entry of a repeated sequence is an entry of the sequence.
pub proof fn lemma_repeated_members(alerts: Seq<AlertModel>, times: nat)
    ensures
        forall|k: int|
            0 <= k < repeated(alerts, times).len() ==> alerts.contains(
                #[trigger] repeated(alerts, times)[k],
            ),
    decreases times,
{
    if times > 0 {
        lemma_repeated_members(alerts, (times - 1) as nat);
        let head = repeated(alerts, (times - 1) as nat);
        let all = repeated(alerts, times);
        assert forall|k: int| 0 <= k < all.len() implies alerts.contains(#[trigger] all[k]) by {
            if k < head.len() {
                assert(all[k] == head[k]);
            } else {
                assert(alerts[k - head.len()] == all[k]);
            }
        }
    }
}

/// Every alert carries the time of the dispatch that raised it.
pub proof fn lemma_emitted_stamped(s: StrategyModel, book: BookModel, now: i64)
    ensures
        forall|k: int|
            0 <= k < emitted(s, book, now).len() ==> (#[trigger] emitted(
                s,
                book,
                now,
            )[k]).timestamp == now,
{
    let e = emitted(s, book, now);
    if s.strategy_type == StrategyType::ArbitrageDetector {
        let cached = StrategyModel { orderbooks: upsert_book(s.orderbooks, book), ..s };
        let per_event = event_alerts(cached.orderbooks, cached.selected_market_ids, now);
        lemma_repeated_members(per_event, cached.selected_event_ids.len());
        assert forall|k: int| 0 <= k < e.len() implies (#[trigger] e[k]).timestamp == now by {
            assert(per_event.contains(e[k]));
            let j = choose|j: int| 0 <= j < per_event.len() && per_event[j] == e[k];
            assert(per_event[j].timestamp == now);
        }
    }
}

} // verus!
