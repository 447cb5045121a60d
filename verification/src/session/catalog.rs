//! Taking a catalog fetched from the exchange into the session.

use crate::config::MAX_EVENTS;
use crate::data::{
    events_view,
    markets_view,
    EventInfo,
    EventModel,
    MarketInfo,
    MarketModel,
};
use crate::session::search::{event_indices, market_indices};
use crate::session::App;
use vstd::prelude::*;

verus! {

/// Events asked for in one page.
pub const PAGE_LENGTH: usize = 500;

/// Whether a market is still traded: active, not closed, not resolved.
pub open spec fn is_open(market: MarketModel) -> bool {
    market.active && !market.closed && !market.resolved
}

/// The markets that are still traded, in their order.
pub open spec fn open_markets(markets: Seq<MarketModel>) -> Seq<MarketModel>
    decreases markets.len(),
{
    if markets.len() == 0 {
        markets
    } else if is_open(markets.last()) {
        open_markets(markets.drop_last()).push(markets.last())
    } else {
        open_markets(markets.drop_last())
    }
}

/// The events that still have a traded market, each with its traded
/// markets only, in their order.
pub open spec fn pruned_events(events: Seq<EventModel>) -> Seq<EventModel>
    decreases events.len(),
{
    if events.len() == 0 {
        events
    } else {
        let head = pruned_events(events.drop_last());
        let kept = open_markets(events.last().markets);
        if kept.len() > 0 {
            head.push(EventModel { markets: kept, ..events.last() })
        } else {
            head
        }
    }
}

/// Whether the catalog is complete after a page of `received` events that
/// brought the total to `total`: the page was short, or the catalog is as
/// long as it may get.
pub fn catalog_complete(received: usize, total: usize) -> (r: bool)
    ensures
        r == (received < PAGE_LENGTH || total >= MAX_EVENTS),
{
    received < PAGE_LENGTH || total >= MAX_EVENTS
}

/// The markets of a list that are still traded.
pub fn keep_open(markets: &Vec<MarketInfo>) -> (r: Vec<MarketInfo>)
    ensures
        markets_view(r@) == open_markets(markets_view(markets@)),
{
    let ghost all = markets_view(markets@);
    let mut kept: Vec<MarketInfo> = Vec::new();
    let mut i: usize = 0;
    assert(all.take(0) =~= Seq::<MarketModel>::empty());
    assert(markets_view(kept@) =~= Seq::<MarketModel>::empty());
    while i < markets.len()
        invariant
            i <= markets.len(),
            all == markets_view(markets@),
            markets_view(kept@) == open_markets(all.take(i as int)),
        decreases markets.len() - i,
    {
        proof {
            assert(all.take(i + 1).drop_last() =~= all.take(i as int));
            assert(all.take(i + 1).last() == markets@[i as int]@);
        }
        let market = &markets[i];
        if market.active && !market.closed && !market.resolved {
            let ghost before = markets_view(kept@);
            let copy = market.duplicate();
            kept.push(copy);
            assert(markets_view(kept@) =~= before.push(copy@));
        }
        i = i + 1;
    }
    assert(all.take(markets.len() as int) =~= all);
    kept
}

/// Takes out markets that are no longer traded, and events that are left
/// without a market.
pub fn prune_empty_events(events: &Vec<EventInfo>) -> (r: Vec<EventInfo>)
    ensures
        events_view(r@) == pruned_events(events_view(events@)),
{
    let ghost all = events_view(events@);
    let mut kept: Vec<EventInfo> = Vec::new();
    let mut i: usize = 0;
    assert(all.take(0) =~= Seq::<EventModel>::empty());
    assert(events_view(kept@) =~= Seq::<EventModel>::empty());
    while i < events.len()
        invariant
            i <= events.len(),
            all == events_view(events@),
            events_view(kept@) == pruned_events(all.take(i as int)),
        decreases events.len() - i,
    {
        proof {
            assert(all.take(i + 1).drop_last() =~= all.take(i as int));
            assert(all.take(i + 1).last() == events@[i as int]@);
        }
        let event = &events[i];
        let markets = keep_open(&event.markets);
        if markets.len() > 0 {
            let ghost before = events_view(kept@);
            let copy = EventInfo {
                id: event.id.clone(),
                title: event.title.clone(),
                description: event.description.clone(),
                markets,
            };
            kept.push(copy);
            assert(events_view(kept@) =~= before.push(copy@));
        }
        i = i + 1;
    }
    assert(all.take(events.len() as int) =~= all);
    kept
}

impl App {
    /// How the session is left by [`App::install_catalog`].
    pub open spec fn install_catalog_done(
        before: App,
        after: App,
        events: Vec<EventInfo>,
        markets: Vec<MarketInfo>,
    ) -> bool {
        let unfit_market = before.selected_market >= after.filtered_markets@.len();
        let unfit_event = before.selected_event >= after.filtered_events@.len();
        &&& after.filtered_markets@ == market_indices(
            markets@,
            before.search_query@,
            markets@.len() as int,
        )
        &&& after.filtered_events@ == event_indices(
            events@,
            before.search_query@,
            events@.len() as int,
        )
        &&& after == (App {
            events,
            markets,
            filtered_markets: after.filtered_markets,
            filtered_events: after.filtered_events,
            selected_market: if unfit_market {
                0
            } else {
                before.selected_market
            },
            market_scroll_offset: if unfit_market {
                0
            } else {
                before.market_scroll_offset
            },
            selected_event: if unfit_event {
                0
            } else {
                before.selected_event
            },
            event_scroll_offset: if unfit_event {
                0
            } else {
                before.event_scroll_offset
            },
            error_message: None,
            ..before
        })
    }

    /// Takes a new catalog: both lists are found anew for the search
    /// query at hand, a selection that points beyond its list goes back to
    /// the first entry, and an error that was shown is taken away.
    pub fn install_catalog(&mut self, events: Vec<EventInfo>, markets: Vec<MarketInfo>)
        requires
            old(self).wf(),
        ensures
            Self::install_catalog_done(*old(self), *final(self), events, markets),
            final(self).wf(),
    {
        self.events = events;
        self.markets = markets;
        // The old lists point into the old catalog.
        self.filtered_markets = Vec::new();
        self.filtered_events = Vec::new();
        self.update_filtered_markets();
        self.update_filtered_events();
        if self.selected_market >= self.filtered_markets.len() {
            self.selected_market = 0;
            self.market_scroll_offset = 0;
        }
        if self.selected_event >= self.filtered_events.len() {
            self.selected_event = 0;
            self.event_scroll_offset = 0;
        }
        self.error_message = None;
    }
}

} // verus!
