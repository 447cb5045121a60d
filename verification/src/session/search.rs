//! Searching the catalog: which markets and events pass the query.

use crate::data::{EventInfo, MarketInfo};
use crate::session::App;
use crate::text::{
    ascii_lower,
    ascii_lower_seq,
    contains_chars,
    contains_seq,
    lower_chars,
    to_ascii_lower,
};
use vstd::prelude::*;

verus! {

/// Whether `text` contains `query`, whatever the case of ASCII letters:
/// both are folded by [`ascii_lower`], and letters outside ASCII are
/// compared as they stand. Every text contains the empty query.
pub open spec fn text_matches(text: Seq<char>, query: Seq<char>) -> bool {
    contains_seq(ascii_lower_seq(text), ascii_lower_seq(query))
}

/// Whether a market passes the query: its question contains it.
pub open spec fn market_passes(market: MarketInfo, query: Seq<char>) -> bool {
    text_matches(market.question@, query)
}

/// Whether an event passes the query: it has more than one market, and
/// its title or its description contains the query.
pub open spec fn event_passes_query(event: EventInfo, query: Seq<char>) -> bool {
    event.markets@.len() > 1 && (text_matches(event.title@, query) || text_matches(
        event.description@,
        query,
    ))
}

/// The positions below `n` of the markets that pass the query, rising.
pub open spec fn market_indices(markets: Seq<MarketInfo>, query: Seq<char>, n: int) -> Seq<usize>
    decreases n,
{
    if n <= 0 {
        Seq::empty()
    } else {
        let head = market_indices(markets, query, n - 1);
        if market_passes(markets[n - 1], query) {
            head.push((n - 1) as usize)
        } else {
            head
        }
    }
}

/// The positions below `n` of the events that pass the query, rising.
pub open spec fn event_indices(events: Seq<EventInfo>, query: Seq<char>, n: int) -> Seq<usize>
    decreases n,
{
    if n <= 0 {
        Seq::empty()
    } else {
        let head = event_indices(events, query, n - 1);
        if event_passes_query(events[n - 1], query) {
            head.push((n - 1) as usize)
        } else {
            head
        }
    }
}

/// The positions found are positions of the catalog.
pub proof fn lemma_market_indices_bound(markets: Seq<MarketInfo>, query: Seq<char>, n: int)
    requires
        n <= usize::MAX,
    ensures
        forall|i: int|
            0 <= i < market_indices(markets, query, n).len() ==> #[trigger] market_indices(
                markets,
                query,
                n,
            )[i] < n,
        market_indices(markets, query, n).len() <= if n > 0 {
            n
        } else {
            0
        },
    decreases n,
{
    if n > 0 {
        lemma_market_indices_bound(markets, query, n - 1);
    }
}

pub proof fn lemma_event_indices_bound(events: Seq<EventInfo>, query: Seq<char>, n: int)
    requires
        n <= usize::MAX,
    ensures
        forall|i: int|
            0 <= i < event_indices(events, query, n).len() ==> #[trigger] event_indices(
                events,
                query,
                n,
            )[i] < n,
        event_indices(events, query, n).len() <= if n > 0 {
            n
        } else {
            0
        },
    decreases n,
{
    if n > 0 {
        lemma_event_indices_bound(events, query, n - 1);
    }
}

/// The characters of a query, folded by [`ascii_lower`].
fn lower_query(query: &Vec<char>) -> (r: Vec<char>)
    ensures
        r@ == ascii_lower_seq(query@),
{
    let mut r: Vec<char> = Vec::new();
    let mut i: usize = 0;
    while i < query.len()
        invariant
            i <= query.len(),
            r@.len() == i,
            forall|j: int| 0 <= j < i ==> r@[j] == ascii_lower(query@[j]),
        decreases query.len() - i,
    {
        r.push(to_ascii_lower(query[i]));
        i = i + 1;
    }
    assert(r@ =~= ascii_lower_seq(query@));
    r
}

/// Whether `text` contains the folded query.
fn matches_query(text: &str, folded: &Vec<char>) -> (r: bool)
    ensures
        r == contains_seq(ascii_lower_seq(text@), folded@),
{
    let chars = lower_chars(text);
    contains_chars(&chars, folded)
}

impl App {
    /// How the session is left by [`App::update_filtered_markets`].
    pub open spec fn update_filtered_markets_done(before: App, after: App) -> bool {
        &&& after.filtered_markets@ == market_indices(
            before.markets@,
            before.search_query@,
            before.markets@.len() as int,
        )
        &&& after == ({
            let reset = before.selected_market >= after.filtered_markets@.len()
                && after.filtered_markets@.len() > 0;
            App {
                filtered_markets: after.filtered_markets,
                selected_market: if reset {
                    0
                } else {
                    before.selected_market
                },
                market_scroll_offset: if reset {
                    0
                } else {
                    before.market_scroll_offset
                },
                ..before
            }
        })
    }

    /// Finds the markets that pass the search query. A selection that
    /// points beyond the new list goes back to its first entry.
    pub fn update_filtered_markets(&mut self)
        requires
            old(self).wf(),
        ensures
            Self::update_filtered_markets_done(*old(self), *final(self)),
            final(self).wf(),
    {
        let folded = lower_query(&self.search_query);
        let mut found: Vec<usize> = Vec::new();
        let mut i: usize = 0;
        while i < self.markets.len()
            invariant
                i <= self.markets.len(),
                *self == *old(self),
                folded@ == ascii_lower_seq(self.search_query@),
                found@ == market_indices(self.markets@, self.search_query@, i as int),
            decreases self.markets.len() - i,
        {
            if matches_query(self.markets[i].question.as_str(), &folded) {
                found.push(i);
            }
            i = i + 1;
        }
        proof {
            lemma_market_indices_bound(
                self.markets@,
                self.search_query@,
                self.markets@.len() as int,
            );
        }
        self.filtered_markets = found;
        if self.selected_market >= self.filtered_markets.len() && self.filtered_markets.len() > 0 {
            self.selected_market = 0;
            self.market_scroll_offset = 0;
        }
    }

    /// How the session is left by [`App::update_filtered_events`].
    pub open spec fn update_filtered_events_done(before: App, after: App) -> bool {
        &&& after.filtered_events@ == event_indices(
            before.events@,
            before.search_query@,
            before.events@.len() as int,
        )
        &&& after == ({
            let reset = before.selected_event >= after.filtered_events@.len()
                && after.filtered_events@.len() > 0;
            App {
                filtered_events: after.filtered_events,
                selected_event: if reset {
                    0
                } else {
                    before.selected_event
                },
                event_scroll_offset: if reset {
                    0
                } else {
                    before.event_scroll_offset
                },
                ..before
            }
        })
    }

    /// Finds the events that pass the search query. A selection that
    /// points beyond the new list goes back to its first entry.
    pub fn update_filtered_events(&mut self)
        requires
            old(self).wf(),
        ensures
            Self::update_filtered_events_done(*old(self), *final(self)),
            final(self).wf(),
    {
        let folded = lower_query(&self.search_query);
        let mut found: Vec<usize> = Vec::new();
        let mut i: usize = 0;
        while i < self.events.len()
            invariant
                i <= self.events.len(),
                *self == *old(self),
                folded@ == ascii_lower_seq(self.search_query@),
                found@ == event_indices(self.events@, self.search_query@, i as int),
            decreases self.events.len() - i,
        {
            let event = &self.events[i];
            if event.markets.len() > 1 && (matches_query(event.title.as_str(), &folded)
                || matches_query(event.description.as_str(), &folded)) {
                found.push(i);
            }
            i = i + 1;
        }
        proof {
            lemma_event_indices_bound(self.events@, self.search_query@, self.events@.len() as int);
        }
        self.filtered_events = found;
        if self.selected_event >= self.filtered_events.len() && self.filtered_events.len() > 0 {
            self.selected_event = 0;
            self.event_scroll_offset = 0;
        }
    }

    /// What a change of the search query leaves behind: both lists found
    /// anew, and the selection at their first entries.
    pub open spec fn searched(&self, query: Seq<char>, before: App) -> bool {
        &&& self.search_query@ == query
        &&& self.filtered_markets@ == market_indices(
            before.markets@,
            query,
            before.markets@.len() as int,
        )
        &&& self.filtered_events@ == event_indices(
            before.events@,
            query,
            before.events@.len() as int,
        )
        &&& *self == (App {
            search_query: self.search_query,
            filtered_markets: self.filtered_markets,
            filtered_events: self.filtered_events,
            selected_market: 0,
            selected_event: 0,
            market_scroll_offset: 0,
            event_scroll_offset: 0,
            needs_redraw: true,
            search_mode: self.search_mode,
            ..before
        })
    }

    /// Finds both lists anew and puts the selection at their first
    /// entries.
    fn reset_search_state(&mut self)
        requires
            old(self).wf(),
        ensures
            final(self).wf(),
            final(self).searched(old(self).search_query@, *old(self)),
            final(self).search_mode == old(self).search_mode,
            final(self).search_query == old(self).search_query,
    {
        self.update_filtered_markets();
        self.update_filtered_events();
        self.selected_market = 0;
        self.selected_event = 0;
        self.market_scroll_offset = 0;
        self.event_scroll_offset = 0;
        self.needs_redraw = true;
    }

    /// How the session is left by [`App::add_search_char`].
    pub open spec fn add_search_char_done(before: App, after: App, ch: char) -> bool {
        &&& after.searched(before.search_query@.push(ch), before)
        &&& after.search_mode == before.search_mode
    }

    /// Adds a character to the search query.
    pub fn add_search_char(&mut self, ch: char)
        requires
            old(self).wf(),
        ensures
            Self::add_search_char_done(*old(self), *final(self), ch),
            final(self).wf(),
    {
        self.search_query.push(ch);
        self.reset_search_state();
    }

    /// How the session is left by [`App::remove_search_char`].
    pub open spec fn remove_search_char_done(before: App, after: App) -> bool {
        &&& after.searched(
            if before.search_query@.len() > 0 {
                before.search_query@.drop_last()
            } else {
                before.search_query@
            },
            before,
        )
        &&& after.search_mode == before.search_mode
    }

    /// Takes the last character off the search query.
    pub fn remove_search_char(&mut self)
        requires
            old(self).wf(),
        ensures
            Self::remove_search_char_done(*old(self), *final(self)),
            final(self).wf(),
    {
        let _ = self.search_query.pop();
        self.reset_search_state();
    }

    /// How the session is left by [`App::clear_search`].
    pub open spec fn clear_search_done(before: App, after: App) -> bool {
        &&& after.searched(Seq::empty(), before)
        &&& after.search_mode == before.search_mode
    }

    /// Empties the search query.
    pub fn clear_search(&mut self)
        requires
            old(self).wf(),
        ensures
            Self::clear_search_done(*old(self), *final(self)),
            final(self).wf(),
    {
        self.search_query.clear();
        self.reset_search_state();
    }

    /// How the session is left by [`App::toggle_search_mode`].
    pub open spec fn toggle_search_mode_done(before: App, after: App) -> bool {
        &&& after.search_mode == !before.search_mode
        &&& before.search_mode ==> after.searched(Seq::empty(), before)
        &&& !before.search_mode ==> after == (App {
            search_mode: true,
            needs_redraw: true,
            ..before
        })
    }

    /// Enters or leaves search mode; leaving it empties the query.
    pub fn toggle_search_mode(&mut self)
        requires
            old(self).wf(),
        ensures
            Self::toggle_search_mode_done(*old(self), *final(self)),
            final(self).wf(),
    {
        self.search_mode = !self.search_mode;
        if !self.search_mode {
            self.clear_search();
        }
        self.needs_redraw = true;
    }
}

} // verus!
