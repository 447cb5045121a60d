//! Moving the selection through markets, events and tokens.

use crate::data::TokenInfo;
use crate::session::{
    cycle_next,
    cycle_previous,
    next_index,
    page_down,
    page_down_index,
    page_up,
    page_up_index,
    previous_index,
    App,
};
use crate::types::MarketSelectorTab;
use vstd::prelude::*;

verus! {

impl App {
    /// The tokens of the selected market.
    pub open spec fn market_tokens(&self) -> Option<Seq<TokenInfo>> {
        match self.current_market() {
            Some(m) => Some(self.markets@[m].tokens@),
            None => None,
        }
    }

    /// The tokens of the market selected under the selected event.
    pub open spec fn event_market_tokens(&self) -> Option<Seq<TokenInfo>> {
        match self.current_event_market() {
            Some(market) => Some(market.tokens@),
            None => None,
        }
    }

    /// The markets under the selected event.
    pub open spec fn event_market_count(&self) -> Option<nat> {
        match self.current_event() {
            Some(e) => Some(self.events@[e].markets@.len()),
            None => None,
        }
    }

    /// Whether the token on display is picked by way of the events.
    pub open spec fn on_event_path(&self) -> bool {
        self.show_event_market_selector || (self.market_selector_tab == MarketSelectorTab::Events
            && !self.show_market_selector)
    }

    /// The id of the token selected under the selected event's market.
    pub open spec fn event_token_id(&self) -> Option<Seq<char>> {
        match self.event_market_tokens() {
            Some(tokens) if self.selected_token < tokens.len() => Some(
                tokens[self.selected_token as int].token_id@,
            ),
            _ => None,
        }
    }

    /// The id of the token selected under the selected market.
    pub open spec fn market_token_id(&self) -> Option<Seq<char>> {
        match self.market_tokens() {
            Some(tokens) if self.selected_token < tokens.len() => Some(
                tokens[self.selected_token as int].token_id@,
            ),
            _ => None,
        }
    }

    /// The id of the token that the selection points at.
    pub open spec fn current_token_id(&self) -> Option<Seq<char>> {
        if self.on_event_path() {
            self.event_token_id()
        } else {
            self.market_token_id()
        }
    }

    /// The position in the catalog of the selected market.
    pub fn selected_market_index(&self) -> (r: Option<usize>)
        requires
            self.wf(),
        ensures
            match r {
                Some(m) => self.current_market() == Some(m as int) && m < self.markets@.len(),
                None => self.current_market() is None,
            },
    {
        if self.selected_market < self.filtered_markets.len() {
            Some(self.filtered_markets[self.selected_market])
        } else {
            None
        }
    }

    /// The position in the catalog of the selected event.
    pub fn selected_event_index(&self) -> (r: Option<usize>)
        requires
            self.wf(),
        ensures
            match r {
                Some(e) => self.current_event() == Some(e as int) && e < self.events@.len(),
                None => self.current_event() is None,
            },
    {
        if self.selected_event < self.filtered_events.len() {
            Some(self.filtered_events[self.selected_event])
        } else {
            None
        }
    }

    /// The number of tokens of the selected market.
    fn market_token_count(&self) -> (r: Option<usize>)
        requires
            self.wf(),
        ensures
            match r {
                Some(n) => self.market_tokens() matches Some(tokens) && tokens.len() == n,
                None => self.market_tokens() is None,
            },
    {
        match self.selected_market_index() {
            Some(m) => Some(self.markets[m].tokens.len()),
            None => None,
        }
    }

    /// The number of tokens of the market selected under the selected
    /// event.
    fn event_token_count(&self) -> (r: Option<usize>)
        requires
            self.wf(),
        ensures
            match r {
                Some(n) => self.event_market_tokens() matches Some(tokens) && tokens.len() == n,
                None => self.event_market_tokens() is None,
            },
    {
        match self.selected_event_index() {
            Some(e) => {
                if self.selected_market < self.events[e].markets.len() {
                    Some(self.events[e].markets[self.selected_market].tokens.len())
                } else {
                    None
                }
            },
            None => None,
        }
    }

    /// How the session is left by [`App::select_token`].
    pub open spec fn select_token_done(before: App, after: App) -> bool {
        after == match before.market_tokens() {
            Some(tokens) if before.selected_token < tokens.len() => App {
                show_token_selector: false,
                needs_redraw: true,
                ..before
            },
            _ => before,
        }
    }

    /// Closes the token selector where the selection points at a token of
    /// the selected market.
    pub fn select_token(&mut self)
        requires
            old(self).wf(),
        ensures
            Self::select_token_done(*old(self), *final(self)),
    {
        if let Some(n) = self.market_token_count() {
            if self.selected_token < n {
                self.show_token_selector = false;
                self.needs_redraw = true;
            }
        }
    }

    /// How the session is left by [`App::next_market`].
    pub open spec fn next_market_done(before: App, after: App) -> bool {
        after == if before.filtered_markets@.len() > 0 {
            App {
                selected_market: next_index(
                    before.selected_market as int,
                    before.filtered_markets@.len() as int,
                ) as usize,
                needs_redraw: true,
                ..before
            }
        } else {
            before
        }
    }

    pub fn next_market(&mut self)
        ensures
            Self::next_market_done(*old(self), *final(self)),
    {
        if self.filtered_markets.len() > 0 {
            self.selected_market = cycle_next(self.selected_market, self.filtered_markets.len());
            self.needs_redraw = true;
        }
    }

    /// How the session is left by [`App::previous_market`].
    pub open spec fn previous_market_done(before: App, after: App) -> bool {
        after == if before.filtered_markets@.len() > 0 {
            App {
                selected_market: previous_index(
                    before.selected_market as int,
                    before.filtered_markets@.len() as int,
                ) as usize,
                needs_redraw: true,
                ..before
            }
        } else {
            before
        }
    }

    pub fn previous_market(&mut self)
        ensures
            Self::previous_market_done(*old(self), *final(self)),
    {
        if self.filtered_markets.len() > 0 {
            self.selected_market = cycle_previous(
                self.selected_market,
                self.filtered_markets.len(),
            );
            self.needs_redraw = true;
        }
    }

    /// How the session is left by [`App::page_down_markets`].
    pub open spec fn page_down_markets_done(before: App, after: App) -> bool {
        after == if before.filtered_markets@.len() > 0 {
            App {
                selected_market: page_down_index(
                    before.selected_market as int,
                    before.filtered_markets@.len() as int,
                ) as usize,
                needs_redraw: true,
                ..before
            }
        } else {
            before
        }
    }

    pub fn page_down_markets(&mut self)
        ensures
            Self::page_down_markets_done(*old(self), *final(self)),
    {
        if self.filtered_markets.len() > 0 {
            self.selected_market = page_down(self.selected_market, self.filtered_markets.len());
            self.needs_redraw = true;
        }
    }

    /// How the session is left by [`App::page_up_markets`].
    pub open spec fn page_up_markets_done(before: App, after: App) -> bool {
        after == (App {
            selected_market: page_up_index(before.selected_market as int) as usize,
            needs_redraw: true,
            ..before
        })
    }

    pub fn page_up_markets(&mut self)
        ensures
            Self::page_up_markets_done(*old(self), *final(self)),
    {
        self.selected_market = page_up(self.selected_market);
        self.needs_redraw = true;
    }

    /// How the session is left by [`App::next_token`].
    pub open spec fn next_token_done(before: App, after: App) -> bool {
        after == match before.market_tokens() {
            Some(tokens) if tokens.len() > 0 => App {
                selected_token: next_index(
                    before.selected_token as int,
                    tokens.len() as int,
                ) as usize,
                needs_redraw: true,
                ..before
            },
            _ => before,
        }
    }

    pub fn next_token(&mut self)
        requires
            old(self).wf(),
        ensures
            Self::next_token_done(*old(self), *final(self)),
    {
        if let Some(n) = self.market_token_count() {
            if n > 0 {
                self.selected_token = cycle_next(self.selected_token, n);
                self.needs_redraw = true;
            }
        }
    }

    /// How the session is left by [`App::previous_token`].
    pub open spec fn previous_token_done(before: App, after: App) -> bool {
        after == match before.market_tokens() {
            Some(tokens) if tokens.len() > 0 => App {
                selected_token: previous_index(
                    before.selected_token as int,
                    tokens.len() as int,
                ) as usize,
                needs_redraw: true,
                ..before
            },
            _ => before,
        }
    }

    pub fn previous_token(&mut self)
        requires
            old(self).wf(),
        ensures
            Self::previous_token_done(*old(self), *final(self)),
    {
        if let Some(n) = self.market_token_count() {
            if n > 0 {
                self.selected_token = cycle_previous(self.selected_token, n);
                self.needs_redraw = true;
            }
        }
    }

    /// How the session is left by [`App::page_down_tokens`].
    pub open spec fn page_down_tokens_done(before: App, after: App) -> bool {
        after == match before.market_tokens() {
            Some(tokens) if tokens.len() > 0 => App {
                selected_token: page_down_index(
                    before.selected_token as int,
                    tokens.len() as int,
                ) as usize,
                needs_redraw: true,
                ..before
            },
            _ => before,
        }
    }

    pub fn page_down_tokens(&mut self)
        requires
            old(self).wf(),
        ensures
            Self::page_down_tokens_done(*old(self), *final(self)),
    {
        if let Some(n) = self.market_token_count() {
            if n > 0 {
                self.selected_token = page_down(self.selected_token, n);
                self.needs_redraw = true;
            }
        }
    }

    /// How the session is left by [`App::page_up_tokens`].
    pub open spec fn page_up_tokens_done(before: App, after: App) -> bool {
        after == (App {
            selected_token: page_up_index(before.selected_token as int) as usize,
            needs_redraw: true,
            ..before
        })
    }

    pub fn page_up_tokens(&mut self)
        ensures
            Self::page_up_tokens_done(*old(self), *final(self)),
    {
        self.selected_token = page_up(self.selected_token);
        self.needs_redraw = true;
    }

    /// The id of the token selected under the selected event's market.
    pub fn get_current_event_market_token_id(&self) -> (r: Option<String>)
        requires
            self.wf(),
        ensures
            match r {
                Some(id) => self.event_token_id() == Some(id@),
                None => self.event_token_id() is None,
            },
    {
        match self.selected_event_index() {
            Some(e) => {
                if self.selected_market < self.events[e].markets.len() {
                    let market = &self.events[e].markets[self.selected_market];
                    if self.selected_token < market.tokens.len() {
                        return Some(market.tokens[self.selected_token].token_id.clone());
                    }
                }
                None
            },
            None => None,
        }
    }

    /// The id of the token that the selection points at.
    pub fn get_current_token_id(&self) -> (r: Option<String>)
        requires
            self.wf(),
        ensures
            match r {
                Some(id) => self.current_token_id() == Some(id@),
                None => self.current_token_id() is None,
            },
    {
        if self.show_event_market_selector || (self.market_selector_tab
            == MarketSelectorTab::Events && !self.show_market_selector) {
            return self.get_current_event_market_token_id();
        }
        match self.selected_market_index() {
            Some(m) => {
                if self.selected_token < self.markets[m].tokens.len() {
                    Some(self.markets[m].tokens[self.selected_token].token_id.clone())
                } else {
                    None
                }
            },
            None => None,
        }
    }

    /// How the session is left by [`App::next_tab`].
    pub open spec fn next_tab_done(before: App, after: App) -> bool {
        after == (App {
            selected_tab: before.selected_tab.spec_toggle(),
            needs_redraw: true,
            ..before
        })
    }

    pub fn next_tab(&mut self)
        ensures
            Self::next_tab_done(*old(self), *final(self)),
    {
        self.selected_tab = self.selected_tab.next();
        self.needs_redraw = true;
    }

    /// How the session is left by [`App::previous_tab`].
    pub open spec fn previous_tab_done(before: App, after: App) -> bool {
        after == (App {
            selected_tab: before.selected_tab.spec_toggle(),
            needs_redraw: true,
            ..before
        })
    }

    pub fn previous_tab(&mut self)
        ensures
            Self::previous_tab_done(*old(self), *final(self)),
    {
        self.selected_tab = self.selected_tab.previous();
        self.needs_redraw = true;
    }

    /// How the session is left by [`App::next_market_selector_tab`].
    pub open spec fn next_market_selector_tab_done(before: App, after: App) -> bool {
        &&& after.market_selector_tab.spec_index() == (
        before.market_selector_tab.spec_index() + 1) % 3
        &&& after == (App {
            market_selector_tab: after.market_selector_tab,
            needs_redraw: true,
            ..before
        })
    }

    pub fn next_market_selector_tab(&mut self)
        ensures
            Self::next_market_selector_tab_done(*old(self), *final(self)),
    {
        self.market_selector_tab = self.market_selector_tab.next();
        self.needs_redraw = true;
    }

    /// How the session is left by [`App::previous_market_selector_tab`].
    pub open spec fn previous_market_selector_tab_done(before: App, after: App) -> bool {
        &&& after.market_selector_tab.spec_index() == (
        before.market_selector_tab.spec_index() + 2) % 3
        &&& after == (App {
            market_selector_tab: after.market_selector_tab,
            needs_redraw: true,
            ..before
        })
    }

    pub fn previous_market_selector_tab(&mut self)
        ensures
            Self::previous_market_selector_tab_done(*old(self), *final(self)),
    {
        self.market_selector_tab = self.market_selector_tab.previous();
        self.needs_redraw = true;
    }

    /// How the session is left by [`App::select_event_market`].
    pub open spec fn select_event_market_done(before: App, after: App) -> bool {
        after == if before.event_token_id() is Some {
            App {
                show_event_market_selector: false,
                show_token_selector: true,
                selected_token: 0,
                needs_redraw: true,
                ..before
            }
        } else {
            before
        }
    }

    /// Opens the token selector for the market selected under the
    /// selected event, where the selection points at one of its tokens.
    pub fn select_event_market(&mut self)
        requires
            old(self).wf(),
        ensures
            Self::select_event_market_done(*old(self), *final(self)),
    {
        let pointed = match self.event_token_count() {
            Some(n) => self.selected_token < n,
            None => false,
        };
        if pointed {
            self.show_event_market_selector = false;
            self.show_token_selector = true;
            self.selected_token = 0;
            self.needs_redraw = true;
        }
    }

    /// How the session is left by [`App::next_event`].
    pub open spec fn next_event_done(before: App, after: App) -> bool {
        after == if before.filtered_events@.len() > 0 {
            App {
                selected_event: next_index(
                    before.selected_event as int,
                    before.filtered_events@.len() as int,
                ) as usize,
                needs_redraw: true,
                ..before
            }
        } else {
            before
        }
    }

    pub fn next_event(&mut self)
        ensures
            Self::next_event_done(*old(self), *final(self)),
    {
        if self.filtered_events.len() > 0 {
            self.selected_event = cycle_next(self.selected_event, self.filtered_events.len());
            self.needs_redraw = true;
        }
    }

    /// How the session is left by [`App::previous_event`].
    pub open spec fn previous_event_done(before: App, after: App) -> bool {
        after == if before.filtered_events@.len() > 0 {
            App {
                selected_event: previous_index(
                    before.selected_event as int,
                    before.filtered_events@.len() as int,
                ) as usize,
                needs_redraw: true,
                ..before
            }
        } else {
            before
        }
    }

    pub fn previous_event(&mut self)
        ensures
            Self::previous_event_done(*old(self), *final(self)),
    {
        if self.filtered_events.len() > 0 {
            self.selected_event = cycle_previous(self.selected_event, self.filtered_events.len());
            self.needs_redraw = true;
        }
    }

    /// How the session is left by [`App::page_down_events`].
    pub open spec fn page_down_events_done(before: App, after: App) -> bool {
        after == if before.filtered_events@.len() > 0 {
            App {
                selected_event: page_down_index(
                    before.selected_event as int,
                    before.filtered_events@.len() as int,
                ) as usize,
                needs_redraw: true,
                ..before
            }
        } else {
            before
        }
    }

    pub fn page_down_events(&mut self)
        ensures
            Self::page_down_events_done(*old(self), *final(self)),
    {
        if self.filtered_events.len() > 0 {
            self.selected_event = page_down(self.selected_event, self.filtered_events.len());
            self.needs_redraw = true;
        }
    }

    /// How the session is left by [`App::page_up_events`].
    pub open spec fn page_up_events_done(before: App, after: App) -> bool {
        after == (App {
            selected_event: page_up_index(before.selected_event as int) as usize,
            needs_redraw: true,
            ..before
        })
    }

    pub fn page_up_events(&mut self)
        ensures
            Self::page_up_events_done(*old(self), *final(self)),
    {
        self.selected_event = page_up(self.selected_event);
        self.needs_redraw = true;
    }

    /// How the session is left by [`App::next_event_market`].
    pub open spec fn next_event_market_done(before: App, after: App) -> bool {
        after == match before.event_market_count() {
            Some(n) if n > 0 => App {
                selected_market: next_index(before.selected_market as int, n as int) as usize,
                selected_token: 0,
                needs_redraw: true,
                ..before
            },
            _ => before,
        }
    }

    /// Moves to the next market under the selected event; its first token
    /// becomes the selected one.
    pub fn next_event_market(&mut self)
        requires
            old(self).wf(),
        ensures
            Self::next_event_market_done(*old(self), *final(self)),
    {
        if let Some(e) = self.selected_event_index() {
            let n = self.events[e].markets.len();
            if n > 0 {
                self.selected_market = cycle_next(self.selected_market, n);
                self.selected_token = 0;
                self.needs_redraw = true;
            }
        }
    }

    /// How the session is left by [`App::previous_event_market`].
    pub open spec fn previous_event_market_done(before: App, after: App) -> bool {
        after == match before.event_market_count() {
            Some(n) if n > 0 => App {
                selected_market: previous_index(
                    before.selected_market as int,
                    n as int,
                ) as usize,
                selected_token: 0,
                needs_redraw: true,
                ..before
            },
            _ => before,
        }
    }

    /// Moves to the market before under the selected event; its first
    /// token becomes the selected one.
    pub fn previous_event_market(&mut self)
        requires
            old(self).wf(),
        ensures
            Self::previous_event_market_done(*old(self), *final(self)),
    {
        if let Some(e) = self.selected_event_index() {
            let n = self.events[e].markets.len();
            if n > 0 {
                self.selected_market = cycle_previous(self.selected_market, n);
                self.selected_token = 0;
                self.needs_redraw = true;
            }
        }
    }

    /// How the session is left by [`App::next_event_token`].
    pub open spec fn next_event_token_done(before: App, after: App) -> bool {
        after == match before.event_market_tokens() {
            Some(tokens) if tokens.len() > 0 => App {
                selected_token: next_index(
                    before.selected_token as int,
                    tokens.len() as int,
                ) as usize,
                needs_redraw: true,
                ..before
            },
            _ => before,
        }
    }

    pub fn next_event_token(&mut self)
        requires
            old(self).wf(),
        ensures
            Self::next_event_token_done(*old(self), *final(self)),
    {
        if let Some(n) = self.event_token_count() {
            if n > 0 {
                self.selected_token = cycle_next(self.selected_token, n);
                self.needs_redraw = true;
            }
        }
    }

    /// How the session is left by [`App::previous_event_token`].
    pub open spec fn previous_event_token_done(before: App, after: App) -> bool {
        after == match before.event_market_tokens() {
            Some(tokens) if tokens.len() > 0 => App {
                selected_token: previous_index(
                    before.selected_token as int,
                    tokens.len() as int,
                ) as usize,
                needs_redraw: true,
                ..before
            },
            _ => before,
        }
    }

    pub fn previous_event_token(&mut self)
        requires
            old(self).wf(),
        ensures
            Self::previous_event_token_done(*old(self), *final(self)),
    {
        if let Some(n) = self.event_token_count() {
            if n > 0 {
                self.selected_token = cycle_previous(self.selected_token, n);
                self.needs_redraw = true;
            }
        }
    }
}

} // verus!
