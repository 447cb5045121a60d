//! What each key does.

use crate::bot::engine::{kind_position, EngineModel};
use crate::bot::strategy::{StrategyScope, StrategyStatus};
use crate::session::App;
use crate::types::MarketSelectorTab;
use vstd::prelude::*;

verus! {

/// A key of the keyboard, as far as the session tells keys apart.
#[derive(Debug, Clone, Copy, PartialEq, Eq, Structural)]
pub enum Key {
    Char(char),
    Left,
    Right,
    Up,
    Down,
    PageUp,
    PageDown,
    Enter,
    Backspace,
    Esc,
    Other,
}

/// What a key asks for, given what is on screen.
#[derive(Debug, Clone, Copy, PartialEq, Eq, Structural)]
pub enum KeyAction {
    Quit,
    Type(char),
    ShowMarkets,
    Reload,
    PreviousSelectorTab,
    NextSelectorTab,
    PreviousTab,
    NextTab,
    ToggleSearch,
    PreviousMarket,
    NextMarket,
    PreviousEvent,
    NextEvent,
    PreviousStrategy,
    NextStrategy,
    PreviousEventMarket,
    NextEventMarket,
    PreviousEventToken,
    NextEventToken,
    PreviousToken,
    NextToken,
    PageUpMarkets,
    PageDownMarkets,
    PageUpEvents,
    PageDownEvents,
    PageUpTokens,
    PageDownTokens,
    SelectMarket,
    SelectEvent,
    SelectStrategy,
    SelectEventMarket,
    OpenToken,
    StartStrategy,
    StopStrategy,
    ShowStrategies,
    AddEvent,
    AddMarket,
    PickForStrategy,
    BackToStrategies,
    BackToRunner,
    BackToMarkets,
    BackFromTokens,
    BackFromEventMarkets,
    RemoveSearchChar,
    Nothing,
}

/// What the caller is to do after a key was handled.
#[derive(Debug, Clone, PartialEq, Eq)]
pub enum InputOutcome {
    /// Leave the program.
    Exit,
    /// Go on.
    Continue,
    /// Fetch the book of this token; where `start_stream` is set, also
    /// start streaming its updates.
    Load { token_id: String, start_stream: bool },
}

/// The mathematical content of an [`InputOutcome`].
pub enum OutcomeModel {
    Exit,
    Continue,
    Load { token_id: Seq<char>, start_stream: bool },
}

impl View for InputOutcome {
    type V = OutcomeModel;

    open spec fn view(&self) -> OutcomeModel {
        match self {
            InputOutcome::Exit => OutcomeModel::Exit,
            InputOutcome::Continue => OutcomeModel::Continue,
            InputOutcome::Load { token_id, start_stream } => OutcomeModel::Load {
                token_id: token_id@,
                start_stream: *start_stream,
            },
        }
    }
}

impl App {
    /// What moving left asks for; `typed` tells that the key was the
    /// letter `h`.
    pub open spec fn decide_left(&self, typed: bool) -> KeyAction {
        if self.search_mode {
            if typed {
                KeyAction::Type('h')
            } else {
                KeyAction::Nothing
            }
        } else if self.show_market_selector {
            KeyAction::PreviousSelectorTab
        } else if !self.show_event_market_selector && !self.show_token_selector {
            KeyAction::PreviousTab
        } else {
            KeyAction::Nothing
        }
    }

    /// What moving right asks for; `typed` tells that the key was the
    /// letter `l`.
    pub open spec fn decide_right(&self, typed: bool) -> KeyAction {
        if self.search_mode {
            if typed {
                KeyAction::Type('l')
            } else {
                KeyAction::Nothing
            }
        } else if self.show_market_selector {
            KeyAction::NextSelectorTab
        } else if !self.show_event_market_selector && !self.show_token_selector {
            KeyAction::NextTab
        } else {
            KeyAction::Nothing
        }
    }

    pub open spec fn decide_up(&self) -> KeyAction {
        if self.show_market_selector {
            match self.market_selector_tab {
                MarketSelectorTab::AllMarkets => KeyAction::PreviousMarket,
                MarketSelectorTab::Events => KeyAction::PreviousEvent,
                MarketSelectorTab::Strategies => KeyAction::PreviousStrategy,
            }
        } else if self.show_event_market_selector {
            KeyAction::PreviousEventMarket
        } else if self.show_token_selector {
            if self.market_selector_tab == MarketSelectorTab::Events {
                KeyAction::PreviousEventToken
            } else {
                KeyAction::PreviousToken
            }
        } else {
            KeyAction::Nothing
        }
    }

    pub open spec fn decide_down(&self) -> KeyAction {
        if self.show_market_selector {
            match self.market_selector_tab {
                MarketSelectorTab::AllMarkets => KeyAction::NextMarket,
                MarketSelectorTab::Events => KeyAction::NextEvent,
                MarketSelectorTab::Strategies => KeyAction::NextStrategy,
            }
        } else if self.show_event_market_selector {
            KeyAction::NextEventMarket
        } else if self.show_token_selector {
            if self.market_selector_tab == MarketSelectorTab::Events {
                KeyAction::NextEventToken
            } else {
                KeyAction::NextToken
            }
        } else {
            KeyAction::Nothing
        }
    }

    pub open spec fn decide_page_up(&self) -> KeyAction {
        if self.show_market_selector {
            match self.market_selector_tab {
                MarketSelectorTab::AllMarkets => KeyAction::PageUpMarkets,
                MarketSelectorTab::Events => KeyAction::PageUpEvents,
                MarketSelectorTab::Strategies => KeyAction::Nothing,
            }
        } else if self.show_token_selector {
            KeyAction::PageUpTokens
        } else {
            KeyAction::Nothing
        }
    }

    pub open spec fn decide_page_down(&self) -> KeyAction {
        if self.show_market_selector {
            match self.market_selector_tab {
                MarketSelectorTab::AllMarkets => KeyAction::PageDownMarkets,
                MarketSelectorTab::Events => KeyAction::PageDownEvents,
                MarketSelectorTab::Strategies => KeyAction::Nothing,
            }
        } else if self.show_token_selector {
            KeyAction::PageDownTokens
        } else {
            KeyAction::Nothing
        }
    }

    pub open spec fn decide_enter(&self) -> KeyAction {
        if self.show_market_selector {
            match self.market_selector_tab {
                MarketSelectorTab::AllMarkets => KeyAction::SelectMarket,
                MarketSelectorTab::Events => KeyAction::SelectEvent,
                MarketSelectorTab::Strategies => KeyAction::SelectStrategy,
            }
        } else if self.show_event_market_selector {
            KeyAction::SelectEventMarket
        } else if self.show_token_selector {
            KeyAction::OpenToken
        } else {
            KeyAction::Nothing
        }
    }

    pub open spec fn decide_backspace(&self) -> KeyAction {
        if self.show_strategy_runner {
            KeyAction::BackToStrategies
        } else if self.strategy_selection_mode {
            KeyAction::BackToRunner
        } else if self.show_market_selector && self.market_selector_tab
            == MarketSelectorTab::Strategies {
            KeyAction::BackToMarkets
        } else if self.show_token_selector {
            KeyAction::BackFromTokens
        } else if self.show_event_market_selector {
            KeyAction::BackFromEventMarkets
        } else if self.search_mode {
            KeyAction::RemoveSearchChar
        } else {
            KeyAction::Nothing
        }
    }

    /// Whether the strategy at hand runs.
    pub open spec fn current_strategy_runs(&self) -> Option<bool> {
        match self.current_strategy() {
            Some(kind) => {
                let i = kind_position(self.bot_engine@.strategies, kind);
                if i < self.bot_engine@.strategies.len() {
                    Some(self.bot_engine@.strategies[i].status is Running)
                } else {
                    None
                }
            },
            None => None,
        }
    }

    /// What a letter asks for outside of search mode.
    pub open spec fn decide_command(&self, c: char) -> KeyAction {
        if c == 'q' {
            KeyAction::Quit
        } else if c == 'm' {
            KeyAction::ShowMarkets
        } else if c == 'r' {
            if self.orderbook is Some {
                KeyAction::Reload
            } else {
                KeyAction::Nothing
            }
        } else if c == '/' {
            if self.show_market_selector {
                KeyAction::ToggleSearch
            } else {
                KeyAction::Nothing
            }
        } else if c == 's' {
            if self.show_strategy_runner {
                match self.current_strategy_runs() {
                    Some(true) => KeyAction::StopStrategy,
                    Some(false) => KeyAction::StartStrategy,
                    None => KeyAction::Nothing,
                }
            } else {
                KeyAction::ShowStrategies
            }
        } else if c == 'a' {
            if self.show_strategy_runner {
                match self.current_strategy() {
                    Some(kind) => if kind.spec_scope() == StrategyScope::Event {
                        KeyAction::AddEvent
                    } else {
                        KeyAction::AddMarket
                    },
                    None => KeyAction::Nothing,
                }
            } else if self.show_market_selector && self.market_selector_tab
                == MarketSelectorTab::Events {
                KeyAction::AddEvent
            } else {
                KeyAction::Nothing
            }
        } else if c == 'p' {
            if self.show_strategy_runner {
                KeyAction::PickForStrategy
            } else {
                KeyAction::Nothing
            }
        } else {
            KeyAction::Nothing
        }
    }

    /// What a key asks for. In search mode every character is typed into
    /// the query; outside of it letters are commands.
    pub open spec fn decide(&self, key: Key) -> KeyAction {
        match key {
            Key::Char(c) => if c == 'h' {
                self.decide_left(true)
            } else if c == 'l' {
                self.decide_right(true)
            } else if self.search_mode {
                KeyAction::Type(c)
            } else {
                self.decide_command(c)
            },
            Key::Left => self.decide_left(false),
            Key::Right => self.decide_right(false),
            Key::Up => self.decide_up(),
            Key::Down => self.decide_down(),
            Key::PageUp => self.decide_page_up(),
            Key::PageDown => self.decide_page_down(),
            Key::Enter => self.decide_enter(),
            Key::Backspace => self.decide_backspace(),
            Key::Esc => if self.search_mode {
                KeyAction::ToggleSearch
            } else {
                KeyAction::Nothing
            },
            Key::Other => KeyAction::Nothing,
        }
    }

    /// How the session is left by an action at `now`.
    pub open spec fn acted(before: App, after: App, action: KeyAction, now: i64) -> bool {
        match action {
            KeyAction::Quit => after == before,
            KeyAction::Nothing => after == before,
            KeyAction::Type(c) => Self::add_search_char_done(before, after, c),
            KeyAction::ShowMarkets => after == (App {
                show_market_selector: true,
                show_token_selector: false,
                search_mode: false,
                needs_redraw: true,
                ..before
            }),
            KeyAction::Reload => after == (App { needs_redraw: true, ..before }),
            KeyAction::PreviousSelectorTab => Self::previous_market_selector_tab_done(before, after),
            KeyAction::NextSelectorTab => Self::next_market_selector_tab_done(before, after),
            KeyAction::PreviousTab => Self::previous_tab_done(before, after),
            KeyAction::NextTab => Self::next_tab_done(before, after),
            KeyAction::ToggleSearch => Self::toggle_search_mode_done(before, after),
            KeyAction::PreviousMarket => Self::previous_market_done(before, after),
            KeyAction::NextMarket => Self::next_market_done(before, after),
            KeyAction::PreviousEvent => Self::previous_event_done(before, after),
            KeyAction::NextEvent => Self::next_event_done(before, after),
            KeyAction::PreviousStrategy => Self::previous_strategy_done(before, after),
            KeyAction::NextStrategy => Self::next_strategy_done(before, after),
            KeyAction::PreviousEventMarket => Self::previous_event_market_done(before, after),
            KeyAction::NextEventMarket => Self::next_event_market_done(before, after),
            KeyAction::PreviousEventToken => Self::previous_event_token_done(before, after),
            KeyAction::NextEventToken => Self::next_event_token_done(before, after),
            KeyAction::PreviousToken => Self::previous_token_done(before, after),
            KeyAction::NextToken => Self::next_token_done(before, after),
            KeyAction::PageUpMarkets => Self::page_up_markets_done(before, after),
            KeyAction::PageDownMarkets => Self::page_down_markets_done(before, after),
            KeyAction::PageUpEvents => Self::page_up_events_done(before, after),
            KeyAction::PageDownEvents => Self::page_down_events_done(before, after),
            KeyAction::PageUpTokens => Self::page_up_tokens_done(before, after),
            KeyAction::PageDownTokens => Self::page_down_tokens_done(before, after),
            KeyAction::SelectMarket => Self::select_market_done(before, after),
            KeyAction::SelectEvent => Self::select_event_done(before, after, now),
            KeyAction::SelectStrategy => Self::select_strategy_done(before, after),
            KeyAction::SelectEventMarket => Self::select_event_market_done(before, after),
            KeyAction::OpenToken => {
                let closed = match before.market_tokens() {
                    Some(tokens) if before.selected_token < tokens.len() => App {
                        show_token_selector: false,
                        needs_redraw: true,
                        ..before
                    },
                    _ => before,
                };
                after == if before.current_token_id() is Some {
                    App { needs_redraw: true, ..closed }
                } else {
                    closed
                }
            },
            KeyAction::StartStrategy => Self::start_current_strategy_done(before, after, now),
            KeyAction::StopStrategy => Self::stop_current_strategy_done(before, after, now),
            KeyAction::ShowStrategies => after == (App {
                show_market_selector: true,
                show_strategy_selector: true,
                market_selector_tab: MarketSelectorTab::Strategies,
                needs_redraw: true,
                ..before
            }),
            KeyAction::AddEvent => Self::add_current_event_to_strategy_done(before, after, now),
            KeyAction::AddMarket => Self::add_current_market_to_strategy_done(before, after),
            KeyAction::PickForStrategy => Self::show_strategy_market_selector_done(before, after),
            KeyAction::BackToStrategies => after.bot_engine@ == (EngineModel {
                active_strategy: None,
                ..before.bot_engine@
            }) && after == (App {
                bot_engine: after.bot_engine,
                show_strategy_runner: false,
                show_strategy_selector: true,
                show_market_selector: true,
                market_selector_tab: MarketSelectorTab::Strategies,
                needs_redraw: true,
                ..before
            }),
            KeyAction::BackToRunner => after == (App {
                show_market_selector: false,
                show_event_market_selector: false,
                show_token_selector: false,
                show_strategy_runner: true,
                strategy_selection_mode: false,
                needs_redraw: true,
                ..before
            }),
            KeyAction::BackToMarkets => after == (App {
                show_strategy_selector: false,
                market_selector_tab: MarketSelectorTab::AllMarkets,
                needs_redraw: true,
                ..before
            }),
            KeyAction::BackFromTokens => after == if before.market_selector_tab
                == MarketSelectorTab::Events {
                App {
                    show_event_market_selector: true,
                    show_token_selector: false,
                    needs_redraw: true,
                    ..before
                }
            } else {
                App {
                    show_market_selector: true,
                    show_token_selector: false,
                    needs_redraw: true,
                    ..before
                }
            },
            KeyAction::BackFromEventMarkets => after == (App {
                show_market_selector: true,
                show_event_market_selector: false,
                needs_redraw: true,
                ..before
            }),
            KeyAction::RemoveSearchChar => Self::remove_search_char_done(before, after),
        }
    }

    /// What the caller is to do after an action.
    pub open spec fn outcome_of(&self, action: KeyAction) -> OutcomeModel {
        match action {
            KeyAction::Quit => OutcomeModel::Exit,
            KeyAction::Reload => match self.orderbook {
                Some(book) => OutcomeModel::Load { token_id: book.token_id@, start_stream: false },
                None => OutcomeModel::Continue,
            },
            KeyAction::OpenToken => match self.current_token_id() {
                Some(token_id) => OutcomeModel::Load { token_id, start_stream: true },
                None => OutcomeModel::Continue,
            },
            _ => OutcomeModel::Continue,
        }
    }

    /// What moving left or right asks for.
    fn side_action(&self, typed: bool, left: bool) -> (r: KeyAction)
        ensures
            r == if left {
                self.decide_left(typed)
            } else {
                self.decide_right(typed)
            },
    {
        if self.search_mode {
            if typed {
                KeyAction::Type(
                    if left {
                        'h'
                    } else {
                        'l'
                    },
                )
            } else {
                KeyAction::Nothing
            }
        } else if self.show_market_selector {
            if left {
                KeyAction::PreviousSelectorTab
            } else {
                KeyAction::NextSelectorTab
            }
        } else if !self.show_event_market_selector && !self.show_token_selector {
            if left {
                KeyAction::PreviousTab
            } else {
                KeyAction::NextTab
            }
        } else {
            KeyAction::Nothing
        }
    }

    /// What moving up or down, by one or by a page, asks for.
    fn vertical_action(&self, down: bool, page: bool) -> (r: KeyAction)
        ensures
            r == if page {
                if down {
                    self.decide_page_down()
                } else {
                    self.decide_page_up()
                }
            } else {
                if down {
                    self.decide_down()
                } else {
                    self.decide_up()
                }
            },
    {
        if self.show_market_selector {
            match self.market_selector_tab {
                MarketSelectorTab::AllMarkets => match (page, down) {
                    (true, true) => KeyAction::PageDownMarkets,
                    (true, false) => KeyAction::PageUpMarkets,
                    (false, true) => KeyAction::NextMarket,
                    (false, false) => KeyAction::PreviousMarket,
                },
                MarketSelectorTab::Events => match (page, down) {
                    (true, true) => KeyAction::PageDownEvents,
                    (true, false) => KeyAction::PageUpEvents,
                    (false, true) => KeyAction::NextEvent,
                    (false, false) => KeyAction::PreviousEvent,
                },
                MarketSelectorTab::Strategies => match (page, down) {
                    (true, _) => KeyAction::Nothing,
                    (false, true) => KeyAction::NextStrategy,
                    (false, false) => KeyAction::PreviousStrategy,
                },
            }
        } else if page {
            if self.show_token_selector {
                if down {
                    KeyAction::PageDownTokens
                } else {
                    KeyAction::PageUpTokens
                }
            } else {
                KeyAction::Nothing
            }
        } else if self.show_event_market_selector {
            if down {
                KeyAction::NextEventMarket
            } else {
                KeyAction::PreviousEventMarket
            }
        } else if self.show_token_selector {
            match (self.market_selector_tab == MarketSelectorTab::Events, down) {
                (true, true) => KeyAction::NextEventToken,
                (true, false) => KeyAction::PreviousEventToken,
                (false, true) => KeyAction::NextToken,
                (false, false) => KeyAction::PreviousToken,
            }
        } else {
            KeyAction::Nothing
        }
    }

    /// What a letter asks for outside of search mode.
    fn command_action(&self, c: char) -> (r: KeyAction)
        ensures
            r == self.decide_command(c),
    {
        if c == 'q' {
            KeyAction::Quit
        } else if c == 'm' {
            KeyAction::ShowMarkets
        } else if c == 'r' {
            if self.orderbook.is_some() {
                KeyAction::Reload
            } else {
                KeyAction::Nothing
            }
        } else if c == '/' {
            if self.show_market_selector {
                KeyAction::ToggleSearch
            } else {
                KeyAction::Nothing
            }
        } else if c == 's' {
            if self.show_strategy_runner {
                match self.get_current_strategy_type() {
                    Some(kind) => match self.bot_engine.get_strategy(&kind) {
                        Some(strategy) => {
                            match strategy.status {
                                StrategyStatus::Running => KeyAction::StopStrategy,
                                _ => KeyAction::StartStrategy,
                            }
                        },
                        None => KeyAction::Nothing,
                    },
                    None => KeyAction::Nothing,
                }
            } else {
                KeyAction::ShowStrategies
            }
        } else if c == 'a' {
            if self.show_strategy_runner {
                match self.get_current_strategy_type() {
                    Some(kind) => match kind.scope() {
                        StrategyScope::Event => KeyAction::AddEvent,
                        _ => KeyAction::AddMarket,
                    },
                    None => KeyAction::Nothing,
                }
            } else if self.show_market_selector && self.market_selector_tab
                == MarketSelectorTab::Events {
                KeyAction::AddEvent
            } else {
                KeyAction::Nothing
            }
        } else if c == 'p' {
            if self.show_strategy_runner {
                KeyAction::PickForStrategy
            } else {
                KeyAction::Nothing
            }
        } else {
            KeyAction::Nothing
        }
    }

    /// What a key asks for.
    pub fn key_action(&self, key: Key) -> (r: KeyAction)
        ensures
            r == self.decide(key),
    {
        match key {
            Key::Char(c) => {
                if c == 'h' {
                    self.side_action(true, true)
                } else if c == 'l' {
                    self.side_action(true, false)
                } else if self.search_mode {
                    KeyAction::Type(c)
                } else {
                    self.command_action(c)
                }
            },
            Key::Left => self.side_action(false, true),
            Key::Right => self.side_action(false, false),
            Key::Up => self.vertical_action(false, false),
            Key::Down => self.vertical_action(true, false),
            Key::PageUp => self.vertical_action(false, true),
            Key::PageDown => self.vertical_action(true, true),
            Key::Enter => {
                if self.show_market_selector {
                    match self.market_selector_tab {
                        MarketSelectorTab::AllMarkets => KeyAction::SelectMarket,
                        MarketSelectorTab::Events => KeyAction::SelectEvent,
                        MarketSelectorTab::Strategies => KeyAction::SelectStrategy,
                    }
                } else if self.show_event_market_selector {
                    KeyAction::SelectEventMarket
                } else if self.show_token_selector {
                    KeyAction::OpenToken
                } else {
                    KeyAction::Nothing
                }
            },
            Key::Backspace => {
                if self.show_strategy_runner {
                    KeyAction::BackToStrategies
                } else if self.strategy_selection_mode {
                    KeyAction::BackToRunner
                } else if self.show_market_selector && self.market_selector_tab
                    == MarketSelectorTab::Strategies {
                    KeyAction::BackToMarkets
                } else if self.show_token_selector {
                    KeyAction::BackFromTokens
                } else if self.show_event_market_selector {
                    KeyAction::BackFromEventMarkets
                } else if self.search_mode {
                    KeyAction::RemoveSearchChar
                } else {
                    KeyAction::Nothing
                }
            },
            Key::Esc => {
                if self.search_mode {
                    KeyAction::ToggleSearch
                } else {
                    KeyAction::Nothing
                }
            },
            Key::Other => KeyAction::Nothing,
        }
    }

    /// The moves of the selection by one entry.
    pub open spec fn is_move(action: KeyAction) -> bool {
        action is PreviousMarket || action is NextMarket || action is PreviousEvent || action
            is NextEvent || action is PreviousStrategy || action is NextStrategy || action
            is PreviousEventMarket || action is NextEventMarket || action is PreviousEventToken
            || action is NextEventToken || action is PreviousToken || action is NextToken
    }

    /// The moves of the selection by a page.
    pub open spec fn is_page(action: KeyAction) -> bool {
        action is PageUpMarkets || action is PageDownMarkets || action is PageUpEvents || action
            is PageDownEvents || action is PageUpTokens || action is PageDownTokens
    }

    /// Changes of tab, of what is shown, and of the search query.
    pub open spec fn is_view_change(action: KeyAction) -> bool {
        action is Type || action is ToggleSearch || action is RemoveSearchChar || action
            is PreviousSelectorTab || action is NextSelectorTab || action is PreviousTab || action
            is NextTab || action is ShowMarkets || action is ShowStrategies
    }

    /// Taking what the selection points at.
    pub open spec fn is_selection(action: KeyAction) -> bool {
        action is SelectMarket || action is SelectEvent || action is SelectStrategy || action
            is SelectEventMarket
    }

    /// Commands to the strategy at hand.
    pub open spec fn is_strategy_command(action: KeyAction) -> bool {
        action is StartStrategy || action is StopStrategy || action is AddEvent || action
            is AddMarket || action is PickForStrategy
    }

    /// Steps back.
    pub open spec fn is_back(action: KeyAction) -> bool {
        action is BackToStrategies || action is BackToRunner || action is BackToMarkets || action
            is BackFromTokens || action is BackFromEventMarkets
    }

    fn perform_move(&mut self, action: KeyAction, now: i64)
        requires
            old(self).wf(),
            Self::is_move(action),
        ensures
            final(self).wf(),
            Self::acted(*old(self), *final(self), action, now),
    {
        match action {
            KeyAction::PreviousMarket => self.previous_market(),
            KeyAction::NextMarket => self.next_market(),
            KeyAction::PreviousEvent => self.previous_event(),
            KeyAction::NextEvent => self.next_event(),
            KeyAction::PreviousStrategy => self.previous_strategy(),
            KeyAction::NextStrategy => self.next_strategy(),
            KeyAction::PreviousEventMarket => self.previous_event_market(),
            KeyAction::NextEventMarket => self.next_event_market(),
            KeyAction::PreviousEventToken => self.previous_event_token(),
            KeyAction::NextEventToken => self.next_event_token(),
            KeyAction::PreviousToken => self.previous_token(),
            _ => self.next_token(),
        }
    }

    fn perform_page(&mut self, action: KeyAction, now: i64)
        requires
            old(self).wf(),
            Self::is_page(action),
        ensures
            final(self).wf(),
            Self::acted(*old(self), *final(self), action, now),
    {
        match action {
            KeyAction::PageUpMarkets => self.page_up_markets(),
            KeyAction::PageDownMarkets => self.page_down_markets(),
            KeyAction::PageUpEvents => self.page_up_events(),
            KeyAction::PageDownEvents => self.page_down_events(),
            KeyAction::PageUpTokens => self.page_up_tokens(),
            _ => self.page_down_tokens(),
        }
    }

    fn perform_view_change(&mut self, action: KeyAction, now: i64)
        requires
            old(self).wf(),
            Self::is_view_change(action),
        ensures
            final(self).wf(),
            Self::acted(*old(self), *final(self), action, now),
    {
        match action {
            KeyAction::Type(c) => self.add_search_char(c),
            KeyAction::ToggleSearch => self.toggle_search_mode(),
            KeyAction::RemoveSearchChar => self.remove_search_char(),
            KeyAction::PreviousSelectorTab => self.previous_market_selector_tab(),
            KeyAction::NextSelectorTab => self.next_market_selector_tab(),
            KeyAction::PreviousTab => self.previous_tab(),
            KeyAction::NextTab => self.next_tab(),
            KeyAction::ShowMarkets => {
                self.show_market_selector = true;
                self.show_token_selector = false;
                self.search_mode = false;
                self.needs_redraw = true;
            },
            _ => {
                self.show_market_selector = true;
                self.show_strategy_selector = true;
                self.market_selector_tab = MarketSelectorTab::Strategies;
                self.needs_redraw = true;
            },
        }
    }

    fn perform_selection(&mut self, action: KeyAction, now: i64)
        requires
            old(self).wf(),
            Self::is_selection(action),
        ensures
            final(self).wf(),
            Self::acted(*old(self), *final(self), action, now),
    {
        match action {
            KeyAction::SelectMarket => self.select_market(),
            KeyAction::SelectEvent => self.select_event(now),
            KeyAction::SelectStrategy => self.select_strategy(),
            _ => self.select_event_market(),
        }
    }

    fn perform_strategy_command(&mut self, action: KeyAction, now: i64)
        requires
            old(self).wf(),
            Self::is_strategy_command(action),
        ensures
            final(self).wf(),
            Self::acted(*old(self), *final(self), action, now),
    {
        match action {
            KeyAction::StartStrategy => self.start_current_strategy(now),
            KeyAction::StopStrategy => self.stop_current_strategy(now),
            KeyAction::AddEvent => self.add_current_event_to_strategy(now),
            KeyAction::AddMarket => self.add_current_market_to_strategy(),
            _ => self.show_strategy_market_selector(),
        }
    }

    fn perform_back(&mut self, action: KeyAction, now: i64)
        requires
            old(self).wf(),
            Self::is_back(action),
        ensures
            final(self).wf(),
            Self::acted(*old(self), *final(self), action, now),
    {
        match action {
            KeyAction::BackToStrategies => {
                self.show_strategy_runner = false;
                self.show_strategy_selector = true;
                self.show_market_selector = true;
                self.market_selector_tab = MarketSelectorTab::Strategies;
                self.bot_engine.active_strategy = None;
                self.needs_redraw = true;
            },
            KeyAction::BackToRunner => {
                self.show_market_selector = false;
                self.show_event_market_selector = false;
                self.show_token_selector = false;
                self.show_strategy_runner = true;
                self.strategy_selection_mode = false;
                self.needs_redraw = true;
            },
            KeyAction::BackToMarkets => {
                self.show_strategy_selector = false;
                self.market_selector_tab = MarketSelectorTab::AllMarkets;
                self.needs_redraw = true;
            },
            KeyAction::BackFromTokens => {
                if self.market_selector_tab == MarketSelectorTab::Events {
                    self.show_event_market_selector = true;
                    self.show_token_selector = false;
                } else {
                    self.show_market_selector = true;
                    self.show_token_selector = false;
                }
                self.needs_redraw = true;
            },
            _ => {
                self.show_market_selector = true;
                self.show_event_market_selector = false;
                self.needs_redraw = true;
            },
        }
    }

    /// Closes the token selector and asks for the book of the token that
    /// the selection points at.
    fn perform_open(&mut self, now: i64) -> (r: InputOutcome)
        requires
            old(self).wf(),
        ensures
            final(self).wf(),
            Self::acted(*old(self), *final(self), KeyAction::OpenToken, now),
            r@ == old(self).outcome_of(KeyAction::OpenToken),
    {
        self.select_token();
        match self.get_current_token_id() {
            Some(token_id) => {
                self.needs_redraw = true;
                InputOutcome::Load { token_id, start_stream: true }
            },
            None => InputOutcome::Continue,
        }
    }

    /// Asks for the book on display to be fetched again.
    fn perform_reload(&mut self, now: i64) -> (r: InputOutcome)
        requires
            old(self).wf(),
        ensures
            final(self).wf(),
            Self::acted(*old(self), *final(self), KeyAction::Reload, now),
            r@ == old(self).outcome_of(KeyAction::Reload),
    {
        self.needs_redraw = true;
        match &self.orderbook {
            Some(book) => InputOutcome::Load { token_id: book.token_id.clone(), start_stream: false },
            None => InputOutcome::Continue,
        }
    }

    /// Carries out an action at `now`.
    pub fn perform(&mut self, action: KeyAction, now: i64) -> (r: InputOutcome)
        requires
            old(self).wf(),
        ensures
            final(self).wf(),
            Self::acted(*old(self), *final(self), action, now),
            r@ == old(self).outcome_of(action),
    {
        match action {
            KeyAction::Quit => InputOutcome::Exit,
            KeyAction::Nothing => InputOutcome::Continue,
            KeyAction::Reload => self.perform_reload(now),
            KeyAction::OpenToken => self.perform_open(now),
            KeyAction::PreviousMarket
            | KeyAction::NextMarket
            | KeyAction::PreviousEvent
            | KeyAction::NextEvent
            | KeyAction::PreviousStrategy
            | KeyAction::NextStrategy
            | KeyAction::PreviousEventMarket
            | KeyAction::NextEventMarket
            | KeyAction::PreviousEventToken
            | KeyAction::NextEventToken
            | KeyAction::PreviousToken
            | KeyAction::NextToken => {
                self.perform_move(action, now);
                InputOutcome::Continue
            },
            KeyAction::PageUpMarkets
            | KeyAction::PageDownMarkets
            | KeyAction::PageUpEvents
            | KeyAction::PageDownEvents
            | KeyAction::PageUpTokens
            | KeyAction::PageDownTokens => {
                self.perform_page(action, now);
                InputOutcome::Continue
            },
            KeyAction::Type(_)
            | KeyAction::ToggleSearch
            | KeyAction::RemoveSearchChar
            | KeyAction::PreviousSelectorTab
            | KeyAction::NextSelectorTab
            | KeyAction::PreviousTab
            | KeyAction::NextTab
            | KeyAction::ShowMarkets
            | KeyAction::ShowStrategies => {
                self.perform_view_change(action, now);
                InputOutcome::Continue
            },
            KeyAction::SelectMarket
            | KeyAction::SelectEvent
            | KeyAction::SelectStrategy
            | KeyAction::SelectEventMarket => {
                self.perform_selection(action, now);
                InputOutcome::Continue
            },
            KeyAction::StartStrategy
            | KeyAction::StopStrategy
            | KeyAction::AddEvent
            | KeyAction::AddMarket
            | KeyAction::PickForStrategy => {
                self.perform_strategy_command(action, now);
                InputOutcome::Continue
            },
            KeyAction::BackToStrategies
            | KeyAction::BackToRunner
            | KeyAction::BackToMarkets
            | KeyAction::BackFromTokens
            | KeyAction::BackFromEventMarkets => {
                self.perform_back(action, now);
                InputOutcome::Continue
            },
        }
    }

    /// Handles one key at `now`: decides what the key asks for, given what
    /// is on screen, and carries it out.
    pub fn handle_key_input(&mut self, key: Key, now: i64) -> (r: InputOutcome)
        requires
            old(self).wf(),
        ensures
            final(self).wf(),
            Self::acted(*old(self), *final(self), old(self).decide(key), now),
            r@ == old(self).outcome_of(old(self).decide(key)),
    {
        let action = self.key_action(key);
        self.perform(action, now)
    }
}

} // verus!
