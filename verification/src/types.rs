//! Small closed sets of user-interface tabs.

use vstd::prelude::*;

verus! {

/// The two views of a monitored instrument.
#[derive(Clone, Copy, PartialEq, Eq, Structural, Debug)]
pub enum SelectedTab {
    Orderbook,
    PriceHistory,
}

impl SelectedTab {
    /// The tab to the left, wrapping around.
    pub fn previous(self) -> (r: Self)
        ensures
            r == self.spec_toggle(),
    {
        match self {
            SelectedTab::Orderbook => SelectedTab::PriceHistory,
            SelectedTab::PriceHistory => SelectedTab::Orderbook,
        }
    }

    /// The tab to the right, wrapping around.
    pub fn next(self) -> (r: Self)
        ensures
            r == self.spec_toggle(),
    {
        match self {
            SelectedTab::Orderbook => SelectedTab::PriceHistory,
            SelectedTab::PriceHistory => SelectedTab::Orderbook,
        }
    }

    /// With two tabs, moving either way lands on the other tab.
    pub open spec fn spec_toggle(self) -> Self {
        match self {
            SelectedTab::Orderbook => SelectedTab::PriceHistory,
            SelectedTab::PriceHistory => SelectedTab::Orderbook,
        }
    }
}

/// The three lists of the selector.
#[derive(Clone, Copy, PartialEq, Eq, Structural, Debug)]
pub enum MarketSelectorTab {
    AllMarkets,
    Events,
    Strategies,
}

impl MarketSelectorTab {
    /// The position of the tab, from the left.
    pub open spec fn spec_index(self) -> int {
        match self {
            MarketSelectorTab::AllMarkets => 0,
            MarketSelectorTab::Events => 1,
            MarketSelectorTab::Strategies => 2,
        }
    }

    /// The tab to the left, wrapping around.
    pub fn previous(self) -> (r: Self)
        ensures
            r.spec_index() == (self.spec_index() + 2) % 3,
    {
        match self {
            MarketSelectorTab::AllMarkets => MarketSelectorTab::Strategies,
            MarketSelectorTab::Events => MarketSelectorTab::AllMarkets,
            MarketSelectorTab::Strategies => MarketSelectorTab::Events,
        }
    }

    /// The tab to the right, wrapping around.
    pub fn next(self) -> (r: Self)
        ensures
            r.spec_index() == (self.spec_index() + 1) % 3,
    {
        match self {
            MarketSelectorTab::AllMarkets => MarketSelectorTab::Events,
            MarketSelectorTab::Events => MarketSelectorTab::Strategies,
            MarketSelectorTab::Strategies => MarketSelectorTab::AllMarkets,
        }
    }
}

impl Default for SelectedTab {
    fn default() -> (r: Self)
        ensures
            r == SelectedTab::Orderbook,
    {
        SelectedTab::Orderbook
    }
}

impl Default for MarketSelectorTab {
    fn default() -> (r: Self)
        ensures
            r == MarketSelectorTab::AllMarkets,
    {
        MarketSelectorTab::AllMarkets
    }
}

} // verus!
