//! Configuration constants.

use vstd::prelude::*;

verus! {

/// API endpoints.
pub const POLYMARKET_HOST: &'static str = "https://clob.polymarket.com";

pub const POLYMARKET_GAMMA_HOST: &'static str = "https://gamma-api.polymarket.com";

/// Network settings.
pub const POLYGON_CHAIN_ID: u64 = 137;

/// Most events kept from the catalog.
pub const MAX_EVENTS: usize = 5000;

/// Points kept in a price history.
pub const MAX_PRICE_HISTORY_POINTS: usize = 300;

/// Points kept in the price history of a monitored order book.
pub const BOOK_PRICE_HISTORY_POINTS: usize = 500;

/// Update intervals, in milliseconds.
pub const TICK_RATE_MS: u64 = 1;

pub const DATA_UPDATE_RATE_MS: u64 = 50;

pub const UI_UPDATE_RATE_MS: u64 = 1000;

pub const PRICE_HISTORY_UPDATE_INTERVAL_MS: u64 = 60_000;

/// How often connection health is looked at, in milliseconds.
pub const HEALTH_CHECK_INTERVAL_MS: u64 = 50;

/// Reconnection policy: attempts before giving up, and the constant delay
/// between two attempts.
pub const WS_MAX_ATTEMPTS: u32 = 20;

pub const WS_RECONNECT_DELAY_SECS: u64 = 10;

/// A changed level stays highlighted this long, in milliseconds.
pub const HIGHLIGHT_DURATION_MS: u64 = 1000;

pub const CHART_NUM_DATES: u32 = 5;

/// Tick size assumed where the exchange gives none: 0.0001.
pub const DEFAULT_TICK_SIZE: u64 = 100;

/// Two prices closer than this (0.0001) name the same level.
pub const PRICE_TOLERANCE: u64 = 100;

/// Events a connection's inbox holds, and how many of the oldest are dropped
/// when one more arrives.
pub const INBOX_CAPACITY: usize = 50;

pub const INBOX_DROP: usize = 25;

/// Alerts a strategy keeps.
pub const MAX_ALERTS: usize = 100;

/// Default command-line values: the update interval in milliseconds, the
/// depth per side, and the environment variable that holds the private key.
pub const DEFAULT_UPDATE_INTERVAL_MS: u64 = 100;

pub const DEFAULT_ORDERBOOK_DEPTH: usize = 30;

pub const DEFAULT_PRIVATE_KEY_ENV: &'static str = "PK";

} // verus!
