//! Order-book monitoring core for a prediction-market exchange: fixed-point
//! order books, price history, feed decoding, reconnection policy and alerting
//! strategies, with machine-checked contracts.

pub mod book;
pub mod book_laws;
pub mod bot;
pub mod clock;
pub mod config;
pub mod data;
pub mod decimal;
pub mod depth;
pub mod json;
pub mod levels;
pub mod session;
pub mod stats;
pub mod text;
pub mod trades;
pub mod types;
pub mod utils;
pub mod websocket;

pub use bot::engine::BotEngine;
pub use bot::strategy::{Strategy, StrategyType};
pub use data::{CryptoPrice, MarketInfo, OrderBookData, SimpleOrder, TokenInfo};
pub use session::App;
pub use types::{MarketSelectorTab, SelectedTab};
pub use websocket::clob::PolymarketWebSocketMessage;
