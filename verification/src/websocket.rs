//! The streaming feed: its messages, their decoding, and the connection
//! policy.

pub mod clob;
pub mod connection;
pub mod crypto;

pub use clob::{
    BookMessage, LastTradePriceMessage, PolymarketWebSocketMessage, PriceChangeMessage,
    TickSizeChangeMessage,
};
pub use crypto::CryptoSymbol;
