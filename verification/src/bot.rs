//! Alerting strategies and the engine that feeds them book updates.

pub mod engine;
pub mod laws;
pub mod orderbooks;
pub mod strategy;

pub use engine::BotEngine;
pub use strategy::{
    AlertSeverity, Strategy, StrategyAlert, StrategyScope, StrategyStatus, StrategyType,
};
