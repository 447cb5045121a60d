//! Reference-price feeds for cryptocurrencies: the symbols that are
//! followed, which of them a market's question is about, and what is done
//! with a ticker.

use crate::decimal::{parse_decimal, parse_decimal_spec};
use crate::text::{ascii_lower_seq, contains_seq, lower_chars, lower_contains};
use vstd::prelude::*;

verus! {

/// A reference price counts as moved when it differs from the last
/// recorded one by more than this (0.01).
pub const PRICE_MOVE: u64 = 10_000;

/// The cryptocurrencies whose price can be followed.
#[derive(Debug, Clone, Copy, PartialEq, Eq, Hash, Structural)]
pub enum CryptoSymbol {
    Bitcoin,
    Ethereum,
    Solana,
}

impl CryptoSymbol {
    pub open spec fn spec_ticker(self) -> Seq<char> {
        match self {
            CryptoSymbol::Bitcoin => "btcusdt@bookTicker"@,
            CryptoSymbol::Ethereum => "ethusdt@bookTicker"@,
            CryptoSymbol::Solana => "solusdt@bookTicker"@,
        }
    }

    pub open spec fn spec_name(self) -> Seq<char> {
        match self {
            CryptoSymbol::Bitcoin => "Bitcoin"@,
            CryptoSymbol::Ethereum => "Ethereum"@,
            CryptoSymbol::Solana => "Solana"@,
        }
    }

    pub open spec fn spec_symbol(self) -> Seq<char> {
        match self {
            CryptoSymbol::Bitcoin => "BTC"@,
            CryptoSymbol::Ethereum => "ETH"@,
            CryptoSymbol::Solana => "SOL"@,
        }
    }

    /// The name of the stream that carries the symbol's best bid and ask.
    pub fn ticker(&self) -> (r: &'static str)
        ensures
            r@ == self.spec_ticker(),
    {
        match self {
            CryptoSymbol::Bitcoin => "btcusdt@bookTicker",
            CryptoSymbol::Ethereum => "ethusdt@bookTicker",
            CryptoSymbol::Solana => "solusdt@bookTicker",
        }
    }

    pub fn name(&self) -> (r: &'static str)
        ensures
            r@ == self.spec_name(),
    {
        match self {
            CryptoSymbol::Bitcoin => "Bitcoin",
            CryptoSymbol::Ethereum => "Ethereum",
            CryptoSymbol::Solana => "Solana",
        }
    }

    pub fn symbol(&self) -> (r: &'static str)
        ensures
            r@ == self.spec_symbol(),
    {
        match self {
            CryptoSymbol::Bitcoin => "BTC",
            CryptoSymbol::Ethereum => "ETH",
            CryptoSymbol::Solana => "SOL",
        }
    }
}

/// Whether `question` contains `word`, both folded by
/// [`ascii_lower_seq`].
pub open spec fn mentions(question: Seq<char>, word: Seq<char>) -> bool {
    contains_seq(ascii_lower_seq(question), ascii_lower_seq(word))
}

/// The one cryptocurrency that a market's question is about, by the words
/// in it: Bitcoin before Ethereum before Solana; `None` where it names
/// none of them.
pub open spec fn symbol_of_question(question: Seq<char>) -> Option<CryptoSymbol> {
    if mentions(question, "bitcoin"@) || mentions(question, "btc"@) {
        Some(CryptoSymbol::Bitcoin)
    } else if mentions(question, "ethereum"@) || mentions(question, "eth"@) {
        Some(CryptoSymbol::Ethereum)
    } else if mentions(question, "solana"@) || mentions(question, "sol"@) {
        Some(CryptoSymbol::Solana)
    } else {
        None
    }
}

/// The cryptocurrency that a market's question is about.
pub fn relevant_crypto_symbol(question: &str) -> (r: Option<CryptoSymbol>)
    ensures
        r == symbol_of_question(question@),
{
    let text = lower_chars(question);
    if lower_contains(&text, "bitcoin") || lower_contains(&text, "btc") {
        Some(CryptoSymbol::Bitcoin)
    } else if lower_contains(&text, "ethereum") || lower_contains(&text, "eth") {
        Some(CryptoSymbol::Ethereum)
    } else if lower_contains(&text, "solana") || lower_contains(&text, "sol") {
        Some(CryptoSymbol::Solana)
    } else {
        None
    }
}

/// The cryptocurrencies to follow for the market on display: none without
/// a market, the one its question is about otherwise, and `None` where the
/// question is about none.
pub fn get_relevant_crypto_symbols(question: Option<&str>) -> (r: Option<Vec<CryptoSymbol>>)
    ensures
        match question {
            None => r matches Some(v) && v@.len() == 0,
            Some(q) => match symbol_of_question(q@) {
                Some(symbol) => r matches Some(v) && v@ == seq![symbol],
                None => r is None,
            },
        },
{
    let mut symbols: Vec<CryptoSymbol> = Vec::new();
    match question {
        None => Some(symbols),
        Some(q) => match relevant_crypto_symbol(q) {
            Some(symbol) => {
                symbols.push(symbol);
                assert(symbols@ =~= seq![symbol]);
                Some(symbols)
            },
            None => None,
        },
    }
}

/// Whether the Bitcoin chart belongs to the market on display.
pub fn should_show_bitcoin_chart(question: Option<&str>) -> (r: bool)
    ensures
        r == match question {
            Some(q) => mentions(q@, "bitcoin"@) || mentions(q@, "btc"@),
            None => false,
        },
{
    match question {
        Some(q) => {
            let text = lower_chars(q);
            lower_contains(&text, "bitcoin") || lower_contains(&text, "btc")
        },
        None => false,
    }
}

/// The midpoint of a ticker's best bid and best ask, rounded down; `None`
/// where either is no decimal.
pub open spec fn ticker_midpoint_spec(best_bid: Seq<char>, best_ask: Seq<char>) -> Option<u64> {
    match (parse_decimal_spec(best_bid), parse_decimal_spec(best_ask)) {
        (Some(bid), Some(ask)) => Some(((bid + ask) / 2) as u64),
        _ => None,
    }
}

/// The price that a ticker reports.
pub fn ticker_midpoint(best_bid: &str, best_ask: &str) -> (r: Option<u64>)
    ensures
        r == ticker_midpoint_spec(best_bid@, best_ask@),
{
    match (parse_decimal(best_bid), parse_decimal(best_ask)) {
        (Some(bid), Some(ask)) => Some(((bid as u128 + ask as u128) / 2) as u64),
        _ => None,
    }
}

/// Whether a reported price is worth recording: it is above 0 and differs
/// from the last recorded price by more than 0.01.
pub fn price_moved(current: u64, last: u64) -> (r: bool)
    ensures
        r == (current > 0 && (current - last > PRICE_MOVE || last - current > PRICE_MOVE)),
{
    if current == 0 {
        false
    } else if current >= last {
        current - last > PRICE_MOVE
    } else {
        last - current > PRICE_MOVE
    }
}

} // verus!
