//! A plain registry of books by instrument.

use crate::text::str_eq;
use vstd::prelude::*;

verus! {

/// One level: a price and a size in micro-units.
#[derive(Debug, Clone, Copy, PartialEq, Eq)]
pub struct Order {
    pub price: u64,
    pub size: u64,
}

/// The book of one instrument without its history.
#[derive(Debug, Clone, PartialEq, Eq)]
pub struct OrderBook {
    pub token_id: String,
    pub market_question: String,
    pub bids: Vec<Order>,
    pub asks: Vec<Order>,
    pub tick_size: u64,
    pub last_updated: i64,
}

impl OrderBook {
    /// Best ask minus best bid; 0 where a side is empty.
    pub fn get_spread(&self) -> (r: i128)
        ensures
            r == if self.bids@.len() > 0 && self.asks@.len() > 0 {
                self.asks@[0].price - self.bids@[0].price
            } else {
                0
            },
    {
        if self.bids.len() > 0 && self.asks.len() > 0 {
            self.asks[0].price as i128 - self.bids[0].price as i128
        } else {
            0
        }
    }

    /// The mean of best bid and best ask, rounded down; 0 where a side is
    /// empty.
    pub fn get_midpoint(&self) -> (r: u64)
        ensures
            r == if self.bids@.len() > 0 && self.asks@.len() > 0 {
                (self.bids@[0].price + self.asks@[0].price) / 2
            } else {
                0
            },
    {
        if self.bids.len() > 0 && self.asks.len() > 0 {
            ((self.bids[0].price as u128 + self.asks[0].price as u128) / 2) as u64
        } else {
            0
        }
    }
}

/// Books by instrument, each with a flag that it is in use. No instrument
/// has two entries.
#[derive(Debug, Clone, PartialEq, Eq)]
pub struct OrderBooks {
    pub books: Vec<(OrderBook, bool)>,
}

/// The position of the first book of instrument `token_id`, or the length
/// where there is none.
pub open spec fn position_of(books: Seq<(OrderBook, bool)>, token_id: Seq<char>) -> int
    decreases books.len(),
{
    if books.len() == 0 || books[0].0.token_id@ == token_id {
        0
    } else {
        1 + position_of(books.skip(1), token_id)
    }
}

pub proof fn lemma_position_of(books: Seq<(OrderBook, bool)>, token_id: Seq<char>, i: int)
    requires
        0 <= i <= books.len(),
        forall|j: int| 0 <= j < i ==> (#[trigger] books[j]).0.token_id@ != token_id,
        i < books.len() ==> books[i].0.token_id@ == token_id,
    ensures
        position_of(books, token_id) == i,
    decreases i,
{
    if i > 0 {
        assert(books[0].0.token_id@ != token_id);
        let rest = books.skip(1);
        assert forall|j: int| 0 <= j < i - 1 implies (#[trigger] rest[j]).0.token_id@
            != token_id by {
            assert(rest[j] == books[j + 1]);
        }
        if i < books.len() {
            assert(rest[i - 1] == books[i]);
        }
        lemma_position_of(rest, token_id, i - 1);
    }
}

impl OrderBooks {
    pub fn new() -> (r: Self)
        ensures
            r.books@.len() == 0,
    {
        OrderBooks { books: Vec::new() }
    }

    /// The position of the book of `token_id`, or the number of books.
    fn find(&self, token_id: &str) -> (i: usize)
        ensures
            i == position_of(self.books@, token_id@),
            i <= self.books@.len(),
    {
        let mut i: usize = 0;
        while i < self.books.len()
            invariant
                i <= self.books.len(),
                forall|j: int| 0 <= j < i ==> (#[trigger] self.books@[j]).0.token_id@ != token_id@,
            decreases self.books.len() - i,
        {
            if str_eq(self.books[i].0.token_id.as_str(), token_id) {
                proof {
                    lemma_position_of(self.books@, token_id@, i as int);
                }
                return i;
            }
            i = i + 1;
        }
        proof {
            lemma_position_of(self.books@, token_id@, i as int);
        }
        i
    }

    /// Registers a book as in use; it takes the place of an earlier book of
    /// the same instrument.
    pub fn add_orderbook(&mut self, orderbook: OrderBook)
        ensures
            ({
                let i = position_of(old(self).books@, orderbook.token_id@);
                if i < old(self).books@.len() {
                    final(self).books@ == old(self).books@.update(i, (orderbook, true))
                } else {
                    final(self).books@ == old(self).books@.push((orderbook, true))
                }
            }),
    {
        let i = self.find(orderbook.token_id.as_str());
        if i < self.books.len() {
            self.books.set(i, (orderbook, true));
        } else {
            self.books.push((orderbook, true));
        }
    }

    /// The registered book of `token_id`.
    pub fn get_orderbook(&self, token_id: &str) -> (r: Option<&OrderBook>)
        ensures
            ({
                let i = position_of(self.books@, token_id@);
                if i < self.books@.len() {
                    r == Some(&self.books@[i].0)
                } else {
                    r is None
                }
            }),
    {
        let i = self.find(token_id);
        if i < self.books.len() {
            Some(&self.books[i].0)
        } else {
            None
        }
    }
}

} // verus!
