//! Feed messages of the exchange as typed values, and the decoder that
//! reads them from a frame.

use crate::json::{json_of_text, json_to_text, parse_json, text_of_json, Json, JsonModel};
use crate::text::str_eq;
use vstd::prelude::*;

verus! {

/// One level as the feed writes it: decimal text for price and size.
#[derive(Debug, Clone, PartialEq, Eq)]
pub struct OrderSummary {
    pub price: String,
    pub size: String,
}

/// A full snapshot of one instrument's book. `timestamp` and `hash` are
/// empty where the feed sent none.
#[derive(Debug, Clone, PartialEq, Eq)]
pub struct BookMessage {
    pub event_type: String,
    pub asset_id: String,
    pub market: String,
    pub timestamp: String,
    pub hash: String,
    pub bids: Vec<OrderSummary>,
    pub asks: Vec<OrderSummary>,
}

/// One incremental change of one level.
#[derive(Debug, Clone, PartialEq, Eq)]
pub struct PriceChange {
    pub price: String,
    pub side: String,
    pub size: String,
}

/// A batch of incremental changes to one instrument's book. `timestamp`
/// and `hash` are empty where the feed sent none.
#[derive(Debug, Clone, PartialEq, Eq)]
pub struct PriceChangeMessage {
    pub event_type: String,
    pub asset_id: String,
    pub market: String,
    pub timestamp: String,
    pub hash: String,
    pub changes: Vec<PriceChange>,
}

/// A new minimum price increment for one instrument. `market` and
/// `timestamp` are empty where the feed sent none.
#[derive(Debug, Clone, PartialEq, Eq)]
pub struct TickSizeChangeMessage {
    pub event_type: String,
    pub asset_id: String,
    pub market: String,
    pub old_tick_size: String,
    pub new_tick_size: String,
    pub timestamp: String,
}

/// A trade that took place. `market` and `timestamp` are empty where the
/// feed sent none.
#[derive(Debug, Clone, PartialEq, Eq)]
pub struct LastTradePriceMessage {
    pub event_type: String,
    pub asset_id: String,
    pub market: String,
    pub price: String,
    pub side: String,
    pub size: String,
    pub fee_rate_bps: String,
    pub timestamp: String,
}

/// A decoded feed event.
#[derive(Debug, Clone, PartialEq, Eq)]
pub enum PolymarketWebSocketMessage {
    Book(BookMessage),
    PriceChange(PriceChangeMessage),
    TickSizeChange(TickSizeChangeMessage),
    LastTradePrice(LastTradePriceMessage),
    Unknown(String),
}

/// The mathematical content of an [`OrderSummary`].
pub struct OrderSummaryModel {
    pub price: Seq<char>,
    pub size: Seq<char>,
}

/// The mathematical content of a [`BookMessage`].
pub struct BookMessageModel {
    pub event_type: Seq<char>,
    pub asset_id: Seq<char>,
    pub market: Seq<char>,
    pub timestamp: Seq<char>,
    pub hash: Seq<char>,
    pub bids: Seq<OrderSummaryModel>,
    pub asks: Seq<OrderSummaryModel>,
}

/// The mathematical content of a [`PriceChange`].
pub struct PriceChangeModel {
    pub price: Seq<char>,
    pub side: Seq<char>,
    pub size: Seq<char>,
}

/// The mathematical content of a [`PriceChangeMessage`].
pub struct PriceChangeMessageModel {
    pub event_type: Seq<char>,
    pub asset_id: Seq<char>,
    pub market: Seq<char>,
    pub timestamp: Seq<char>,
    pub hash: Seq<char>,
    pub changes: Seq<PriceChangeModel>,
}

/// The mathematical content of a [`TickSizeChangeMessage`].
pub struct TickSizeChangeModel {
    pub event_type: Seq<char>,
    pub asset_id: Seq<char>,
    pub market: Seq<char>,
    pub old_tick_size: Seq<char>,
    pub new_tick_size: Seq<char>,
    pub timestamp: Seq<char>,
}

/// The mathematical content of a [`LastTradePriceMessage`].
pub struct LastTradePriceModel {
    pub event_type: Seq<char>,
    pub asset_id: Seq<char>,
    pub market: Seq<char>,
    pub price: Seq<char>,
    pub side: Seq<char>,
    pub size: Seq<char>,
    pub fee_rate_bps: Seq<char>,
    pub timestamp: Seq<char>,
}

/// The mathematical content of a [`PolymarketWebSocketMessage`].
pub enum MessageModel {
    Book(BookMessageModel),
    PriceChange(PriceChangeMessageModel),
    TickSizeChange(TickSizeChangeModel),
    LastTradePrice(LastTradePriceModel),
    Unknown(Seq<char>),
}

impl View for OrderSummary {
    type V = OrderSummaryModel;

    open spec fn view(&self) -> OrderSummaryModel {
        OrderSummaryModel { price: self.price@, size: self.size@ }
    }
}

/// The contents of a list of levels.
pub open spec fn summaries_view(v: Seq<OrderSummary>) -> Seq<OrderSummaryModel> {
    Seq::new(v.len(), |i: int| v[i]@)
}

impl View for BookMessage {
    type V = BookMessageModel;

    open spec fn view(&self) -> BookMessageModel {
        BookMessageModel {
            event_type: self.event_type@,
            asset_id: self.asset_id@,
            market: self.market@,
            timestamp: self.timestamp@,
            hash: self.hash@,
            bids: summaries_view(self.bids@),
            asks: summaries_view(self.asks@),
        }
    }
}

impl View for PriceChange {
    type V = PriceChangeModel;

    open spec fn view(&self) -> PriceChangeModel {
        PriceChangeModel { price: self.price@, side: self.side@, size: self.size@ }
    }
}

/// The contents of a list of changes.
pub open spec fn changes_view(v: Seq<PriceChange>) -> Seq<PriceChangeModel> {
    Seq::new(v.len(), |i: int| v[i]@)
}

impl View for PriceChangeMessage {
    type V = PriceChangeMessageModel;

    open spec fn view(&self) -> PriceChangeMessageModel {
        PriceChangeMessageModel {
            event_type: self.event_type@,
            asset_id: self.asset_id@,
            market: self.market@,
            timestamp: self.timestamp@,
            hash: self.hash@,
            changes: changes_view(self.changes@),
        }
    }
}

impl View for TickSizeChangeMessage {
    type V = TickSizeChangeModel;

    open spec fn view(&self) -> TickSizeChangeModel {
        TickSizeChangeModel {
            event_type: self.event_type@,
            asset_id: self.asset_id@,
            market: self.market@,
            old_tick_size: self.old_tick_size@,
            new_tick_size: self.new_tick_size@,
            timestamp: self.timestamp@,
        }
    }
}

impl View for LastTradePriceMessage {
    type V = LastTradePriceModel;

    open spec fn view(&self) -> LastTradePriceModel {
        LastTradePriceModel {
            event_type: self.event_type@,
            asset_id: self.asset_id@,
            market: self.market@,
            price: self.price@,
            side: self.side@,
            size: self.size@,
            fee_rate_bps: self.fee_rate_bps@,
            timestamp: self.timestamp@,
        }
    }
}

impl View for PolymarketWebSocketMessage {
    type V = MessageModel;

    open spec fn view(&self) -> MessageModel {
        match self {
            PolymarketWebSocketMessage::Book(m) => MessageModel::Book(m@),
            PolymarketWebSocketMessage::PriceChange(m) => MessageModel::PriceChange(m@),
            PolymarketWebSocketMessage::TickSizeChange(m) => MessageModel::TickSizeChange(m@),
            PolymarketWebSocketMessage::LastTradePrice(m) => MessageModel::LastTradePrice(m@),
            PolymarketWebSocketMessage::Unknown(text) => MessageModel::Unknown(text@),
        }
    }
}

impl MessageModel {
    /// The instrument that the event is about; `None` for an unknown event.
    pub open spec fn asset_id(self) -> Option<Seq<char>> {
        match self {
            MessageModel::Book(m) => Some(m.asset_id),
            MessageModel::PriceChange(m) => Some(m.asset_id),
            MessageModel::TickSizeChange(m) => Some(m.asset_id),
            MessageModel::LastTradePrice(m) => Some(m.asset_id),
            MessageModel::Unknown(_) => None,
        }
    }
}

impl PolymarketWebSocketMessage {
    /// Whether the event is about the instrument `token_id`. An unknown
    /// event is about none.
    pub fn is_for(&self, token_id: &str) -> (r: bool)
        ensures
            r == (self@.asset_id() == Some(token_id@)),
    {
        match self {
            PolymarketWebSocketMessage::Book(m) => str_eq(m.asset_id.as_str(), token_id),
            PolymarketWebSocketMessage::PriceChange(m) => str_eq(m.asset_id.as_str(), token_id),
            PolymarketWebSocketMessage::TickSizeChange(m) => str_eq(m.asset_id.as_str(), token_id),
            PolymarketWebSocketMessage::LastTradePrice(m) => str_eq(m.asset_id.as_str(), token_id),
            PolymarketWebSocketMessage::Unknown(_) => false,
        }
    }
}

/// The text of the member `name`, where the value is an object that has
/// such a member and the member is a string.
pub open spec fn text_field(value: JsonModel, name: Seq<char>) -> Option<Seq<char>> {
    match value.member(name) {
        Some(member) => member.text(),
        None => None,
    }
}

/// The text of the member `name`, empty where the value has no such text.
/// It reads the members that an envelope may carry beside the fields of
/// its kind.
pub open spec fn text_or_empty(value: JsonModel, name: Seq<char>) -> Seq<char> {
    match text_field(value, name) {
        Some(s) => s,
        None => Seq::empty(),
    }
}

/// The level that a JSON value writes: an object with the strings `price`
/// and `size`.
pub open spec fn summary_of(value: JsonModel) -> Option<OrderSummaryModel> {
    match (text_field(value, "price"@), text_field(value, "size"@)) {
        (Some(price), Some(size)) => Some(OrderSummaryModel { price, size }),
        _ => None,
    }
}

/// The change that a JSON value writes: an object with the strings `price`,
/// `side` and `size`.
pub open spec fn change_of(value: JsonModel) -> Option<PriceChangeModel> {
    match (text_field(value, "price"@), text_field(value, "side"@), text_field(value, "size"@)) {
        (Some(price), Some(side), Some(size)) => Some(PriceChangeModel { price, side, size }),
        _ => None,
    }
}

/// The levels that the member `name` writes: an array whose every item
/// writes a level.
pub open spec fn summaries_field(value: JsonModel, name: Seq<char>) -> Option<
    Seq<OrderSummaryModel>,
> {
    match value.member(name) {
        Some(JsonModel::Array(items)) => if forall|i: int|
            0 <= i < items.len() ==> summary_of(#[trigger] items[i]) is Some {
            Some(Seq::new(items.len(), |i: int| summary_of(items[i])->0))
        } else {
            None
        },
        _ => None,
    }
}

/// The changes that the member `name` writes: an array whose every item
/// writes a change.
pub open spec fn changes_field(value: JsonModel, name: Seq<char>) -> Option<Seq<PriceChangeModel>> {
    match value.member(name) {
        Some(JsonModel::Array(items)) => if forall|i: int|
            0 <= i < items.len() ==> change_of(#[trigger] items[i]) is Some {
            Some(Seq::new(items.len(), |i: int| change_of(items[i])->0))
        } else {
            None
        },
        _ => None,
    }
}

/// The snapshot that an envelope writes, where it has the fields of its
/// kind: `asset_id`, `market`, `bids` and `asks`. The time and the hash are
/// carried along where the envelope has them.
pub open spec fn book_of(value: JsonModel) -> Option<BookMessageModel> {
    match (
        text_field(value, "asset_id"@),
        text_field(value, "market"@),
        summaries_field(value, "bids"@),
        summaries_field(value, "asks"@),
    ) {
        (Some(asset_id), Some(market), Some(bids), Some(asks)) => Some(
            BookMessageModel {
                event_type: "book"@,
                asset_id,
                market,
                timestamp: text_or_empty(value, "timestamp"@),
                hash: text_or_empty(value, "hash"@),
                bids,
                asks,
            },
        ),
        _ => None,
    }
}

/// The batch of changes that an envelope writes, where it has the fields
/// of its kind: `asset_id`, `market` and `changes`. The time and the hash
/// are carried along where the envelope has them.
pub open spec fn price_change_of(value: JsonModel) -> Option<PriceChangeMessageModel> {
    match (
        text_field(value, "asset_id"@),
        text_field(value, "market"@),
        changes_field(value, "changes"@),
    ) {
        (Some(asset_id), Some(market), Some(changes)) => Some(
            PriceChangeMessageModel {
                event_type: "price_change"@,
                asset_id,
                market,
                timestamp: text_or_empty(value, "timestamp"@),
                hash: text_or_empty(value, "hash"@),
                changes,
            },
        ),
        _ => None,
    }
}

/// The change of tick size that an envelope writes, where it has the
/// fields of its kind: `asset_id`, `old_tick_size` and `new_tick_size`. The
/// market and the time are carried along where the envelope has them.
pub open spec fn tick_size_change_of(value: JsonModel) -> Option<TickSizeChangeModel> {
    match (
        text_field(value, "asset_id"@),
        text_field(value, "old_tick_size"@),
        text_field(value, "new_tick_size"@),
    ) {
        (Some(asset_id), Some(old_tick_size), Some(new_tick_size)) => Some(
            TickSizeChangeModel {
                event_type: "tick_size_change"@,
                asset_id,
                market: text_or_empty(value, "market"@),
                old_tick_size,
                new_tick_size,
                timestamp: text_or_empty(value, "timestamp"@),
            },
        ),
        _ => None,
    }
}

/// The trade that an envelope writes, where it has the fields of its kind:
/// `asset_id`, `price`, `side`, `size` and `fee_rate_bps`. The market and
/// the time are carried along where the envelope has them.
pub open spec fn last_trade_of(value: JsonModel) -> Option<LastTradePriceModel> {
    match (
        text_field(value, "asset_id"@),
        text_field(value, "price"@),
        text_field(value, "side"@),
        text_field(value, "size"@),
        text_field(value, "fee_rate_bps"@),
    ) {
        (Some(asset_id), Some(price), Some(side), Some(size), Some(fee_rate_bps)) => Some(
            LastTradePriceModel {
                event_type: "last_trade_price"@,
                asset_id,
                market: text_or_empty(value, "market"@),
                price,
                side,
                size,
                fee_rate_bps,
                timestamp: text_or_empty(value, "timestamp"@),
            },
        ),
        _ => None,
    }
}

/// The event that one envelope denotes. The string member `event_type`
/// picks the kind; an envelope of no known kind, or without a field of its
/// kind, is an unknown event that carries the envelope's text.
pub open spec fn classify(value: JsonModel) -> MessageModel {
    let unknown = MessageModel::Unknown(text_of_json(value));
    match text_field(value, "event_type"@) {
        None => unknown,
        Some(kind) => if kind == "book"@ {
            match book_of(value) {
                Some(m) => MessageModel::Book(m),
                None => unknown,
            }
        } else if kind == "price_change"@ {
            match price_change_of(value) {
                Some(m) => MessageModel::PriceChange(m),
                None => unknown,
            }
        } else if kind == "tick_size_change"@ {
            match tick_size_change_of(value) {
                Some(m) => MessageModel::TickSizeChange(m),
                None => unknown,
            }
        } else if kind == "last_trade_price"@ {
            match last_trade_of(value) {
                Some(m) => MessageModel::LastTradePrice(m),
                None => unknown,
            }
        } else {
            unknown
        },
    }
}

/// The events of one frame, given what the frame's text reads as. An array
/// gives one event per item, in order; any other value gives one event;
/// text that is no JSON gives one unknown event that carries the text.
pub open spec fn decode_spec(parsed: Option<JsonModel>, text: Seq<char>) -> Seq<MessageModel> {
    match parsed {
        None => seq![MessageModel::Unknown(text)],
        Some(JsonModel::Array(items)) => Seq::new(items.len(), |i: int| classify(items[i])),
        Some(value) => seq![classify(value)],
    }
}

/// The contents of a list of events.
pub open spec fn messages_view(v: Seq<PolymarketWebSocketMessage>) -> Seq<MessageModel> {
    Seq::new(v.len(), |i: int| v[i]@)
}

fn text_member(value: &Json, name: &str) -> (r: Option<String>)
    ensures
        match r {
            Some(s) => text_field(value@, name@) == Some(s@),
            None => text_field(value@, name@) is None,
        },
{
    match value.get(name) {
        Some(member) => match member.as_text() {
            Some(s) => Some(s.clone()),
            None => None,
        },
        None => None,
    }
}

fn text_member_or_empty(value: &Json, name: &str) -> (r: String)
    ensures
        r@ == text_or_empty(value@, name@),
{
    match text_member(value, name) {
        Some(s) => s,
        None => {
            proof {
                reveal_strlit("");
                assert(""@ =~= Seq::<char>::empty());
            }
            String::from_str("")
        },
    }
}

fn summary_from(value: &Json) -> (r: Option<OrderSummary>)
    ensures
        match r {
            Some(s) => summary_of(value@) == Some(s@),
            None => summary_of(value@) is None,
        },
{
    let price = text_member(value, "price");
    let size = text_member(value, "size");
    match (price, size) {
        (Some(price), Some(size)) => Some(OrderSummary { price, size }),
        _ => None,
    }
}

fn change_from(value: &Json) -> (r: Option<PriceChange>)
    ensures
        match r {
            Some(c) => change_of(value@) == Some(c@),
            None => change_of(value@) is None,
        },
{
    let price = text_member(value, "price");
    let side = text_member(value, "side");
    let size = text_member(value, "size");
    match (price, side, size) {
        (Some(price), Some(side), Some(size)) => Some(PriceChange { price, side, size }),
        _ => None,
    }
}

fn summaries_member(value: &Json, name: &str) -> (r: Option<Vec<OrderSummary>>)
    ensures
        match r {
            Some(v) => summaries_field(value@, name@) == Some(summaries_view(v@)),
            None => summaries_field(value@, name@) is None,
        },
{
    let member = match value.get(name) {
        Some(member) => member,
        None => {
            return None;
        },
    };
    let items = match member.as_array() {
        Some(items) => items,
        None => {
            return None;
        },
    };
    let ghost models = member@->Array_0;
    let mut out: Vec<OrderSummary> = Vec::new();
    let mut i: usize = 0;
    while i < items.len()
        invariant
            i <= items.len(),
            value@.member(name@) == Some(JsonModel::Array(models)),
            models.len() == items@.len(),
            forall|j: int| 0 <= j < items@.len() ==> #[trigger] models[j] == items@[j]@,
            out@.len() == i,
            forall|j: int| 0 <= j < i ==> summary_of(#[trigger] models[j]) == Some(out@[j]@),
        decreases items.len() - i,
    {
        match summary_from(&items[i]) {
            Some(s) => {
                out.push(s);
            },
            None => {
                assert(summary_of(models[i as int]) is None);
                return None;
            },
        }
        i = i + 1;
    }
    assert(summaries_view(out@) =~= Seq::new(models.len(), |i: int| summary_of(models[i])->0));
    Some(out)
}

fn changes_member(value: &Json, name: &str) -> (r: Option<Vec<PriceChange>>)
    ensures
        match r {
            Some(v) => changes_field(value@, name@) == Some(changes_view(v@)),
            None => changes_field(value@, name@) is None,
        },
{
    let member = match value.get(name) {
        Some(member) => member,
        None => {
            return None;
        },
    };
    let items = match member.as_array() {
        Some(items) => items,
        None => {
            return None;
        },
    };
    let ghost models = member@->Array_0;
    let mut out: Vec<PriceChange> = Vec::new();
    let mut i: usize = 0;
    while i < items.len()
        invariant
            i <= items.len(),
            value@.member(name@) == Some(JsonModel::Array(models)),
            models.len() == items@.len(),
            forall|j: int| 0 <= j < items@.len() ==> #[trigger] models[j] == items@[j]@,
            out@.len() == i,
            forall|j: int| 0 <= j < i ==> change_of(#[trigger] models[j]) == Some(out@[j]@),
        decreases items.len() - i,
    {
        match change_from(&items[i]) {
            Some(c) => {
                out.push(c);
            },
            None => {
                assert(change_of(models[i as int]) is None);
                return None;
            },
        }
        i = i + 1;
    }
    assert(changes_view(out@) =~= Seq::new(models.len(), |i: int| change_of(models[i])->0));
    Some(out)
}

fn book_from(value: &Json) -> (r: Option<BookMessage>)
    ensures
        match r {
            Some(m) => book_of(value@) == Some(m@),
            None => book_of(value@) is None,
        },
{
    let asset_id = text_member(value, "asset_id");
    let market = text_member(value, "market");
    let bids = summaries_member(value, "bids");
    let asks = summaries_member(value, "asks");
    match (asset_id, market, bids, asks) {
        (Some(asset_id), Some(market), Some(bids), Some(asks)) => Some(
            BookMessage {
                event_type: String::from_str("book"),
                asset_id,
                market,
                timestamp: text_member_or_empty(value, "timestamp"),
                hash: text_member_or_empty(value, "hash"),
                bids,
                asks,
            },
        ),
        _ => None,
    }
}

fn price_change_from(value: &Json) -> (r: Option<PriceChangeMessage>)
    ensures
        match r {
            Some(m) => price_change_of(value@) == Some(m@),
            None => price_change_of(value@) is None,
        },
{
    let asset_id = text_member(value, "asset_id");
    let market = text_member(value, "market");
    let changes = changes_member(value, "changes");
    match (asset_id, market, changes) {
        (Some(asset_id), Some(market), Some(changes)) => Some(
            PriceChangeMessage {
                event_type: String::from_str("price_change"),
                asset_id,
                market,
                timestamp: text_member_or_empty(value, "timestamp"),
                hash: text_member_or_empty(value, "hash"),
                changes,
            },
        ),
        _ => None,
    }
}

fn tick_size_change_from(value: &Json) -> (r: Option<TickSizeChangeMessage>)
    ensures
        match r {
            Some(m) => tick_size_change_of(value@) == Some(m@),
            None => tick_size_change_of(value@) is None,
        },
{
    let asset_id = text_member(value, "asset_id");
    let old_tick_size = text_member(value, "old_tick_size");
    let new_tick_size = text_member(value, "new_tick_size");
    match (asset_id, old_tick_size, new_tick_size) {
        (Some(asset_id), Some(old_tick_size), Some(new_tick_size)) => Some(
            TickSizeChangeMessage {
                event_type: String::from_str("tick_size_change"),
                asset_id,
                market: text_member_or_empty(value, "market"),
                old_tick_size,
                new_tick_size,
                timestamp: text_member_or_empty(value, "timestamp"),
            },
        ),
        _ => None,
    }
}

fn last_trade_from(value: &Json) -> (r: Option<LastTradePriceMessage>)
    ensures
        match r {
            Some(m) => last_trade_of(value@) == Some(m@),
            None => last_trade_of(value@) is None,
        },
{
    let asset_id = text_member(value, "asset_id");
    let price = text_member(value, "price");
    let side = text_member(value, "side");
    let size = text_member(value, "size");
    let fee_rate_bps = text_member(value, "fee_rate_bps");
    match (asset_id, price, side, size, fee_rate_bps) {
        (Some(asset_id), Some(price), Some(side), Some(size), Some(fee_rate_bps)) => Some(
            LastTradePriceMessage {
                event_type: String::from_str("last_trade_price"),
                asset_id,
                market: text_member_or_empty(value, "market"),
                price,
                side,
                size,
                fee_rate_bps,
                timestamp: text_member_or_empty(value, "timestamp"),
            },
        ),
        _ => None,
    }
}

/// Turns one envelope into its typed event.
pub fn parse_polymarket_message(value: &Json) -> (r: PolymarketWebSocketMessage)
    ensures
        r@ == classify(value@),
{
    let kind = match text_member(value, "event_type") {
        Some(kind) => kind,
        None => {
            return PolymarketWebSocketMessage::Unknown(json_to_text(value));
        },
    };
    if str_eq(kind.as_str(), "book") {
        match book_from(value) {
            Some(m) => PolymarketWebSocketMessage::Book(m),
            None => PolymarketWebSocketMessage::Unknown(json_to_text(value)),
        }
    } else if str_eq(kind.as_str(), "price_change") {
        match price_change_from(value) {
            Some(m) => PolymarketWebSocketMessage::PriceChange(m),
            None => PolymarketWebSocketMessage::Unknown(json_to_text(value)),
        }
    } else if str_eq(kind.as_str(), "tick_size_change") {
        match tick_size_change_from(value) {
            Some(m) => PolymarketWebSocketMessage::TickSizeChange(m),
            None => PolymarketWebSocketMessage::Unknown(json_to_text(value)),
        }
    } else if str_eq(kind.as_str(), "last_trade_price") {
        match last_trade_from(value) {
            Some(m) => PolymarketWebSocketMessage::LastTradePrice(m),
            None => PolymarketWebSocketMessage::Unknown(json_to_text(value)),
        }
    } else {
        PolymarketWebSocketMessage::Unknown(json_to_text(value))
    }
}

/// The events of one frame whose text was read as `parsed`.
pub fn decode_parsed(parsed: &Option<Json>, text: &str) -> (r: Vec<PolymarketWebSocketMessage>)
    ensures
        messages_view(r@) == decode_spec(
            match parsed {
                Some(value) => Some(value@),
                None => None,
            },
            text@,
        ),
{
    let mut out: Vec<PolymarketWebSocketMessage> = Vec::new();
    match parsed {
        None => {
            out.push(PolymarketWebSocketMessage::Unknown(String::from_str(text)));
            assert(messages_view(out@) =~= seq![MessageModel::Unknown(text@)]);
        },
        Some(value) => match value.as_array() {
            Some(items) => {
                let ghost models = value@->Array_0;
                let mut i: usize = 0;
                while i < items.len()
                    invariant
                        i <= items.len(),
                        models.len() == items@.len(),
                        forall|j: int| 0 <= j < items@.len() ==> #[trigger] models[j] == items@[j]@,
                        out@.len() == i,
                        forall|j: int| 0 <= j < i ==> (#[trigger] out@[j])@ == classify(models[j]),
                    decreases items.len() - i,
                {
                    out.push(parse_polymarket_message(&items[i]));
                    i = i + 1;
                }
                assert(messages_view(out@) =~= Seq::new(models.len(), |i: int| classify(models[i])));
            },
            None => {
                out.push(parse_polymarket_message(value));
                assert(messages_view(out@) =~= seq![classify(value@)]);
            },
        },
    }
    out
}

/// Decodes one text frame of the feed into its events. Nothing makes it
/// fail: what cannot be understood comes out as an unknown event.
pub fn decode_frame(text: &str) -> (r: Vec<PolymarketWebSocketMessage>)
    ensures
        messages_view(r@) == decode_spec(json_of_text(text@), text@),
{
    let parsed = parse_json(text);
    decode_parsed(&parsed, text)
}

} // verus!
