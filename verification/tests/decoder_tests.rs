use polymarket::json::Json;
use polymarket::websocket::clob::{
    decode_frame, decode_parsed, parse_polymarket_message, BookMessage, LastTradePriceMessage,
    OrderSummary, PolymarketWebSocketMessage, PriceChange, PriceChangeMessage,
    TickSizeChangeMessage,
};

fn text(s: &str) -> Json {
    Json::Text(String::from(s))
}

fn object(members: Vec<(&str, Json)>) -> Json {
    Json::Object(members.into_iter().map(|(k, v)| (String::from(k), v)).collect())
}

fn level(price: &str, size: &str) -> Json {
    object(vec![("price", text(price)), ("size", text(size))])
}

fn unknown(s: &str) -> PolymarketWebSocketMessage {
    PolymarketWebSocketMessage::Unknown(String::from(s))
}

#[test]
fn json_text_is_read_into_plain_values() {
    // An envelope of no known kind comes back as its own text, which
    // shows what was read: members by name, numbers as they print.
    assert_eq!(
        decode_frame(r#"{"b":[1,"two",null,true],"a":{"x":-2.5}, "n": 007e0} "#),
        vec![unknown("{\"b\":[1,\"two\",null,true],\"a\":{\"x\":-2.5}, \"n\": 007e0} ")]
    );
    assert_eq!(
        decode_frame(r#" {"b":[1,"two",null,true],"a":{"x":-2.5},"n":1e2} "#),
        vec![unknown(r#"{"a":{"x":-2.5},"b":[1,"two",null,true],"n":100.0}"#)]
    );
    assert_eq!(decode_frame("{} trailing"), vec![unknown("{} trailing")]);
    assert_eq!(decode_frame(" [ ] "), Vec::new());
}

#[test]
fn json_values_are_written_compactly() {
    let value = object(vec![
        ("type", text("market")),
        ("ids", Json::Array(vec![text("a"), text("b\"c")])),
        ("n", Json::Number(String::from("12"))),
        ("f", Json::Number(String::from("1.5"))),
        ("bad", Json::Number(String::from("twelve"))),
        ("nothing", Json::Null),
        ("yes", Json::Bool(true)),
    ]);
    assert_eq!(
        parse_polymarket_message(&value),
        unknown(r#"{"bad":null,"f":1.5,"ids":["a","b\"c"],"n":12,"nothing":null,"type":"market","yes":true}"#)
    );
    assert_eq!(parse_polymarket_message(&Json::Array(Vec::new())), unknown("[]"));
    assert_eq!(parse_polymarket_message(&text("x")), unknown("\"x\""));
}

#[test]
fn members_are_found_by_name() {
    let value = object(vec![("a", text("1")), ("b", text("2")), ("a", text("3"))]);
    assert_eq!(value.get("a"), Some(&text("1")));
    assert_eq!(value.get("b"), Some(&text("2")));
    assert_eq!(value.get("c"), None);
    assert_eq!(text("x").get("a"), None);
    assert_eq!(text("x").as_text(), Some(&String::from("x")));
    assert_eq!(Json::Null.as_text(), None);
    assert_eq!(Json::Array(vec![Json::Null]).as_array(), Some(&vec![Json::Null]));
    assert_eq!(value.as_array(), None);
}

#[test]
fn book_envelope_is_decoded() {
    let envelope = object(vec![
        ("event_type", text("book")),
        ("asset_id", text("A")),
        ("market", text("M")),
        ("bids", Json::Array(vec![level("0.52", "80"), level("0.50", "10")])),
        ("asks", Json::Array(vec![level("0.55", "100")])),
        ("timestamp", text("123")),
        ("hash", text("h")),
    ]);
    assert_eq!(
        parse_polymarket_message(&envelope),
        PolymarketWebSocketMessage::Book(BookMessage {
            event_type: String::from("book"),
            asset_id: String::from("A"),
            timestamp: String::from("123"),
            hash: String::from("h"),
            market: String::from("M"),
            bids: vec![
                OrderSummary { price: String::from("0.52"), size: String::from("80") },
                OrderSummary { price: String::from("0.50"), size: String::from("10") },
            ],
            asks: vec![OrderSummary { price: String::from("0.55"), size: String::from("100") }],
        })
    );
}

#[test]
fn other_envelopes_are_decoded() {
    let change = object(vec![
        ("event_type", text("price_change")),
        ("asset_id", text("A")),
        ("market", text("M")),
        (
            "changes",
            Json::Array(vec![object(vec![
                ("price", text("0.5")),
                ("side", text("BUY")),
                ("size", text("0")),
            ])]),
        ),
    ]);
    assert_eq!(
        parse_polymarket_message(&change),
        PolymarketWebSocketMessage::PriceChange(PriceChangeMessage {
            event_type: String::from("price_change"),
            asset_id: String::from("A"),
            timestamp: String::new(),
            hash: String::new(),
            market: String::from("M"),
            changes: vec![PriceChange {
                price: String::from("0.5"),
                side: String::from("BUY"),
                size: String::from("0"),
            }],
        })
    );
    let tick = object(vec![
        ("event_type", text("tick_size_change")),
        ("asset_id", text("A")),
        ("old_tick_size", text("0.01")),
        ("new_tick_size", text("0.001")),
    ]);
    assert_eq!(
        parse_polymarket_message(&tick),
        PolymarketWebSocketMessage::TickSizeChange(TickSizeChangeMessage {
            event_type: String::from("tick_size_change"),
            asset_id: String::from("A"),
            market: String::new(),
            timestamp: String::new(),
            old_tick_size: String::from("0.01"),
            new_tick_size: String::from("0.001"),
        })
    );
    let trade = object(vec![
        ("event_type", text("last_trade_price")),
        ("asset_id", text("A")),
        ("price", text("0.5")),
        ("side", text("SELL")),
        ("size", text("3")),
        ("fee_rate_bps", text("0")),
    ]);
    assert_eq!(
        parse_polymarket_message(&trade),
        PolymarketWebSocketMessage::LastTradePrice(LastTradePriceMessage {
            event_type: String::from("last_trade_price"),
            asset_id: String::from("A"),
            market: String::new(),
            timestamp: String::new(),
            price: String::from("0.5"),
            side: String::from("SELL"),
            size: String::from("3"),
            fee_rate_bps: String::from("0"),
        })
    );
}

#[test]
fn envelopes_that_fail_validation_are_unknown() {
    let missing = object(vec![("event_type", text("book")), ("asset_id", text("A"))]);
    assert_eq!(parse_polymarket_message(&missing), unknown(r#"{"asset_id":"A","event_type":"book"}"#));
    let wrong_type = object(vec![
        ("event_type", text("tick_size_change")),
        ("asset_id", Json::Number(String::from("5"))),
        ("old_tick_size", text("0.01")),
        ("new_tick_size", text("0.001")),
    ]);
    assert_eq!(
        parse_polymarket_message(&wrong_type),
        unknown(r#"{"asset_id":5,"event_type":"tick_size_change","new_tick_size":"0.001","old_tick_size":"0.01"}"#)
    );
    let bad_level = object(vec![
        ("event_type", text("book")),
        ("asset_id", text("A")),
        ("market", text("M")),
        ("bids", Json::Array(vec![level("0.52", "80"), object(vec![("price", text("0.5"))])])),
        ("asks", Json::Array(Vec::new())),
    ]);
    assert!(matches!(parse_polymarket_message(&bad_level), PolymarketWebSocketMessage::Unknown(_)));
    let bids_not_array = object(vec![
        ("event_type", text("book")),
        ("asset_id", text("A")),
        ("market", text("M")),
        ("bids", text("none")),
        ("asks", Json::Array(Vec::new())),
    ]);
    assert!(matches!(parse_polymarket_message(&bids_not_array), PolymarketWebSocketMessage::Unknown(_)));
    let other_kind = object(vec![("event_type", text("heartbeat"))]);
    assert_eq!(parse_polymarket_message(&other_kind), unknown(r#"{"event_type":"heartbeat"}"#));
    let kind_not_text = object(vec![("event_type", Json::Bool(true))]);
    assert_eq!(parse_polymarket_message(&kind_not_text), unknown(r#"{"event_type":true}"#));
    assert_eq!(parse_polymarket_message(&Json::Null), unknown("null"));
    assert_eq!(parse_polymarket_message(&text("book")), unknown("\"book\""));
    let upper = object(vec![("event_type", text("BOOK"))]);
    assert_eq!(parse_polymarket_message(&upper), unknown(r#"{"event_type":"BOOK"}"#));
}

#[test]
fn one_bad_envelope_does_not_discard_the_others() {
    let frame = r#"[
        {"event_type":"tick_size_change","asset_id":"A","old_tick_size":"0.01","new_tick_size":"0.001"},
        {"event_type":"book","asset_id":"A"},
        17,
        {"event_type":"last_trade_price","asset_id":"B","price":"0.5","side":"BUY","size":"1","fee_rate_bps":"0","extra":[1,2]}
    ]"#;
    let events = decode_frame(frame);
    assert_eq!(events.len(), 4);
    assert_eq!(
        events[0],
        PolymarketWebSocketMessage::TickSizeChange(TickSizeChangeMessage {
            event_type: String::from("tick_size_change"),
            asset_id: String::from("A"),
            market: String::new(),
            timestamp: String::new(),
            old_tick_size: String::from("0.01"),
            new_tick_size: String::from("0.001"),
        })
    );
    assert_eq!(events[1], unknown(r#"{"asset_id":"A","event_type":"book"}"#));
    assert_eq!(events[2], unknown("17"));
    assert_eq!(
        events[3],
        PolymarketWebSocketMessage::LastTradePrice(LastTradePriceMessage {
            event_type: String::from("last_trade_price"),
            asset_id: String::from("B"),
            market: String::new(),
            timestamp: String::new(),
            price: String::from("0.5"),
            side: String::from("BUY"),
            size: String::from("1"),
            fee_rate_bps: String::from("0"),
        })
    );
}

#[test]
fn frames_of_other_shapes() {
    assert_eq!(decode_frame("this is not JSON"), vec![unknown("this is not JSON")]);
    assert_eq!(decode_frame(""), vec![unknown("")]);
    assert_eq!(decode_frame("[]"), Vec::new());
    assert_eq!(decode_frame("PONG"), vec![unknown("PONG")]);
    let single = decode_frame(r#"{"event_type":"tick_size_change","asset_id":"A","old_tick_size":"1","new_tick_size":"2"}"#);
    assert_eq!(single.len(), 1);
    assert!(matches!(single[0], PolymarketWebSocketMessage::TickSizeChange(_)));
    assert_eq!(decode_frame("42"), vec![unknown("42")]);
}

#[test]
fn parsed_frames_are_decoded_without_the_parser() {
    assert_eq!(decode_parsed(&None, "raw"), vec![unknown("raw")]);
    let array = Json::Array(vec![Json::Null, object(vec![("event_type", text("x"))])]);
    assert_eq!(
        decode_parsed(&Some(array), "ignored"),
        vec![unknown("null"), unknown(r#"{"event_type":"x"}"#)]
    );
    assert_eq!(decode_parsed(&Some(Json::Bool(false)), "ignored"), vec![unknown("false")]);
}

#[test]
fn events_name_their_instrument() {
    let tick = PolymarketWebSocketMessage::TickSizeChange(TickSizeChangeMessage {
        event_type: String::from("tick_size_change"),
        asset_id: String::from("A"),
        market: String::new(),
        timestamp: String::new(),
        old_tick_size: String::from("1"),
        new_tick_size: String::from("2"),
    });
    assert!(tick.is_for("A"));
    assert!(!tick.is_for("a"));
    assert!(!tick.is_for(""));
    assert!(!unknown("A").is_for("A"));
}

#[test]
fn members_beside_the_fields_of_a_kind_are_carried_along() {
    let events = decode_frame(
        r#"[
        {"event_type":"price_change","asset_id":"A","market":"M","timestamp":"1700000000000","hash":"0xabc","changes":[]},
        {"event_type":"tick_size_change","asset_id":"A","market":"M","old_tick_size":"0.01","new_tick_size":"0.001","timestamp":"17"},
        {"event_type":"last_trade_price","asset_id":"A","market":"M2","price":"0.5","side":"BUY","size":"1","fee_rate_bps":"0","timestamp":"18"}
    ]"#,
    );
    assert_eq!(
        events,
        vec![
            PolymarketWebSocketMessage::PriceChange(PriceChangeMessage {
                event_type: String::from("price_change"),
                asset_id: String::from("A"),
                market: String::from("M"),
                timestamp: String::from("1700000000000"),
                hash: String::from("0xabc"),
                changes: Vec::new(),
            }),
            PolymarketWebSocketMessage::TickSizeChange(TickSizeChangeMessage {
                event_type: String::from("tick_size_change"),
                asset_id: String::from("A"),
                market: String::from("M"),
                old_tick_size: String::from("0.01"),
                new_tick_size: String::from("0.001"),
                timestamp: String::from("17"),
            }),
            PolymarketWebSocketMessage::LastTradePrice(LastTradePriceMessage {
                event_type: String::from("last_trade_price"),
                asset_id: String::from("A"),
                market: String::from("M2"),
                price: String::from("0.5"),
                side: String::from("BUY"),
                size: String::from("1"),
                fee_rate_bps: String::from("0"),
                timestamp: String::from("18"),
            }),
        ]
    );
}

#[test]
fn a_carried_member_that_is_no_text_reads_as_empty() {
    let events = decode_frame(
        r#"{"event_type":"tick_size_change","asset_id":"A","market":7,"old_tick_size":"0.01","new_tick_size":"0.001","timestamp":17}"#,
    );
    assert_eq!(
        events,
        vec![PolymarketWebSocketMessage::TickSizeChange(TickSizeChangeMessage {
            event_type: String::from("tick_size_change"),
            asset_id: String::from("A"),
            market: String::new(),
            old_tick_size: String::from("0.01"),
            new_tick_size: String::from("0.001"),
            timestamp: String::new(),
        })]
    );
}
