use polymarket::bot::engine::BotEngine;
use polymarket::bot::strategy::{StrategyStatus, StrategyType};
use polymarket::json::Json;
use polymarket::trades::{
    counted_volume, parse_24h_volume_from_trades, parse_total_volume_from_trades, volumes_from_text,
};

// 2023-11-14T22:13:20Z
const NOW: i64 = 1_700_000_000_000;

fn number(n: &str) -> Json {
    Json::Number(String::from(n))
}

fn object(members: Vec<(&str, Json)>) -> Json {
    Json::Object(members.into_iter().map(|(k, v)| (String::from(k), v)).collect())
}

fn trade(time: &str, volume: &str) -> Json {
    object(vec![("timestamp", Json::Text(String::from(time))), ("volume", number(volume))])
}

/// The volume of the last day of a report with one trade of volume 1 at
/// the given time: 1 where the time is read and less than a day before NOW.
fn counted(time: &str) -> u128 {
    let report = object(vec![("events", Json::Array(vec![trade(time, "0.000001")]))]);
    parse_24h_volume_from_trades(&report, NOW)
}

#[test]
fn times_are_read_after_rfc_3339() {
    assert_eq!(counted("2023-11-14T22:13:20Z"), 1);
    assert_eq!(counted("2023-11-14T22:13:20.250Z"), 1);
    assert_eq!(counted("2023-11-14T23:13:20+01:00"), 1);
    // A day ago to the millisecond is too old; a millisecond later is not.
    assert_eq!(counted("2023-11-13T22:13:20Z"), 0);
    assert_eq!(counted("2023-11-13T22:13:20.001Z"), 1);
    assert_eq!(counted("2023-11-14T00:13:20+02:00"), 0);
    assert_eq!(counted("1970-01-01T00:00:01Z"), 0);
    assert_eq!(counted("2023-11-14"), 0);
    assert_eq!(counted("yesterday"), 0);
    assert_eq!(counted(""), 0);
}

#[test]
fn a_trade_counts_when_less_than_a_day_old() {
    assert_eq!(counted_volume(Some(NOW), Some(7), NOW), 7);
    assert_eq!(counted_volume(Some(NOW - 86_399_999), Some(7), NOW), 7);
    assert_eq!(counted_volume(Some(NOW - 86_400_000), Some(7), NOW), 0);
    assert_eq!(counted_volume(Some(NOW + 5), Some(7), NOW), 7);
    assert_eq!(counted_volume(None, Some(7), NOW), 0);
    assert_eq!(counted_volume(Some(NOW), None, NOW), 0);
    assert_eq!(counted_volume(Some(i64::MAX), Some(1), i64::MIN), 1);
    assert_eq!(counted_volume(Some(i64::MIN), Some(1), i64::MAX), 0);
}

#[test]
fn the_reported_volume_is_taken_first() {
    let r = object(vec![
        ("volume_24h", number("12.5")),
        ("total_volume", number("100")),
        ("events", Json::Array(vec![object(vec![("volume", number("1"))])])),
    ]);
    assert_eq!(parse_24h_volume_from_trades(&r, NOW), 12_500_000);
    assert_eq!(parse_total_volume_from_trades(&r), 100_000_000);
    assert_eq!(
        volumes_from_text(r#"{"volume_24h": 12.5, "total_volume": 100, "events": [{"volume": 1}]}"#, NOW),
        (12_500_000, 100_000_000)
    );
}

#[test]
fn volumes_are_added_up_from_the_trades() {
    let r = volumes_from_text(
        r#"{"events": [
            {"timestamp": "2023-11-14T21:13:20Z", "volume": 2},
            {"timestamp": "2023-11-12T22:13:20Z", "volume": 5},
            {"timestamp": "bad", "volume": 1},
            {"volume": 3},
            {"timestamp": "2023-11-14T22:00:00Z"},
            {"timestamp": "2023-11-14T22:00:00Z", "volume": "4"},
            {"timestamp": "2023-11-14T23:13:20+01:00", "volume": 0.5},
            17
        ]}"#,
        NOW,
    );
    assert_eq!(r, (2_500_000, 11_500_000));
}

#[test]
fn reports_without_volumes_give_nothing() {
    assert_eq!(volumes_from_text("{}", NOW), (0, 0));
    assert_eq!(volumes_from_text(r#"{"events": 5}"#, NOW), (0, 0));
    assert_eq!(volumes_from_text(r#"{"events": {}}"#, NOW), (0, 0));
    assert_eq!(volumes_from_text("[]", NOW), (0, 0));
    assert_eq!(volumes_from_text("no JSON at all", NOW), (0, 0));
    assert_eq!(parse_24h_volume_from_trades(&Json::Null, NOW), 0);
    assert_eq!(parse_total_volume_from_trades(&Json::Null), 0);
    // A volume that is no plain decimal is passed over.
    assert_eq!(
        volumes_from_text(r#"{"volume_24h": -3, "total_volume": "9", "events": [{"volume": 2}]}"#, NOW),
        (0, 2_000_000)
    );
}

#[test]
fn a_strategy_can_be_changed_in_place() {
    let mut engine = BotEngine::new();
    {
        let s = engine.get_strategy_mut(&StrategyType::VolumeSpike).expect("every kind is there");
        s.status = StrategyStatus::Running;
        s.run_count = 7;
    }
    let s = engine.get_strategy(&StrategyType::VolumeSpike).unwrap();
    assert_eq!(s.status, StrategyStatus::Running);
    assert_eq!(s.run_count, 7);
    assert_eq!(engine.get_strategy(&StrategyType::PriceAnomaly).unwrap().run_count, 0);
    engine.strategies.truncate(2);
    assert!(engine.get_strategy_mut(&StrategyType::VolumeSpike).is_none());
    assert!(engine.get_strategy(&StrategyType::VolumeSpike).is_none());
    assert_eq!(engine.get_strategy_status(&StrategyType::VolumeSpike), None);
}
