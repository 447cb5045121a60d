//! Traded volumes read from the exchange's report of trades.

use crate::decimal::{parse_decimal, parse_decimal_spec};
use crate::json::{json_of_text, parse_json, Json, JsonModel};
use vstd::prelude::*;

verus! {

/// A day in milliseconds.
pub const DAY_MS: i64 = 86_400_000;

/// The milliseconds since the Unix epoch that `chrono` reads from a time
/// written after RFC 3339, or `None` where it rejects the text.
pub uninterp spec fn rfc3339_millis(text: Seq<char>) -> Option<i64>;

/// Calls `chrono::DateTime::parse_from_rfc3339` and, where that succeeds,
/// `timestamp_millis` on what it returns. The contract only names the
/// outcome: the same text always reads as the same time.
#[verifier::external_body]
pub(crate) fn parse_rfc3339(text: &str) -> (r: Option<i64>)
    ensures
        r == rfc3339_millis(text@),
{
    match chrono::DateTime::parse_from_rfc3339(text) {
        Ok(time) => Some(time.timestamp_millis()),
        Err(_) => None,
    }
}

/// The amount that a JSON number writes, in micro-units; `None` for any
/// other value and for a number that is no plain decimal.
pub open spec fn number_micro(value: Option<JsonModel>) -> Option<u64> {
    match value {
        Some(JsonModel::Number(text)) => parse_decimal_spec(text),
        _ => None,
    }
}

/// What one trade counts towards the volume of the day before `now`: its
/// volume where its time is known and less than a day ago and its volume
/// is known, else nothing.
pub open spec fn counted_volume_spec(time: Option<i64>, volume: Option<u64>, now: i64) -> nat {
    match (time, volume) {
        (Some(t), Some(v)) if t > now - DAY_MS => v as nat,
        _ => 0,
    }
}

/// The time of a trade, as its report names it.
pub open spec fn trade_time(trade: JsonModel) -> Option<i64> {
    match trade.member("timestamp"@) {
        Some(JsonModel::Text(text)) => rfc3339_millis(text),
        _ => None,
    }
}

/// The volumes of the first `n` trades that count towards the day before
/// `now`, added up.
pub open spec fn recent_total(trades: Seq<JsonModel>, now: i64, n: int) -> nat
    decreases n,
{
    if n <= 0 {
        0
    } else {
        recent_total(trades, now, n - 1) + counted_volume_spec(
            trade_time(trades[n - 1]),
            number_micro(trades[n - 1].member("volume"@)),
            now,
        )
    }
}

/// The volumes of the first `n` trades, added up; a trade without a
/// volume counts nothing.
pub open spec fn all_total(trades: Seq<JsonModel>, n: int) -> nat
    decreases n,
{
    if n <= 0 {
        0
    } else {
        all_total(trades, n - 1) + match number_micro(trades[n - 1].member("volume"@)) {
            Some(v) => v as nat,
            None => 0,
        }
    }
}

/// The volume of the last day that a report of trades gives: its number
/// `volume_24h` where it has one, else the volumes of its `events` that
/// are less than a day old, else 0.
pub open spec fn volume_24h_spec(report: JsonModel, now: i64) -> nat {
    match number_micro(report.member("volume_24h"@)) {
        Some(v) => v as nat,
        None => match report.member("events"@) {
            Some(JsonModel::Array(trades)) => recent_total(trades, now, trades.len() as int),
            _ => 0,
        },
    }
}

/// The volume of all time that a report of trades gives: its number
/// `total_volume` where it has one, else the volumes of its `events`, else
/// 0.
pub open spec fn total_volume_spec(report: JsonModel) -> nat {
    match number_micro(report.member("total_volume"@)) {
        Some(v) => v as nat,
        None => match report.member("events"@) {
            Some(JsonModel::Array(trades)) => all_total(trades, trades.len() as int),
            _ => 0,
        },
    }
}

/// What one trade counts towards the volume of the day before `now`.
pub fn counted_volume(time: Option<i64>, volume: Option<u64>, now: i64) -> (r: u64)
    ensures
        r == counted_volume_spec(time, volume, now),
{
    match (time, volume) {
        (Some(t), Some(v)) => {
            if t as i128 > now as i128 - DAY_MS as i128 {
                v
            } else {
                0
            }
        },
        _ => 0,
    }
}

/// The amount that the member `name` of `value` writes.
fn number_member(value: &Json, name: &str) -> (r: Option<u64>)
    ensures
        r == number_micro(value@.member(name@)),
{
    match value.get(name) {
        Some(Json::Number(text)) => parse_decimal(text.as_str()),
        _ => None,
    }
}

/// The time of a trade.
fn time_of(trade: &Json) -> (r: Option<i64>)
    ensures
        r == trade_time(trade@),
{
    match trade.get("timestamp") {
        Some(Json::Text(text)) => parse_rfc3339(text.as_str()),
        _ => None,
    }
}

/// Reads the volume of the day before `now` from a report of trades.
pub fn parse_24h_volume_from_trades(trades_data: &Json, now: i64) -> (r: u128)
    ensures
        r == volume_24h_spec(trades_data@, now),
{
    if let Some(v) = number_member(trades_data, "volume_24h") {
        return v as u128;
    }
    let events = match trades_data.get("events") {
        Some(events) => events,
        None => {
            return 0;
        },
    };
    let trades = match events.as_array() {
        Some(trades) => trades,
        None => {
            return 0;
        },
    };
    let ghost models = events@->Array_0;
    let mut total: u128 = 0;
    let mut i: usize = 0;
    while i < trades.len()
        invariant
            i <= trades.len(),
            models.len() == trades@.len(),
            forall|j: int| 0 <= j < trades@.len() ==> #[trigger] models[j] == trades@[j]@,
            total == recent_total(models, now, i as int),
            total <= i * 0xffff_ffff_ffff_ffff,
        decreases trades.len() - i,
    {
        let time = time_of(&trades[i]);
        let volume = number_member(&trades[i], "volume");
        total = total + counted_volume(time, volume, now) as u128;
        i = i + 1;
    }
    total
}

/// Reads the volume of all time from a report of trades.
pub fn parse_total_volume_from_trades(trades_data: &Json) -> (r: u128)
    ensures
        r == total_volume_spec(trades_data@),
{
    if let Some(v) = number_member(trades_data, "total_volume") {
        return v as u128;
    }
    let events = match trades_data.get("events") {
        Some(events) => events,
        None => {
            return 0;
        },
    };
    let trades = match events.as_array() {
        Some(trades) => trades,
        None => {
            return 0;
        },
    };
    let ghost models = events@->Array_0;
    let mut total: u128 = 0;
    let mut i: usize = 0;
    while i < trades.len()
        invariant
            i <= trades.len(),
            models.len() == trades@.len(),
            forall|j: int| 0 <= j < trades@.len() ==> #[trigger] models[j] == trades@[j]@,
            total == all_total(models, i as int),
            total <= i * 0xffff_ffff_ffff_ffff,
        decreases trades.len() - i,
    {
        if let Some(v) = number_member(&trades[i], "volume") {
            total = total + v as u128;
        }
        i = i + 1;
    }
    total
}

/// The volumes that the text of a report of trades gives, that of the
/// day before `now` first and that of all time second; both 0 where the
/// text is no JSON.
pub open spec fn volumes_spec(parsed: Option<JsonModel>, now: i64) -> (nat, nat) {
    match parsed {
        Some(report) => (volume_24h_spec(report, now), total_volume_spec(report)),
        None => (0, 0),
    }
}

/// Reads both volumes from the text of a report of trades.
pub fn volumes_from_text(text: &str, now: i64) -> (r: (u128, u128))
    ensures
        (r.0 as nat, r.1 as nat) == volumes_spec(json_of_text(text@), now),
{
    match parse_json(text) {
        Some(report) => (
            parse_24h_volume_from_trades(&report, now),
            parse_total_volume_from_trades(&report),
        ),
        None => (0, 0),
    }
}

} // verus!
