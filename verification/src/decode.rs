use vstd::prelude::*;

use crate::errors::WsError;
use crate::json::{get_field, json_get, json_of, parse_json, JsonValue};
use crate::model::{BinanceKline, BinanceKlineEvent, BinanceKlineView, BinanceKlineEventView};
use crate::tools::{WebsocketEvent, WebsocketEventView};

verus! {

/// The string bound to `key` in `v`, where there is one.
pub open spec fn str_field(v: JsonValue, key: Seq<char>) -> Option<Seq<char>> {
    match json_get(v, key) {
        Some(JsonValue::Str(s)) => Some(s@),
        _ => None,
    }
}

/// The signed 64-bit integer bound to `key` in `v`, where there is one.
pub open spec fn i64_field(v: JsonValue, key: Seq<char>) -> Option<i64> {
    match json_get(v, key) {
        Some(JsonValue::Int(n)) => if i64::MIN <= n <= i64::MAX {
            Some(n as i64)
        } else {
            None
        },
        _ => None,
    }
}

/// The unsigned 64-bit integer bound to `key` in `v`, where there is one.
pub open spec fn u64_field(v: JsonValue, key: Seq<char>) -> Option<u64> {
    match json_get(v, key) {
        Some(JsonValue::Int(n)) => if 0 <= n <= u64::MAX {
            Some(n as u64)
        } else {
            None
        },
        _ => None,
    }
}

/// The boolean bound to `key` in `v`, where there is one.
pub open spec fn bool_field(v: JsonValue, key: Seq<char>) -> Option<bool> {
    match json_get(v, key) {
        Some(JsonValue::Bool(b)) => Some(b),
        _ => None,
    }
}

/// The kline that `v` carries under the wire key mapping, where every
/// required field is present and well typed. The wire's `B` field is
/// discarded: the decoded kline always leaves it empty.
pub open spec fn spec_kline(v: JsonValue) -> Option<BinanceKlineView> {
    if i64_field(v, "t"@) is Some && i64_field(v, "T"@) is Some && str_field(v, "s"@) is Some
        && str_field(v, "i"@) is Some && i64_field(v, "f"@) is Some && i64_field(v, "L"@) is Some
        && str_field(v, "o"@) is Some && str_field(v, "c"@) is Some && str_field(v, "h"@) is Some
        && str_field(v, "l"@) is Some && str_field(v, "v"@) is Some && i64_field(v, "n"@) is Some
        && bool_field(v, "x"@) is Some && str_field(v, "q"@) is Some && str_field(v, "V"@) is Some
        && str_field(v, "Q"@) is Some {
        Some(
            BinanceKlineView {
                open_time: i64_field(v, "t"@)->0,
                close_time: i64_field(v, "T"@)->0,
                symbol: str_field(v, "s"@)->0,
                interval: str_field(v, "i"@)->0,
                first_trade_id: i64_field(v, "f"@)->0,
                last_trade_id: i64_field(v, "L"@)->0,
                open: str_field(v, "o"@)->0,
                close: str_field(v, "c"@)->0,
                high: str_field(v, "h"@)->0,
                low: str_field(v, "l"@)->0,
                volume: str_field(v, "v"@)->0,
                number_of_trades: i64_field(v, "n"@)->0,
                is_final_bar: bool_field(v, "x"@)->0,
                quote_asset_volume: str_field(v, "q"@)->0,
                taker_buy_base_asset_volume: str_field(v, "V"@)->0,
                taker_buy_quote_asset_volume: str_field(v, "Q"@)->0,
                ignore_me: Seq::empty(),
            },
        )
    } else {
        None
    }
}

/// The kline event that `v` carries, where its envelope fields and the nested
/// kline object are present and well typed.
pub open spec fn spec_kline_event(v: JsonValue) -> Option<BinanceKlineEventView> {
    if str_field(v, "e"@) is Some && u64_field(v, "E"@) is Some && str_field(v, "s"@) is Some
        && json_get(v, "k"@) is Some && spec_kline(json_get(v, "k"@)->0) is Some {
        Some(
            BinanceKlineEventView {
                event_type: str_field(v, "e"@)->0,
                event_time: u64_field(v, "E"@)->0,
                symbol: str_field(v, "s"@)->0,
                kline: spec_kline(json_get(v, "k"@)->0)->0,
            },
        )
    } else {
        None
    }
}

/// Unwraps the combined-stream envelope: follows `data` fields until a value
/// without one, or `None` when the nesting outruns the fuel.
pub open spec fn spec_unwrap_data(v: JsonValue, fuel: nat) -> Option<JsonValue>
    decreases fuel,
{
    match json_get(v, "data"@) {
        Option::None => Some(v),
        Option::Some(d) => if fuel == 0 {
            None
        } else {
            spec_unwrap_data(d, (fuel - 1) as nat)
        },
    }
}

/// How many nested `data` envelopes the decoder is willing to unwrap.
pub open spec fn unwrap_fuel() -> nat {
    8
}

/// What decoding a JSON value yields: `Err` on pathological envelope nesting,
/// `Ok(None)` where no known event shape matches (the frame is skipped), and
/// the event otherwise.
pub open spec fn spec_decode(v: JsonValue) -> Result<Option<WebsocketEventView>, ()> {
    match spec_unwrap_data(v, unwrap_fuel()) {
        None => Err(()),
        Some(u) => match spec_kline_event(u) {
            Some(ev) => Ok(Some(WebsocketEventView::BinanceKline(ev))),
            None => Ok(None),
        },
    }
}

/// What decoding a frame's text yields: `Err` where the text is not JSON,
/// otherwise `spec_decode` of the parsed value.
pub open spec fn spec_decode_text(s: Seq<char>) -> Result<Option<WebsocketEventView>, ()> {
    match json_of(s) {
        None => Err(()),
        Some(v) => spec_decode(v),
    }
}

/// How an executable decode result realises a specified outcome: a decode
/// error exactly where one is specified, a skip exactly where one is
/// specified, and otherwise the specified event, compared by content.
pub open spec fn decode_matches(
    r: Result<Option<WebsocketEvent>, WsError>,
    m: Result<Option<WebsocketEventView>, ()>,
) -> bool {
    match m {
        Result::Err(()) => r is Err && r->Err_0 is DecodeFailed,
        Result::Ok(None) => r == Ok::<Option<WebsocketEvent>, WsError>(None),
        Result::Ok(Some(ev)) => match r {
            Ok(Some(e)) => e@ == ev,
            _ => false,
        },
    }
}

/// Reads the kline object's fields under the wire key mapping.
pub fn match_kline(v: &JsonValue) -> (r: Option<BinanceKline>)
    ensures
        match r {
            Some(k) => spec_kline(*v) == Some(k@),
            None => spec_kline(*v) is None,
        },
{
    let open_time: i64 = match get_field(v, "t") {
        Some(JsonValue::Int(n)) => {
            if i64::MIN as i128 <= *n && *n <= i64::MAX as i128 {
                *n as i64
            } else {
                return None;
            }
        },
        _ => {
            return None;
        },
    };
    let close_time: i64 = match get_field(v, "T") {
        Some(JsonValue::Int(n)) => {
            if i64::MIN as i128 <= *n && *n <= i64::MAX as i128 {
                *n as i64
            } else {
                return None;
            }
        },
        _ => {
            return None;
        },
    };
    let symbol: String = match get_field(v, "s") {
        Some(JsonValue::Str(s)) => s.clone(),
        _ => {
            return None;
        },
    };
    let interval: String = match get_field(v, "i") {
        Some(JsonValue::Str(s)) => s.clone(),
        _ => {
            return None;
        },
    };
    let first_trade_id: i64 = match get_field(v, "f") {
        Some(JsonValue::Int(n)) => {
            if i64::MIN as i128 <= *n && *n <= i64::MAX as i128 {
                *n as i64
            } else {
                return None;
            }
        },
        _ => {
            return None;
        },
    };
    let last_trade_id: i64 = match get_field(v, "L") {
        Some(JsonValue::Int(n)) => {
            if i64::MIN as i128 <= *n && *n <= i64::MAX as i128 {
                *n as i64
            } else {
                return None;
            }
        },
        _ => {
            return None;
        },
    };
    let open: String = match get_field(v, "o") {
        Some(JsonValue::Str(s)) => s.clone(),
        _ => {
            return None;
        },
    };
    let close: String = match get_field(v, "c") {
        Some(JsonValue::Str(s)) => s.clone(),
        _ => {
            return None;
        },
    };
    let high: String = match get_field(v, "h") {
        Some(JsonValue::Str(s)) => s.clone(),
        _ => {
            return None;
        },
    };
    let low: String = match get_field(v, "l") {
        Some(JsonValue::Str(s)) => s.clone(),
        _ => {
            return None;
        },
    };
    let volume: String = match get_field(v, "v") {
        Some(JsonValue::Str(s)) => s.clone(),
        _ => {
            return None;
        },
    };
    let number_of_trades: i64 = match get_field(v, "n") {
        Some(JsonValue::Int(n)) => {
            if i64::MIN as i128 <= *n && *n <= i64::MAX as i128 {
                *n as i64
            } else {
                return None;
            }
        },
        _ => {
            return None;
        },
    };
    let is_final_bar: bool = match get_field(v, "x") {
        Some(JsonValue::Bool(b)) => *b,
        _ => {
            return None;
        },
    };
    let quote_asset_volume: String = match get_field(v, "q") {
        Some(JsonValue::Str(s)) => s.clone(),
        _ => {
            return None;
        },
    };
    let taker_buy_base_asset_volume: String = match get_field(v, "V") {
        Some(JsonValue::Str(s)) => s.clone(),
        _ => {
            return None;
        },
    };
    let taker_buy_quote_asset_volume: String = match get_field(v, "Q") {
        Some(JsonValue::Str(s)) => s.clone(),
        _ => {
            return None;
        },
    };
    Some(
        BinanceKline {
            open_time,
            close_time,
            symbol,
            interval,
            first_trade_id,
            last_trade_id,
            open,
            close,
            high,
            low,
            volume,
            number_of_trades,
            is_final_bar,
            quote_asset_volume,
            taker_buy_base_asset_volume,
            taker_buy_quote_asset_volume,
            ignore_me: String::new(),
        },
    )
}

/// Matches `v` against the known event shapes; today that is the kline event
/// alone.
pub fn match_event(v: &JsonValue) -> (r: Option<WebsocketEvent>)
    ensures
        match r {
            Some(ev) => spec_kline_event(*v) is Some && ev@ == WebsocketEventView::BinanceKline(
                spec_kline_event(*v)->0,
            ),
            None => spec_kline_event(*v) is None,
        },
{
    let event_type: String = match get_field(v, "e") {
        Some(JsonValue::Str(s)) => s.clone(),
        _ => {
            return None;
        },
    };
    let event_time: u64 = match get_field(v, "E") {
        Some(JsonValue::Int(n)) => {
            if 0 <= *n && *n <= u64::MAX as i128 {
                *n as u64
            } else {
                return None;
            }
        },
        _ => {
            return None;
        },
    };
    let symbol: String = match get_field(v, "s") {
        Some(JsonValue::Str(s)) => s.clone(),
        _ => {
            return None;
        },
    };
    let kline: BinanceKline = match get_field(v, "k") {
        Some(kv) => match match_kline(kv) {
            Some(k) => k,
            None => {
                return None;
            },
        },
        None => {
            return None;
        },
    };
    Some(
        WebsocketEvent::BinanceKline(
            BinanceKlineEvent { event_type, event_time, symbol, kline },
        ),
    )
}

/// Decodes one already-parsed JSON value: unwraps the combined-stream
/// envelope, then matches the known event shapes.
pub fn decode_value(v: &JsonValue) -> (r: Result<Option<WebsocketEvent>, WsError>)
    ensures
        decode_matches(r, spec_decode(*v)),
{
    let mut cur: &JsonValue = v;
    let mut fuel: u8 = 8;
    loop
        invariant
            fuel <= 8,
            spec_unwrap_data(*v, unwrap_fuel()) == spec_unwrap_data(*cur, fuel as nat),
        decreases fuel,
    {
        match get_field(cur, "data") {
            None => {
                return match match_event(cur) {
                    Some(ev) => Ok(Some(ev)),
                    None => Ok(None),
                };
            },
            Some(d) => {
                if fuel == 0 {
                    return Err(WsError::DecodeFailed("envelope nesting too deep".to_owned()));
                }
                fuel = fuel - 1;
                cur = d;
            },
        }
    }
}

/// Decodes one text frame: parses the JSON, unwraps the combined-stream
/// envelope, and matches the result against the known event shapes. A frame
/// that matches no known shape is skipped with `Ok(None)`, not an error.
pub fn decode_frame(msg: &str) -> (r: Result<Option<WebsocketEvent>, WsError>)
    ensures
        decode_matches(r, spec_decode_text(msg@)),
{
    match parse_json(msg) {
        Err(e) => Err(WsError::DecodeFailed(e)),
        Ok(value) => decode_value(&value),
    }
}

/// Decoding a well-formed kline event object that carries no envelope key
/// yields exactly the kline event whose fields are the object's values under
/// the wire key mapping.
pub proof fn lemma_kline_decode_fields(v: JsonValue)
    requires
        json_get(v, "data"@) is None,
        spec_kline_event(v) is Some,
    ensures
        spec_decode(v) == Ok::<Option<WebsocketEventView>, ()>(
            Some(WebsocketEventView::BinanceKline(spec_kline_event(v)->0)),
        ),
        spec_kline_event(v)->0.event_type == str_field(v, "e"@)->0,
        spec_kline_event(v)->0.event_time == u64_field(v, "E"@)->0,
        spec_kline_event(v)->0.symbol == str_field(v, "s"@)->0,
        spec_kline_event(v)->0.kline == spec_kline(json_get(v, "k"@)->0)->0,
        spec_kline_event(v)->0.kline.open_time == i64_field(json_get(v, "k"@)->0, "t"@)->0,
        spec_kline_event(v)->0.kline.close_time == i64_field(json_get(v, "k"@)->0, "T"@)->0,
        spec_kline_event(v)->0.kline.symbol == str_field(json_get(v, "k"@)->0, "s"@)->0,
        spec_kline_event(v)->0.kline.interval == str_field(json_get(v, "k"@)->0, "i"@)->0,
        spec_kline_event(v)->0.kline.first_trade_id == i64_field(json_get(v, "k"@)->0, "f"@)->0,
        spec_kline_event(v)->0.kline.last_trade_id == i64_field(json_get(v, "k"@)->0, "L"@)->0,
        spec_kline_event(v)->0.kline.open == str_field(json_get(v, "k"@)->0, "o"@)->0,
        spec_kline_event(v)->0.kline.close == str_field(json_get(v, "k"@)->0, "c"@)->0,
        spec_kline_event(v)->0.kline.high == str_field(json_get(v, "k"@)->0, "h"@)->0,
        spec_kline_event(v)->0.kline.low == str_field(json_get(v, "k"@)->0, "l"@)->0,
        spec_kline_event(v)->0.kline.volume == str_field(json_get(v, "k"@)->0, "v"@)->0,
        spec_kline_event(v)->0.kline.number_of_trades == i64_field(
            json_get(v, "k"@)->0,
            "n"@,
        )->0,
        spec_kline_event(v)->0.kline.is_final_bar == bool_field(json_get(v, "k"@)->0, "x"@)->0,
        spec_kline_event(v)->0.kline.quote_asset_volume == str_field(
            json_get(v, "k"@)->0,
            "q"@,
        )->0,
        spec_kline_event(v)->0.kline.taker_buy_base_asset_volume == str_field(
            json_get(v, "k"@)->0,
            "V"@,
        )->0,
        spec_kline_event(v)->0.kline.taker_buy_quote_asset_volume == str_field(
            json_get(v, "k"@)->0,
            "Q"@,
        )->0,
        spec_kline_event(v)->0.kline.ignore_me == Seq::<char>::empty(),
{
    assert(spec_unwrap_data(v, unwrap_fuel()) == Some(v));
}

/// Envelope idempotence: a payload without an envelope key of its own decodes
/// the same whether it arrives bare or wrapped as the `data` field of a
/// combined-stream envelope.
pub proof fn lemma_envelope_idempotent(wrapper: JsonValue, payload: JsonValue)
    requires
        json_get(wrapper, "data"@) == Some(payload),
        json_get(payload, "data"@) is None,
    ensures
        spec_decode(wrapper) == spec_decode(payload),
{
    assert(spec_unwrap_data(wrapper, unwrap_fuel()) == spec_unwrap_data(
        payload,
        (unwrap_fuel() - 1) as nat,
    ));
    assert(spec_unwrap_data(payload, (unwrap_fuel() - 1) as nat) == Some(payload));
    assert(spec_unwrap_data(payload, unwrap_fuel()) == Some(payload));
}

/// A value whose unwrapped payload matches no known event shape is skipped:
/// no event and no error.
pub proof fn lemma_unknown_payload_skipped(v: JsonValue, u: JsonValue)
    requires
        spec_unwrap_data(v, unwrap_fuel()) == Some(u),
        spec_kline_event(u) is None,
    ensures
        spec_decode(v) == Ok::<Option<WebsocketEventView>, ()>(None),
{
}

} // verus!
