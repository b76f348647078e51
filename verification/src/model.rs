use vstd::prelude::*;

use crate::errors::WsError;

verus! {

/// The closed enumeration of supported venues.
#[derive(Debug, PartialEq, Eq, Clone, Copy)]
pub enum ExchangeType {
    Binance,
}

impl ExchangeType {
    /// Maps an integer venue code to its venue; exactly one code names each
    /// variant, and every other code is rejected.
    pub fn from_code(code: u8) -> (r: Result<ExchangeType, WsError>)
        ensures
            code == 0 ==> r == Ok::<ExchangeType, WsError>(ExchangeType::Binance),
            code != 0 ==> r == Err::<ExchangeType, WsError>(WsError::UnknownExchange(code)),
    {
        if code == 0 {
            Ok(ExchangeType::Binance)
        } else {
            Err(WsError::UnknownExchange(code))
        }
    }
}

/// One candlestick for a symbol over an interval. The price and size fields
/// are decimal numbers transported as strings, kept as strings so that no
/// precision is lost on decode.
#[derive(Debug, Clone, PartialEq, Eq)]
pub struct BinanceKline {
    pub open_time: i64,
    pub close_time: i64,
    pub symbol: String,
    pub interval: String,
    pub first_trade_id: i64,
    pub last_trade_id: i64,
    pub open: String,
    pub close: String,
    pub high: String,
    pub low: String,
    pub volume: String,
    pub number_of_trades: i64,
    pub is_final_bar: bool,
    pub quote_asset_volume: String,
    pub taker_buy_base_asset_volume: String,
    pub taker_buy_quote_asset_volume: String,
    /// Present on the wire but discarded on decode; always left empty.
    pub ignore_me: String,
}

/// The envelope that carries one candlestick update.
#[derive(Debug, Clone, PartialEq, Eq)]
pub struct BinanceKlineEvent {
    pub event_type: String,
    pub event_time: u64,
    pub symbol: String,
    pub kline: BinanceKline,
}

/// The mathematical content of a `BinanceKline`: every string as its
/// character sequence.
pub struct BinanceKlineView {
    pub open_time: i64,
    pub close_time: i64,
    pub symbol: Seq<char>,
    pub interval: Seq<char>,
    pub first_trade_id: i64,
    pub last_trade_id: i64,
    pub open: Seq<char>,
    pub close: Seq<char>,
    pub high: Seq<char>,
    pub low: Seq<char>,
    pub volume: Seq<char>,
    pub number_of_trades: i64,
    pub is_final_bar: bool,
    pub quote_asset_volume: Seq<char>,
    pub taker_buy_base_asset_volume: Seq<char>,
    pub taker_buy_quote_asset_volume: Seq<char>,
    pub ignore_me: Seq<char>,
}

impl View for BinanceKline {
    type V = BinanceKlineView;

    open spec fn view(&self) -> BinanceKlineView {
        BinanceKlineView {
            open_time: self.open_time,
            close_time: self.close_time,
            symbol: self.symbol@,
            interval: self.interval@,
            first_trade_id: self.first_trade_id,
            last_trade_id: self.last_trade_id,
            open: self.open@,
            close: self.close@,
            high: self.high@,
            low: self.low@,
            volume: self.volume@,
            number_of_trades: self.number_of_trades,
            is_final_bar: self.is_final_bar,
            quote_asset_volume: self.quote_asset_volume@,
            taker_buy_base_asset_volume: self.taker_buy_base_asset_volume@,
            taker_buy_quote_asset_volume: self.taker_buy_quote_asset_volume@,
            ignore_me: self.ignore_me@,
        }
    }
}

/// The mathematical content of a `BinanceKlineEvent`.
pub struct BinanceKlineEventView {
    pub event_type: Seq<char>,
    pub event_time: u64,
    pub symbol: Seq<char>,
    pub kline: BinanceKlineView,
}

impl View for BinanceKlineEvent {
    type V = BinanceKlineEventView;

    open spec fn view(&self) -> BinanceKlineEventView {
        BinanceKlineEventView {
            event_type: self.event_type@,
            event_time: self.event_time,
            symbol: self.symbol@,
            kline: self.kline@,
        }
    }
}

} // verus!
