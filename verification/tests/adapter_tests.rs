use kline_stream::errors::WsError;
use kline_stream::exchange::{kline_summary, BinanceExchange};
use kline_stream::model::{BinanceKline, BinanceKlineEvent, ExchangeType};
use kline_stream::strategy::Strategy;
use kline_stream::tools::{
    Frame, ReadOutcome, RecordingHandler, ScriptedConnector, ScriptedFrames, WebsocketEvent,
};

fn kline_json(symbol: &str) -> String {
    format!(
        r#"{{"e":"kline","E":1,"s":"{sym}","k":{{"t":1,"T":2,"s":"{sym}","i":"1m","f":1,"L":2,"o":"1","c":"1","h":"3","l":"2","v":"1","n":1,"x":true,"q":"1","V":"1","Q":"1","B":"0"}}}}"#,
        sym = symbol
    )
}

fn sample_event() -> BinanceKlineEvent {
    BinanceKlineEvent {
        event_type: "kline".to_string(),
        event_time: 1,
        symbol: "ETHUSDT".to_string(),
        kline: BinanceKline {
            open_time: 1,
            close_time: 2,
            symbol: "ETHUSDT".to_string(),
            interval: "1m".to_string(),
            first_trade_id: 1,
            last_trade_id: 2,
            open: "2000.0".to_string(),
            close: "2001.0".to_string(),
            high: "2002.5".to_string(),
            low: "1999.9".to_string(),
            volume: "1".to_string(),
            number_of_trades: 1,
            is_final_bar: false,
            quote_asset_volume: "1".to_string(),
            taker_buy_base_asset_volume: "1".to_string(),
            taker_buy_quote_asset_volume: "1".to_string(),
            ignore_me: String::new(),
        },
    }
}

#[test]
fn exchange_code_zero_is_binance() {
    assert_eq!(ExchangeType::from_code(0), Ok(ExchangeType::Binance));
}

#[test]
fn unknown_exchange_codes_are_rejected() {
    assert_eq!(ExchangeType::from_code(1), Err(WsError::UnknownExchange(1)));
    assert_eq!(ExchangeType::from_code(255), Err(WsError::UnknownExchange(255)));
}

#[test]
fn kline_summary_formats_symbol_and_range() {
    let line = kline_summary(&sample_event());
    assert_eq!(line, "Symbol: ETHUSDT, high: 2002.5, low: 1999.9");
}

#[test]
fn fresh_adapter_owns_no_client() {
    let transport = ScriptedConnector { source: None };
    let adapter = BinanceExchange::new(transport, RecordingHandler::new());
    assert!(adapter.kline_socket.is_none());
}

#[test]
fn adapter_runs_stream_to_remote_close() {
    let transport = ScriptedConnector {
        source: Some(ScriptedFrames::new(vec![
            ReadOutcome::Frame(Frame::Text(kline_json("ETHUSDT"))),
            ReadOutcome::Frame(Frame::Close(None)),
        ])),
    };
    let mut adapter = BinanceExchange::new(transport, RecordingHandler::new());
    let r = adapter.init();
    assert_eq!(r, Err(WsError::RemoteClosed(None)));
    let client = adapter.kline_socket.as_ref().unwrap();
    assert!(client.socket.is_none());
    assert_eq!(client.handler.events.len(), 1);
    let WebsocketEvent::BinanceKline(ev) = &client.handler.events[0];
    assert_eq!(ev.symbol, "ETHUSDT");
}

#[test]
fn adapter_surfaces_handshake_failure() {
    let transport = ScriptedConnector { source: None };
    let mut adapter = BinanceExchange::new(transport, RecordingHandler::new());
    let r = adapter.init();
    assert!(matches!(r, Err(WsError::HandshakeFailed(_))));
}

#[test]
fn strategy_surfaces_adapter_error_and_retains_nothing() {
    let transport = ScriptedConnector {
        source: Some(ScriptedFrames::new(vec![ReadOutcome::Frame(Frame::Close(None))])),
    };
    let mut strategy = Strategy::new();
    let r = strategy.init(ExchangeType::Binance, transport, RecordingHandler::new());
    assert_eq!(r, Err(WsError::RemoteClosed(None)));
    assert!(strategy.exchange.is_none());
}

#[test]
fn strategy_starts_empty() {
    let strategy: Strategy<ScriptedConnector, RecordingHandler> = Strategy::new();
    assert!(strategy.exchange.is_none());
}
