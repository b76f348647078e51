use kline_stream::errors::WsError;
use kline_stream::tools::{
    ConstFlag, Frame, ReadOutcome, RecordingHandler, RejectingHandler, ScriptFlag,
    ScriptedConnector, ScriptedFrames, WebSockets, WebsocketEvent,
};

fn kline_json(symbol: &str, high: &str) -> String {
    format!(
        r#"{{"e":"kline","E":1,"s":"{sym}","k":{{"t":1,"T":2,"s":"{sym}","i":"1m","f":1,"L":2,"o":"1","c":"1","h":"{high}","l":"1","v":"1","n":1,"x":true,"q":"1","V":"1","Q":"1","B":"0"}}}}"#,
        sym = symbol,
        high = high
    )
}

fn text_frame(msg: String) -> ReadOutcome {
    ReadOutcome::Frame(Frame::Text(msg))
}

fn scripted(reads: Vec<ReadOutcome>) -> ScriptedConnector {
    ScriptedConnector { source: Some(ScriptedFrames::new(reads)) }
}

#[test]
fn disconnect_before_connect_is_not_connected() {
    let mut ws: WebSockets<ScriptedFrames, RecordingHandler> =
        WebSockets::new(RecordingHandler::new());
    assert_eq!(ws.disconnect(), Err(WsError::NotConnected));
}

#[test]
fn invalid_url_is_rejected() {
    let mut ws: WebSockets<ScriptedFrames, RecordingHandler> =
        WebSockets::new(RecordingHandler::new());
    let mut transport = scripted(vec![]);
    assert_eq!(ws.connect(&mut transport, "not a url"), Err(WsError::UrlInvalid));
    assert!(ws.socket.is_none());
    assert!(transport.source.is_some());
}

#[test]
fn refused_handshake_is_reported() {
    let mut ws: WebSockets<ScriptedFrames, RecordingHandler> =
        WebSockets::new(RecordingHandler::new());
    let mut transport = ScriptedConnector { source: None };
    let r = ws.connect(&mut transport, "wss://example.test/ws");
    assert!(matches!(r, Err(WsError::HandshakeFailed(_))));
    assert!(ws.socket.is_none());
}

#[test]
fn cleared_flag_stops_loop_without_reading() {
    let mut ws: WebSockets<ScriptedFrames, RecordingHandler> =
        WebSockets::new(RecordingHandler::new());
    let mut transport = scripted(vec![
        text_frame(kline_json("ETHUSDT", "9")),
        ReadOutcome::Frame(Frame::Close(None)),
    ]);
    ws.connect(&mut transport, "wss://example.test/ws").unwrap();
    let mut flag = ConstFlag { value: false };
    assert_eq!(ws.event_loop(&mut flag), Ok(()));
    assert_eq!(ws.socket.as_ref().unwrap().remaining(), 2);
    assert!(ws.handler.events.is_empty());
}

#[test]
fn scripted_frames_drive_handler_in_order() {
    let mut ws: WebSockets<ScriptedFrames, RecordingHandler> =
        WebSockets::new(RecordingHandler::new());
    let mut transport = scripted(vec![
        text_frame(kline_json("ETHUSDT", "2002.5")),
        ReadOutcome::Frame(Frame::Ping(vec![1, 2])),
        text_frame(kline_json("BTCUSDT", "30000.0")),
        ReadOutcome::Frame(Frame::Close(None)),
    ]);
    ws.connect(&mut transport, "wss://example.test/ws").unwrap();
    let mut flag = ConstFlag { value: true };
    let r = ws.event_loop(&mut flag);
    assert_eq!(r, Err(WsError::RemoteClosed(None)));
    assert_eq!(ws.socket.as_ref().unwrap().remaining(), 0);
    let events = &ws.handler.events;
    assert_eq!(events.len(), 2);
    let WebsocketEvent::BinanceKline(first) = &events[0];
    let WebsocketEvent::BinanceKline(second) = &events[1];
    assert_eq!(first.symbol, "ETHUSDT");
    assert_eq!(first.kline.high, "2002.5");
    assert_eq!(second.symbol, "BTCUSDT");
    assert_eq!(second.kline.high, "30000.0");
}

#[test]
fn close_reason_is_carried() {
    let mut ws: WebSockets<ScriptedFrames, RecordingHandler> =
        WebSockets::new(RecordingHandler::new());
    let mut transport = scripted(vec![ReadOutcome::Frame(Frame::Close(Some(
        "going away".to_string(),
    )))]);
    ws.connect(&mut transport, "wss://example.test/ws").unwrap();
    let mut flag = ConstFlag { value: true };
    assert_eq!(
        ws.event_loop(&mut flag),
        Err(WsError::RemoteClosed(Some("going away".to_string())))
    );
}

#[test]
fn failing_handler_aborts_before_next_frame() {
    let mut ws: WebSockets<ScriptedFrames, RejectingHandler> =
        WebSockets::new(RejectingHandler {});
    let mut transport = scripted(vec![
        text_frame(kline_json("ETHUSDT", "9")),
        text_frame(kline_json("BTCUSDT", "9")),
    ]);
    ws.connect(&mut transport, "wss://example.test/ws").unwrap();
    let mut flag = ConstFlag { value: true };
    let r = ws.event_loop(&mut flag);
    assert!(matches!(r, Err(WsError::HandlerFailed(_))));
    assert_eq!(ws.socket.as_ref().unwrap().remaining(), 1);
}

#[test]
fn flag_cleared_between_frames_stops_loop() {
    let mut ws: WebSockets<ScriptedFrames, RecordingHandler> =
        WebSockets::new(RecordingHandler::new());
    let mut transport = scripted(vec![
        text_frame(kline_json("ETHUSDT", "9")),
        text_frame(kline_json("BTCUSDT", "9")),
        text_frame(kline_json("SOLUSDT", "9")),
    ]);
    ws.connect(&mut transport, "wss://example.test/ws").unwrap();
    let mut flag = ScriptFlag::new(vec![true, false], false);
    assert_eq!(ws.event_loop(&mut flag), Ok(()));
    assert_eq!(ws.handler.events.len(), 1);
    assert_eq!(ws.socket.as_ref().unwrap().remaining(), 2);
}

#[test]
fn transport_failure_ends_loop() {
    let mut ws: WebSockets<ScriptedFrames, RecordingHandler> =
        WebSockets::new(RecordingHandler::new());
    let mut transport = scripted(vec![ReadOutcome::Failed("reset by peer".to_string())]);
    ws.connect(&mut transport, "wss://example.test/ws").unwrap();
    let mut flag = ConstFlag { value: true };
    assert_eq!(
        ws.event_loop(&mut flag),
        Err(WsError::TransportFailed("reset by peer".to_string()))
    );
}

#[test]
fn undecodable_text_ends_loop() {
    let mut ws: WebSockets<ScriptedFrames, RecordingHandler> =
        WebSockets::new(RecordingHandler::new());
    let mut transport = scripted(vec![text_frame("{broken".to_string())]);
    ws.connect(&mut transport, "wss://example.test/ws").unwrap();
    let mut flag = ConstFlag { value: true };
    assert!(matches!(ws.event_loop(&mut flag), Err(WsError::DecodeFailed(_))));
}

#[test]
fn binary_ping_pong_frames_are_ignored() {
    let mut ws: WebSockets<ScriptedFrames, RecordingHandler> =
        WebSockets::new(RecordingHandler::new());
    let mut transport = scripted(vec![
        ReadOutcome::Frame(Frame::Binary(vec![1])),
        ReadOutcome::Frame(Frame::Ping(vec![2])),
        ReadOutcome::Frame(Frame::Pong(vec![3])),
        ReadOutcome::Frame(Frame::Fragment(vec![4])),
        ReadOutcome::Frame(Frame::Close(None)),
    ]);
    ws.connect(&mut transport, "wss://example.test/ws").unwrap();
    let mut flag = ConstFlag { value: true };
    assert_eq!(ws.event_loop(&mut flag), Err(WsError::RemoteClosed(None)));
    assert!(ws.handler.events.is_empty());
}

#[test]
fn disconnect_releases_socket() {
    let mut ws: WebSockets<ScriptedFrames, RecordingHandler> =
        WebSockets::new(RecordingHandler::new());
    let mut transport = scripted(vec![]);
    ws.connect(&mut transport, "wss://example.test/ws").unwrap();
    assert!(ws.socket.is_some());
    assert_eq!(ws.disconnect(), Ok(()));
    assert!(ws.socket.is_none());
    assert_eq!(ws.disconnect(), Err(WsError::NotConnected));
}

#[test]
fn handle_msg_feeds_handler_once() {
    let mut ws: WebSockets<ScriptedFrames, RecordingHandler> =
        WebSockets::new(RecordingHandler::new());
    assert_eq!(ws.handle_msg(&kline_json("ETHUSDT", "7")), Ok(()));
    assert_eq!(ws.handler.events.len(), 1);
    assert_eq!(ws.handle_msg(r#"{"e":"trade"}"#), Ok(()));
    assert_eq!(ws.handler.events.len(), 1);
    assert!(matches!(ws.handle_msg("nonsense"), Err(WsError::DecodeFailed(_))));
}
