use kline_stream::tools::WebsocketAPI;

#[test]
fn default_endpoint_builds_kline_url() {
    let url = WebsocketAPI::Default.params("ethusdt@kline_1m");
    assert_eq!(url, "wss://fstream.binance.com/ws/ethusdt@kline_1m");
}

#[test]
fn custom_endpoint_builds_url() {
    let url = WebsocketAPI::Custom("wss://x.test/stream".to_string()).params("btcusdt@kline_5m");
    assert_eq!(url, "wss://x.test/stream/btcusdt@kline_5m");
}

#[test]
fn empty_topic_leaves_trailing_slash() {
    let url = WebsocketAPI::Default.params("");
    assert_eq!(url, "wss://fstream.binance.com/ws/");
    let url = WebsocketAPI::Custom("wss://x.test".to_string()).params("");
    assert_eq!(url, "wss://x.test/");
}
