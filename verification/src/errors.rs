use vstd::prelude::*;

verus! {

/// The error kinds that the streaming client and its callers can observe.
#[derive(Debug, Clone, PartialEq, Eq)]
pub enum WsError {
    /// The endpoint URL failed to parse.
    UrlInvalid,
    /// The TLS or WebSocket negotiation failed; carries the transport's reason.
    HandshakeFailed(String),
    /// A mid-stream read failed; carries the transport's reason.
    TransportFailed(String),
    /// The peer sent a close frame, possibly with a reason.
    RemoteClosed(Option<String>),
    /// The frame text could not be parsed as JSON, or the envelope nesting was
    /// deeper than the decoder allows.
    DecodeFailed(String),
    /// The user handler rejected an event; carries the handler's reason.
    HandlerFailed(String),
    /// An operation that needs an active socket found none.
    NotConnected,
    /// An integer venue code that maps to no known exchange.
    UnknownExchange(u8),
}

} // verus!
