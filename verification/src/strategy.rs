use vstd::prelude::*;

use crate::errors::WsError;
use crate::exchange::BinanceExchange;
use crate::model::ExchangeType;
use crate::tools::{Connector, EventHandler, FrameSource};

verus! {

/// The strategy facade: picks a venue, brings its adapter up, and retains
/// the adapter that came up.
pub struct Strategy<C: Connector, H: EventHandler> {
    pub exchange: Option<BinanceExchange<C, H>>,
}

impl<C: Connector, H: EventHandler> Strategy<C, H> where C::Source: FrameSource {
    /// Creates an empty strategy holding no exchange.
    pub fn new() -> (r: Strategy<C, H>)
        ensures
            r.exchange is None,
    {
        Strategy { exchange: None }
    }

    /// Dispatches on the venue, builds its adapter around the given transport
    /// and handler, and runs it until its stream terminates. The adapter is
    /// retained only where its run succeeded; on failure the error is
    /// surfaced unchanged and the strategy keeps what it held before. A run
    /// always ends in the error that stopped the stream (the adapter's flag
    /// never clears), so nothing is ever retained, and the error is never
    /// `NotConnected` or `UnknownExchange`.
    pub fn init(&mut self, exchange_type: ExchangeType, transport: C, handler: H) -> (r: Result<
        (),
        WsError,
    >)
        ensures
            r is Ok ==> final(self).exchange is Some,
            r is Err ==> final(self).exchange == old(self).exchange,
            r is Err,
            !(r->Err_0 is NotConnected),
            !(r->Err_0 is UnknownExchange),
    {
        match exchange_type {
            ExchangeType::Binance => {
                let mut exchange = BinanceExchange::new(transport, handler);
                match exchange.init() {
                    Ok(()) => {
                        self.exchange = Some(exchange);
                        Ok(())
                    },
                    Err(e) => Err(e),
                }
            },
        }
    }
}

} // verus!
