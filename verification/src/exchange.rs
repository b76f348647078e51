use vstd::prelude::*;
use vstd::string::StringExecFns;

use crate::errors::WsError;
use crate::model::BinanceKlineEvent;
use crate::tools::{
    loop_model, ConstFlag, Connector, EventHandler, Frame, FrameSource, LoopStop, ReadOutcome,
    WebSockets, WebsocketAPI, WebsocketEventView, spec_params, url_ok,
};
use crate::decode::spec_decode_text;

verus! {

/// The capability set a venue adapter exposes; in this core it is a marker
/// alone, and every venue offers `init` with the same shape.
pub trait Exchange {

}

/// The line the venue's default handler shows for one kline event.
pub fn kline_summary(event: &BinanceKlineEvent) -> (r: String)
    ensures
        r@ == "Symbol: "@ + event.kline.symbol@ + ", high: "@ + event.kline.high@ + ", low: "@
            + event.kline.low@,
{
    let mut s: String = "Symbol: ".to_owned();
    s.append(event.kline.symbol.as_str());
    s.append(", high: ");
    s.append(event.kline.high.as_str());
    s.append(", low: ");
    s.append(event.kline.low.as_str());
    s
}

/// A flag whose every answer is `true` never stops the loop cooperatively.
pub proof fn lemma_true_flag_never_cooperative<H: EventHandler>(
    flags: Seq<bool>,
    handler: H,
    frames: Seq<ReadOutcome>,
)
    requires
        forall|i: int| 0 <= i < flags.len() ==> flags[i] == true,
    ensures
        !(loop_model(flags, true, handler, frames).0 is Cooperative),
    decreases frames.len(),
{
    let flags2 = if flags.len() > 0 {
        flags.skip(1)
    } else {
        flags
    };
    assert(forall|i: int| 0 <= i < flags2.len() ==> flags2[i] == true);
    if frames.len() > 0 {
        match frames[0] {
            ReadOutcome::Frame(Frame::Text(msg)) => {
                match spec_decode_text(msg@) {
                    Result::Ok(None) => {
                        lemma_true_flag_never_cooperative(flags2, handler, frames.skip(1));
                    },
                    Result::Ok(Some(ev)) => {
                        if handler.accepts(ev) {
                            lemma_true_flag_never_cooperative(flags2, handler, frames.skip(1));
                        }
                    },
                    Result::Err(()) => {
                    },
                }
            },
            ReadOutcome::Frame(Frame::Close(_)) => {
            },
            ReadOutcome::Failed(_) => {
            },
            ReadOutcome::Frame(_) => {
                lemma_true_flag_never_cooperative(flags2, handler, frames.skip(1));
            },
        }
    }
}

/// The URL the adapter subscribes to: the default endpoint's kline topic.
pub open spec fn spec_kline_url() -> Seq<char> {
    spec_params(WebsocketAPI::Default, "ethusdt@kline_1m"@)
}

/// How an adapter run's verdict realises a loop stop: the same error kind,
/// with the payload equal wherever the model fixes one.
pub open spec fn run_stops_as(r: Result<(), WsError>, stop: LoopStop) -> bool {
    match stop {
        LoopStop::Cooperative => false,
        LoopStop::Transport(reason) => r is Err && r->Err_0 is TransportFailed && (
        reason is Some ==> r == Err::<(), WsError>(WsError::TransportFailed(reason->0))),
        LoopStop::Remote(reason) => r == Err::<(), WsError>(WsError::RemoteClosed(reason)),
        LoopStop::Decode => r is Err && r->Err_0 is DecodeFailed,
        LoopStop::Handler => r is Err && r->Err_0 is HandlerFailed,
    }
}

/// That a run of the stream took place for handler `h0`: some delivery
/// script explains the handler's history afterwards and the run's verdict,
/// under the adapter's never-clearing flag.
pub open spec fn ran_stream<H: EventHandler>(
    h0: H,
    handled_after: Seq<WebsocketEventView>,
    r: Result<(), WsError>,
) -> bool {
    exists|frames: Seq<ReadOutcome>|
        #![trigger loop_model(Seq::<bool>::empty(), true, h0, frames)]
        ({
            let m = loop_model(Seq::<bool>::empty(), true, h0, frames);
            handled_after == h0.handled() + m.1 && run_stops_as(r, m.0)
        })
}

/// The Binance venue adapter: holds the transport and, until the first run,
/// the handler; the streaming client is only built when `init` runs.
pub struct BinanceExchange<C: Connector, H: EventHandler> {
    pub transport: C,
    pub handler: Option<H>,
    pub kline_socket: Option<WebSockets<C::Source, H>>,
}

impl<C: Connector, H: EventHandler> BinanceExchange<C, H> where C::Source: FrameSource {
    /// The handler the adapter's next run will feed: the one stored at
    /// construction, or, once a run has built the client, the client's own.
    pub open spec fn stored_handler(&self) -> Option<H> {
        match self.handler {
            Some(h) => Some(h),
            None => match self.kline_socket {
                Some(ws) => Some(ws.handler),
                None => None,
            },
        }
    }

    /// Builds the adapter around a transport and the handler that will
    /// consume its events; no streaming client is owned until `init` runs.
    pub fn new(transport: C, handler: H) -> (r: BinanceExchange<C, H>)
        ensures
            r.transport == transport,
            r.handler == Some(handler),
            r.kline_socket is None,
    {
        BinanceExchange { transport, handler: Some(handler), kline_socket: None }
    }

    /// Brings the kline stream up and blocks until it terminates: it connects
    /// to the default endpoint's kline topic, runs the loop against an
    /// adapter-owned flag that never clears, then releases the socket. The
    /// run always ends in an error saying why the stream stopped: `UrlInvalid`
    /// exactly where the subscription URL does not parse, `HandshakeFailed`
    /// where the transport refuses (the stream never ran), and otherwise the
    /// loop's own stop for the frames the connection delivered.
    #[verifier::rlimit(60)]
    pub fn init(&mut self) -> (r: Result<(), WsError>)
        ensures
            old(self).stored_handler() is None ==> r == Err::<(), WsError>(WsError::NotConnected)
                && *final(self) == *old(self),
            old(self).stored_handler() is Some ==> ({
                let h0 = old(self).stored_handler()->0;
                &&& final(self).handler is None
                &&& final(self).kline_socket is Some
                &&& (forall|e: WebsocketEventView| #[trigger]
                    final(self).kline_socket->0.handler.accepts(e) == h0.accepts(e))
                &&& r is Err
                &&& !(r->Err_0 is NotConnected)
                &&& !(r->Err_0 is UnknownExchange)
                &&& (r == Err::<(), WsError>(WsError::UrlInvalid) <==> !url_ok(spec_kline_url()))
                &&& (!url_ok(spec_kline_url()) ==> final(self).kline_socket->0.handler.handled()
                    == h0.handled())
                &&& (url_ok(spec_kline_url()) ==> ({
                    ||| (r->Err_0 is HandshakeFailed && final(self).kline_socket->0.handler.handled() == h0.handled())
                    ||| (final(self).kline_socket->0.socket is None && ran_stream(
                        h0,
                        final(self).kline_socket->0.handler.handled(),
                        r,
                    ))
                }))
                &&& ((old(self).kline_socket is None || old(self).kline_socket->0.socket is None)
                    ==> final(self).kline_socket->0.socket is None)
            }),
    {
        self.init_kline_socket()
    }

    /// Moves the stored handler into a fresh streaming client on the first
    /// run, connects it, runs the event loop, and disconnects on exit,
    /// keeping the loop's verdict over the disconnect's.
    #[verifier::rlimit(60)]
    fn init_kline_socket(&mut self) -> (r: Result<(), WsError>)
        ensures
            old(self).stored_handler() is None ==> r == Err::<(), WsError>(WsError::NotConnected)
                && *final(self) == *old(self),
            old(self).stored_handler() is Some ==> ({
                let h0 = old(self).stored_handler()->0;
                &&& final(self).handler is None
                &&& final(self).kline_socket is Some
                &&& (forall|e: WebsocketEventView| #[trigger]
                    final(self).kline_socket->0.handler.accepts(e) == h0.accepts(e))
                &&& r is Err
                &&& !(r->Err_0 is NotConnected)
                &&& !(r->Err_0 is UnknownExchange)
                &&& (r == Err::<(), WsError>(WsError::UrlInvalid) <==> !url_ok(spec_kline_url()))
                &&& (!url_ok(spec_kline_url()) ==> final(self).kline_socket->0.handler.handled()
                    == h0.handled())
                &&& (url_ok(spec_kline_url()) ==> ({
                    ||| (r->Err_0 is HandshakeFailed && final(self).kline_socket->0.handler.handled() == h0.handled())
                    ||| (final(self).kline_socket->0.socket is None && ran_stream(
                        h0,
                        final(self).kline_socket->0.handler.handled(),
                        r,
                    ))
                }))
                &&& ((old(self).kline_socket is None || old(self).kline_socket->0.socket is None)
                    ==> final(self).kline_socket->0.socket is None)
            }),
    {
        if let Some(h) = self.handler.take() {
            self.kline_socket = Some(WebSockets::new(h));
        }
        let url = WebsocketAPI::Default.params("ethusdt@kline_1m");
        match &mut self.kline_socket {
            None => Err(WsError::NotConnected),
            Some(ws) => {
                match ws.connect(&mut self.transport, url.as_str()) {
                    Err(e) => Err(e),
                    Ok(()) => {
                        let mut keep_running = ConstFlag { value: true };
                        let ghost pending = ws.socket->0.pending();
                        let ghost handler_at_loop = ws.handler;
                        let result = ws.event_loop(&mut keep_running);
                        proof {
                            lemma_true_flag_never_cooperative(
                                Seq::<bool>::empty(),
                                handler_at_loop,
                                pending,
                            );
                        }
                        let _ = ws.disconnect();
                        proof {
                            assert(handler_at_loop == old(self).stored_handler()->0);
                            let m = loop_model(
                                Seq::<bool>::empty(),
                                true,
                                handler_at_loop,
                                pending,
                            );
                            assert(run_stops_as(result, m.0));
                            assert(ws.handler.handled() == handler_at_loop.handled() + m.1);
                            assert(ran_stream(handler_at_loop, ws.handler.handled(), result));
                        }
                        result
                    },
                }
            },
        }
    }
}

impl<C: Connector, H: EventHandler> Exchange for BinanceExchange<C, H> where
    C::Source: FrameSource,
 {

}

} // verus!
