use vstd::prelude::*;
use vstd::string::StringExecFns;

use crate::decode::{decode_frame, spec_decode_text};
use crate::errors::WsError;
use crate::model::{BinanceKlineEvent, BinanceKlineEventView};

verus! {

/// One decoded stream event. A tagged variant kept open for future event
/// kinds; candlestick updates are its only case today.
#[derive(Debug, Clone, PartialEq, Eq)]
pub enum WebsocketEvent {
    BinanceKline(BinanceKlineEvent),
}

/// The mathematical content of a `WebsocketEvent`.
pub enum WebsocketEventView {
    BinanceKline(BinanceKlineEventView),
}

impl View for WebsocketEvent {
    type V = WebsocketEventView;

    open spec fn view(&self) -> WebsocketEventView {
        match self {
            WebsocketEvent::BinanceKline(e) => WebsocketEventView::BinanceKline(e@),
        }
    }
}

/// The streaming endpoint: the built-in base URL, or a custom base.
#[derive(Debug, Clone, PartialEq, Eq)]
pub enum WebsocketAPI {
    Default,
    Custom(String),
}

/// The URL an endpoint builds for a subscription topic: the base, a slash,
/// then the topic.
pub open spec fn spec_params(api: WebsocketAPI, subscription: Seq<char>) -> Seq<char> {
    match api {
        WebsocketAPI::Default => "wss://fstream.binance.com/ws/"@ + subscription,
        WebsocketAPI::Custom(base) => base@ + "/"@ + subscription,
    }
}

impl WebsocketAPI {
    /// Builds the streaming URL for a subscription topic. The default
    /// endpoint yields `wss://fstream.binance.com/ws/` followed by the topic;
    /// a custom base yields the base, `/`, then the topic. The topic is not
    /// validated; an empty one merely leaves a trailing slash.
    pub fn params(self, subscription: &str) -> (r: String)
        ensures
            r@ == spec_params(self, subscription@),
    {
        match self {
            WebsocketAPI::Default => {
                let mut s: String = "wss://fstream.binance.com/ws/".to_owned();
                s.append(subscription);
                s
            },
            WebsocketAPI::Custom(base) => {
                let mut s: String = base;
                s.append("/");
                s.append(subscription);
                s
            },
        }
    }
}

/// One inbound WebSocket frame, as the client's logic sees it.
#[derive(Debug, Clone, PartialEq, Eq)]
pub enum Frame {
    Text(String),
    Binary(Vec<u8>),
    Ping(Vec<u8>),
    Pong(Vec<u8>),
    /// A raw protocol frame (a continuation) handed up by the transport.
    Fragment(Vec<u8>),
    /// A close frame, possibly with a reason.
    Close(Option<String>),
}

/// What one blocking read yields: a frame, or the transport's failure reason.
#[derive(Debug, Clone, PartialEq, Eq)]
pub enum ReadOutcome {
    Frame(Frame),
    Failed(String),
}

/// A source of inbound frames: the read side of one WebSocket connection.
/// `pending` is the source's script, the reads it has left to deliver in
/// order; a read past its end fails.
pub trait FrameSource {
    /// An implementation left unverified may keep the default, an arbitrary
    /// script.
    open spec fn pending(&self) -> Seq<ReadOutcome> {
        vstd::pervasive::arbitrary()
    }

    /// Blocking read of the next frame.
    fn read_frame(&mut self) -> (r: ReadOutcome)
        ensures
            old(self).pending().len() > 0 ==> r == old(self).pending()[0] && final(self).pending() == old(self).pending().skip(1),
            old(self).pending().len() == 0 ==> r is Failed && final(self).pending() == old(self).pending(),
    ;

    /// Sends a close frame, best effort; nothing is promised of the outcome.
    fn close(&mut self) -> (r: Result<(), String>);
}

/// A cooperative stop flag, read between frames. Its future answers are a
/// finite script followed by a resting value it then repeats.
pub trait StopFlag {
    /// An implementation left unverified may keep the default, an arbitrary
    /// script.
    open spec fn scripted(&self) -> Seq<bool> {
        vstd::pervasive::arbitrary()
    }

    /// An implementation left unverified may keep the default, an arbitrary
    /// answer.
    open spec fn resting(&self) -> bool {
        vstd::pervasive::arbitrary()
    }

    fn is_running(&mut self) -> (r: bool)
        ensures
            old(self).scripted().len() > 0 ==> r == old(self).scripted()[0] && final(self).scripted() == old(self).scripted().skip(1) && final(self).resting() == old(self).resting(),
            old(self).scripted().len() == 0 ==> r == old(self).resting() && final(self).scripted()
                == old(self).scripted() && final(self).resting() == old(self).resting(),
    ;
}

/// The user-supplied callable that consumes one decoded event. `handled` is
/// what it has accepted so far, oldest first; `accepts` says which events it
/// takes, fixed over the handler's life.
pub trait EventHandler {
    /// An implementation left unverified may keep the default, an arbitrary
    /// history.
    open spec fn handled(&self) -> Seq<WebsocketEventView> {
        vstd::pervasive::arbitrary()
    }

    /// An implementation left unverified may keep the default, an arbitrary
    /// acceptance.
    open spec fn accepts(&self, event: WebsocketEventView) -> bool {
        vstd::pervasive::arbitrary()
    }

    fn handle(&mut self, event: WebsocketEvent) -> (r: Result<(), String>)
        ensures
            r is Ok <==> old(self).accepts(event@),
            r is Ok ==> final(self).handled() == old(self).handled().push(event@),
            r is Err ==> final(self).handled() == old(self).handled(),
            forall|e: WebsocketEventView| #[trigger]
                final(self).accepts(e) == old(self).accepts(e),
    ;
}

/// Opens one WebSocket connection to a URL: the handshake side of the
/// transport. What it yields depends on the network, so nothing is promised
/// of the outcome.
pub trait Connector {
    type Source;

    fn open(&mut self, url: &str) -> Result<Self::Source, String>;
}

/// Whether `url::Url::parse` accepts a text.
pub uninterp spec fn url_ok(s: Seq<char>) -> bool;

/// Relies on `url::Url::parse`: whether a text parses as a URL depends on the
/// text alone.
#[verifier::external_body]
fn parse_url_ok(path: &str) -> (r: bool)
    ensures
        r == url_ok(path@),
{
    url::Url::parse(path).is_ok()
}

/// Why the event loop stopped, with payloads only where the protocol fixes
/// them.
pub enum LoopStop {
    /// The stop flag read false.
    Cooperative,
    /// A read failed: with its reason where the script fixes one, and with
    /// `None` where the source had nothing more to deliver.
    Transport(Option<String>),
    /// The peer sent a close frame with this reason.
    Remote(Option<String>),
    /// A text frame could not be decoded.
    Decode,
    /// The handler rejected an event.
    Handler,
}

/// What the event loop does on a given flag script and frame script, for a
/// handler with the given acceptance: why it stops, the events it delivers in
/// order, and how many frames it consumes.
pub open spec fn loop_model<H: EventHandler>(
    flags: Seq<bool>,
    resting: bool,
    handler: H,
    frames: Seq<ReadOutcome>,
) -> (LoopStop, Seq<WebsocketEventView>, int)
    decreases frames.len(),
{
    let running = if flags.len() > 0 {
        flags[0]
    } else {
        resting
    };
    let flags2 = if flags.len() > 0 {
        flags.skip(1)
    } else {
        flags
    };
    if !running {
        (LoopStop::Cooperative, Seq::<WebsocketEventView>::empty(), 0int)
    } else if frames.len() == 0 {
        (LoopStop::Transport(None), Seq::<WebsocketEventView>::empty(), 0int)
    } else {
        match frames[0] {
            ReadOutcome::Failed(reason) => (
                LoopStop::Transport(Some(reason)),
                Seq::<WebsocketEventView>::empty(),
                1int,
            ),
            ReadOutcome::Frame(Frame::Close(reason)) => (
                LoopStop::Remote(reason),
                Seq::<WebsocketEventView>::empty(),
                1int,
            ),
            ReadOutcome::Frame(Frame::Text(msg)) => match spec_decode_text(msg@) {
                Result::Err(()) => (LoopStop::Decode, Seq::<WebsocketEventView>::empty(), 1int),
                Result::Ok(None) => {
                    let rec = loop_model(flags2, resting, handler, frames.skip(1));
                    (rec.0, rec.1, rec.2 + 1)
                },
                Result::Ok(Some(ev)) => if handler.accepts(ev) {
                    let rec = loop_model(flags2, resting, handler, frames.skip(1));
                    (rec.0, seq![ev] + rec.1, rec.2 + 1)
                } else {
                    (LoopStop::Handler, Seq::<WebsocketEventView>::empty(), 1int)
                },
            },
            ReadOutcome::Frame(_) => {
                let rec = loop_model(flags2, resting, handler, frames.skip(1));
                (rec.0, rec.1, rec.2 + 1)
            },
        }
    }
}

/// The streaming client: owns at most one active frame source, and the
/// handler, set at construction, that consumes the decoded events.
pub struct WebSockets<S, H> {
    pub socket: Option<S>,
    pub handler: H,
}

impl<S: FrameSource, H: EventHandler> WebSockets<S, H> {
    /// Creates an inert client: the handler stored, no socket.
    pub fn new(handler: H) -> (r: WebSockets<S, H>)
        ensures
            r.socket is None,
            r.handler == handler,
    {
        WebSockets { socket: None, handler }
    }

    /// Parses the URL and opens the connection through the given transport,
    /// storing the socket on success. Fails with `UrlInvalid` exactly when
    /// the URL does not parse, and with `HandshakeFailed` when the transport
    /// refuses; either failure leaves the client as it was.
    pub fn connect<C: Connector<Source = S>>(
        &mut self,
        transport: &mut C,
        path: &str,
    ) -> (r: Result<(), WsError>)
        ensures
            !url_ok(path@) ==> r == Err::<(), WsError>(WsError::UrlInvalid) && *final(self)
                == *old(self) && *final(transport) == *old(transport),
            url_ok(path@) ==> match r {
                Ok(()) => final(self).socket is Some && final(self).handler == old(self).handler,
                Err(e) => e is HandshakeFailed && *final(self) == *old(self),
            },
    {
        if !parse_url_ok(path) {
            return Err(WsError::UrlInvalid);
        }
        match transport.open(path) {
            Ok(s) => {
                self.socket = Some(s);
                Ok(())
            },
            Err(e) => Err(WsError::HandshakeFailed(e)),
        }
    }

    /// Sends a close frame and releases the socket; fails with `NotConnected`
    /// exactly when the client is inert.
    pub fn disconnect(&mut self) -> (r: Result<(), WsError>)
        ensures
            old(self).socket is None ==> r == Err::<(), WsError>(WsError::NotConnected) && *final(self) == *old(self),
            old(self).socket is Some ==> final(self).socket is None && final(self).handler == old(self).handler && (r is Ok || (r is Err && r->Err_0 is TransportFailed)),
    {
        match self.socket.take() {
            None => Err(WsError::NotConnected),
            Some(mut s) => match s.close() {
                Ok(()) => Ok(()),
                Err(e) => Err(WsError::TransportFailed(e)),
            },
        }
    }

    /// Reads frames while the stop flag allows and a socket is present,
    /// dispatching each decoded event to the handler in arrival order. It
    /// stops cleanly when the flag clears (consuming no further frame), and
    /// with an error when the peer closes, the transport or decoder fails, or
    /// the handler rejects an event. With no socket it returns at once.
    pub fn event_loop<F: StopFlag>(&mut self, running: &mut F) -> (r: Result<(), WsError>)
        ensures
            old(self).socket is None ==> r is Ok && *final(self) == *old(self),
            old(self).socket is Some ==> ({
                let model = loop_model(
                    old(running).scripted(),
                    old(running).resting(),
                    old(self).handler,
                    old(self).socket->0.pending(),
                );
                &&& final(self).socket is Some
                &&& final(self).socket->0.pending() == old(self).socket->0.pending().skip(model.2)
                &&& final(self).handler.handled() == old(self).handler.handled() + model.1
                &&& (forall|e: WebsocketEventView| #[trigger]
                    final(self).handler.accepts(e) == old(self).handler.accepts(e))
                &&& match model.0 {
                    LoopStop::Cooperative => r is Ok,
                    LoopStop::Transport(reason) => r is Err && r->Err_0 is TransportFailed && (
                    reason is Some ==> r == Err::<(), WsError>(
                        WsError::TransportFailed(reason->0),
                    )),
                    LoopStop::Remote(reason) => r == Err::<(), WsError>(
                        WsError::RemoteClosed(reason),
                    ),
                    LoopStop::Decode => r is Err && r->Err_0 is DecodeFailed,
                    LoopStop::Handler => r is Err && r->Err_0 is HandlerFailed,
                }
            }),
    {
        let ghost frames0 = if old(self).socket is Some {
            old(self).socket->0.pending()
        } else {
            Seq::<ReadOutcome>::empty()
        };
        let ghost mut delivered: Seq<WebsocketEventView> = Seq::empty();
        let ghost mut consumed: int = 0;
        proof {
            assert(frames0.skip(0) =~= frames0);
            assert(old(self).handler.handled() + delivered =~= old(self).handler.handled());
        }
        loop
            invariant
                old(self).socket is None ==> *self == *old(self) && consumed == 0 && delivered
                    =~= Seq::<WebsocketEventView>::empty(),
                running.resting() == old(running).resting(),
                old(self).socket is Some ==> {
                    &&& self.socket is Some
                    &&& 0 <= consumed <= frames0.len()
                    &&& frames0 == old(self).socket->0.pending()
                    &&& self.socket->0.pending() == frames0.skip(consumed)
                    &&& self.handler.handled() == old(self).handler.handled() + delivered
                    &&& (forall|e: WebsocketEventView| #[trigger]
                        self.handler.accepts(e) == old(self).handler.accepts(e))
                    &&& ({
                        let total = loop_model(
                            old(running).scripted(),
                            old(running).resting(),
                            old(self).handler,
                            frames0,
                        );
                        let rest = loop_model(
                            running.scripted(),
                            running.resting(),
                            old(self).handler,
                            self.socket->0.pending(),
                        );
                        total.0 == rest.0 && total.1 == delivered + rest.1 && total.2 == consumed
                            + rest.2
                    })
                },
            decreases frames0.len() - consumed,
        {
            let ghost flags_pre = running.scripted();
            let ghost frames_pre = if self.socket is Some {
                self.socket->0.pending()
            } else {
                Seq::<ReadOutcome>::empty()
            };
            let run_now = running.is_running();
            proof {
                if flags_pre.len() > 0 {
                    assert(running.scripted() == flags_pre.skip(1));
                } else {
                    assert(running.scripted() == flags_pre);
                }
            }
            if !run_now {
                proof {
                    if old(self).socket is Some {
                        let rest = loop_model(
                            flags_pre,
                            running.resting(),
                            old(self).handler,
                            frames_pre,
                        );
                        assert(rest.0 is Cooperative && rest.1
                            =~= Seq::<WebsocketEventView>::empty() && rest.2 == 0);
                        assert(delivered + rest.1 =~= delivered);
                    }
                }
                return Ok(());
            }
            let outcome: ReadOutcome = match &mut self.socket {
                None => {
                    return Ok(());
                },
                Some(src) => src.read_frame(),
            };
            proof {
                assert(self.socket is Some);
                if frames_pre.len() == 0 {
                    assert(self.socket->0.pending() == frames_pre);
                } else {
                    assert(outcome == frames_pre[0]);
                    assert(self.socket->0.pending() == frames_pre.skip(1));
                    assert(frames0.skip(consumed).skip(1) =~= frames0.skip(consumed + 1));
                }
            }
            match outcome {
                ReadOutcome::Failed(e) => {
                    proof {
                        if frames_pre.len() > 0 {
                            consumed = consumed + 1;
                        }
                    }
                    return Err(WsError::TransportFailed(e));
                },
                ReadOutcome::Frame(Frame::Close(reason)) => {
                    proof {
                        consumed = consumed + 1;
                    }
                    return Err(WsError::RemoteClosed(reason));
                },
                ReadOutcome::Frame(Frame::Text(msg)) => {
                    let handled_result = self.handle_msg(msg.as_str());
                    proof {
                        consumed = consumed + 1;
                    }
                    match handled_result {
                        Ok(()) => {
                            proof {
                                match spec_decode_text(msg@) {
                                    Result::Ok(Some(ev)) => {
                                        let ghost d0 = delivered;
                                        delivered = delivered.push(ev);
                                        assert(d0 + seq![ev] =~= delivered);
                                        let rest = loop_model(
                                            running.scripted(),
                                            running.resting(),
                                            old(self).handler,
                                            self.socket->0.pending(),
                                        );
                                        assert(d0 + (seq![ev] + rest.1) =~= delivered + rest.1);
                                        assert((old(self).handler.handled() + d0).push(ev)
                                            =~= old(self).handler.handled() + delivered);
                                    },
                                    _ => {
                                    },
                                }
                            }
                        },
                        Err(e) => {
                            return Err(e);
                        },
                    }
                },
                ReadOutcome::Frame(Frame::Binary(_)) => {
                    proof {
                        consumed = consumed + 1;
                    }
                },
                ReadOutcome::Frame(Frame::Ping(_)) => {
                    proof {
                        consumed = consumed + 1;
                    }
                },
                ReadOutcome::Frame(Frame::Pong(_)) => {
                    proof {
                        consumed = consumed + 1;
                    }
                },
                ReadOutcome::Frame(Frame::Fragment(_)) => {
                    proof {
                        consumed = consumed + 1;
                    }
                },
            }
        }
    }

    /// Decodes one text frame and, where it yields an event, hands it to the
    /// handler. Fails with `DecodeFailed` where the decoder does, and with
    /// `HandlerFailed` where the handler rejects the event; an unknown frame
    /// shape is skipped silently.
    pub fn handle_msg(&mut self, msg: &str) -> (r: Result<(), WsError>)
        ensures
            final(self).socket == old(self).socket,
            forall|e: WebsocketEventView| #[trigger]
                final(self).handler.accepts(e) == old(self).handler.accepts(e),
            match spec_decode_text(msg@) {
                Result::Err(()) => r is Err && r->Err_0 is DecodeFailed && final(self).handler.handled() == old(self).handler.handled(),
                Result::Ok(None) => r is Ok && final(self).handler.handled() == old(self).handler.handled(),
                Result::Ok(Some(ev)) => {
                    &&& old(self).handler.accepts(ev) ==> r is Ok && final(self).handler.handled() == old(self).handler.handled().push(ev)
                    &&& !old(self).handler.accepts(ev) ==> r is Err && r->Err_0 is HandlerFailed
                        && final(self).handler.handled() == old(self).handler.handled()
                },
            },
    {
        match decode_frame(msg) {
            Err(e) => Err(e),
            Ok(None) => Ok(()),
            Ok(Some(event)) => match self.handler.handle(event) {
                Ok(()) => Ok(()),
                Err(reason) => Err(WsError::HandlerFailed(reason)),
            },
        }
    }
}

/// A loop started with its stop flag already cleared stops cleanly at once:
/// it delivers no event and consumes no frame.
pub proof fn lemma_cleared_flag_stops_loop<H: EventHandler>(
    flags: Seq<bool>,
    resting: bool,
    handler: H,
    frames: Seq<ReadOutcome>,
)
    requires
        flags.len() > 0 ==> flags[0] == false,
        flags.len() == 0 ==> resting == false,
    ensures
        loop_model(flags, resting, handler, frames) == (
            LoopStop::Cooperative,
            Seq::<WebsocketEventView>::empty(),
            0int,
        ),
{
}

/// Reverses a vector's elements; stated through the reverse of the result.
fn reversed<T>(input: Vec<T>) -> (r: Vec<T>)
    ensures
        r@.reverse() == input@,
{
    let mut rest = input;
    let mut out: Vec<T> = Vec::new();
    proof {
        assert(rest@ + out@.reverse() =~= rest@);
    }
    while rest.len() > 0
        invariant
            rest@ + out@.reverse() == input@,
        decreases rest.len(),
    {
        let ghost out_pre = out@;
        match rest.pop() {
            Some(x) => {
                out.push(x);
                proof {
                    assert(out@.reverse() =~= seq![x] + out_pre.reverse());
                    assert(rest@ + out@.reverse() =~= input@);
                }
            },
            None => {
            },
        }
    }
    proof {
        assert(out@.reverse() =~= input@);
    }
    out
}

/// A frame source whose reads are scripted in advance: it delivers the given
/// outcomes in order and fails once they run out. It lets the client run
/// without a network.
pub struct ScriptedFrames {
    script: Vec<ReadOutcome>,
}

impl ScriptedFrames {
    /// Builds a source that delivers the given reads in order.
    pub fn new(reads: Vec<ReadOutcome>) -> (r: ScriptedFrames)
        ensures
            r.pending() == reads@,
    {
        ScriptedFrames { script: reversed(reads) }
    }

    /// How many reads are still scripted.
    pub fn remaining(&self) -> (n: usize)
        ensures
            n == self.pending().len(),
    {
        self.script.len()
    }
}

impl FrameSource for ScriptedFrames {
    closed spec fn pending(&self) -> Seq<ReadOutcome> {
        self.script@.reverse()
    }

    fn read_frame(&mut self) -> (r: ReadOutcome) {
        match self.script.pop() {
            Some(x) => {
                proof {
                    assert(x == old(self).pending()[0]);
                    assert(self.script@.reverse() =~= old(self).pending().skip(1));
                }
                x
            },
            None => ReadOutcome::Failed("nothing scripted".to_owned()),
        }
    }

    fn close(&mut self) -> (r: Result<(), String>) {
        Ok(())
    }
}

/// A stop flag with one fixed answer.
pub struct ConstFlag {
    pub value: bool,
}

impl StopFlag for ConstFlag {
    open spec fn scripted(&self) -> Seq<bool> {
        Seq::empty()
    }

    open spec fn resting(&self) -> bool {
        self.value
    }

    fn is_running(&mut self) -> (r: bool) {
        self.value
    }
}

/// A stop flag that answers from a script, then rests on a fixed answer. It
/// stands in for a flag another thread clears between frames.
pub struct ScriptFlag {
    answers: Vec<bool>,
    pub rest: bool,
}

impl ScriptFlag {
    /// Builds a flag that gives the scripted answers in order, then the
    /// resting one.
    pub fn new(answers: Vec<bool>, rest: bool) -> (r: ScriptFlag)
        ensures
            r.scripted() == answers@,
            r.resting() == rest,
    {
        ScriptFlag { answers: reversed(answers), rest }
    }
}

impl StopFlag for ScriptFlag {
    closed spec fn scripted(&self) -> Seq<bool> {
        self.answers@.reverse()
    }

    closed spec fn resting(&self) -> bool {
        self.rest
    }

    fn is_running(&mut self) -> (r: bool) {
        match self.answers.pop() {
            Some(b) => {
                proof {
                    assert(b == old(self).scripted()[0]);
                    assert(self.answers@.reverse() =~= old(self).scripted().skip(1));
                }
                b
            },
            None => self.rest,
        }
    }
}

/// A handler that accepts every event and records it in arrival order.
pub struct RecordingHandler {
    pub events: Vec<WebsocketEvent>,
}

impl RecordingHandler {
    /// A recorder with nothing seen yet.
    pub fn new() -> (r: RecordingHandler)
        ensures
            r.handled() == Seq::<WebsocketEventView>::empty(),
            r.events@ == Seq::<WebsocketEvent>::empty(),
    {
        let r = RecordingHandler { events: Vec::new() };
        proof {
            assert(r.events@.map(|i: int, e: WebsocketEvent| e@) =~= Seq::<
                WebsocketEventView,
            >::empty());
        }
        r
    }
}

impl EventHandler for RecordingHandler {
    open spec fn handled(&self) -> Seq<WebsocketEventView> {
        self.events@.map(|i: int, e: WebsocketEvent| e@)
    }

    open spec fn accepts(&self, event: WebsocketEventView) -> bool {
        true
    }

    fn handle(&mut self, event: WebsocketEvent) -> (r: Result<(), String>) {
        let ghost pre = self.events@;
        self.events.push(event);
        proof {
            assert(self.events@.map(|i: int, e: WebsocketEvent| e@) =~= pre.map(
                |i: int, e: WebsocketEvent| e@,
            ).push(event@));
        }
        Ok(())
    }
}

/// A handler that rejects every event, with one fixed reason.
pub struct RejectingHandler {
}

impl EventHandler for RejectingHandler {
    open spec fn handled(&self) -> Seq<WebsocketEventView> {
        Seq::empty()
    }

    open spec fn accepts(&self, event: WebsocketEventView) -> bool {
        false
    }

    fn handle(&mut self, event: WebsocketEvent) -> (r: Result<(), String>) {
        Err("event refused".to_owned())
    }
}

/// A transport that hands out one prepared scripted source, then refuses
/// further connections.
pub struct ScriptedConnector {
    pub source: Option<ScriptedFrames>,
}

impl Connector for ScriptedConnector {
    type Source = ScriptedFrames;

    fn open(&mut self, url: &str) -> Result<ScriptedFrames, String> {
        match self.source.take() {
            Some(s) => Ok(s),
            None => Err("no scripted connection".to_owned()),
        }
    }
}

} // verus!
