//! Client side: one value binds a connection and a mapper, and drives the
//! four interaction patterns.
//!
//! Opening a substream and moving envelopes are left to the caller: each call
//! is a state machine that names the next transport action to perform and is
//! told, by an event, how it went.
use crate::mapper::{downcast, project, Envelope, Mapper};
use crate::pattern::{MsgDecl, Pattern};
use vstd::prelude::*;

verus! {

/// Error of an rpc call.
#[derive(Debug, Clone, PartialEq, Eq)]
pub enum RpcClientError<OE, SE, RE> {
    /// Unable to open a substream at all
    Open(OE),
    /// Unable to send the request to the server
    Send(SE),
    /// Server closed the stream before sending a response
    EarlyClose,
    /// Unable to receive the response from the server
    RecvError(RE),
    /// Unexpected response from the server
    DowncastError,
}

/// Error when starting a bidi call.
#[derive(Debug, Clone, PartialEq, Eq)]
pub enum BidiError<OE, SE> {
    /// Unable to open a substream at all
    Open(OE),
    /// Unable to send the request to the server
    Send(SE),
}

/// Error on one response of a bidi call.
#[derive(Debug, Clone, PartialEq, Eq)]
pub enum BidiItemError<RE> {
    /// Unable to receive the response from the server
    RecvError(RE),
    /// Unexpected response from the server
    DowncastError,
}

/// Error when starting a client streaming call.
#[derive(Debug, Clone, PartialEq, Eq)]
pub enum ClientStreamingError<OE, SE> {
    /// Unable to open a substream at all
    Open(OE),
    /// Unable to send the request to the server
    Send(SE),
}

/// Error on the response of a client streaming call.
#[derive(Debug, Clone, PartialEq, Eq)]
pub enum ClientStreamingItemError<RE> {
    /// Connection was closed before receiving the first message
    EarlyClose,
    /// Unable to receive the response from the server
    RecvError(RE),
    /// Unexpected response from the server
    DowncastError,
}

/// Error when starting a server streaming call.
#[derive(Debug, Clone, PartialEq, Eq)]
pub enum StreamingResponseError<OE, SE> {
    /// Unable to open a substream at all
    Open(OE),
    /// Unable to send the request to the server
    Send(SE),
}

/// Error on one response of a server streaming call.
#[derive(Debug, Clone, PartialEq, Eq)]
pub enum StreamingResponseItemError<RE> {
    /// Unable to receive the response from the server
    RecvError(RE),
    /// Unexpected response from the server
    DowncastError,
}

/// The head envelope of a call: the message at `route`, seen from the outer
/// service.
pub open spec fn head_of<Q>(links: Seq<u32>, route: Seq<u32>, msg: Q, head: Envelope<Q>) -> bool {
    head.route@ == links + route && head.body == msg
}

/// What an rpc call returns once its substream yielded `received`.
pub open spec fn rpc_outcome<R, OE, SE, RE>(
    links: Seq<u32>,
    route: Seq<u32>,
    received: Option<Result<Envelope<R>, RE>>,
) -> Result<R, RpcClientError<OE, SE, RE>> {
    match received {
        None => Err(RpcClientError::EarlyClose),
        Some(Err(e)) => Err(RpcClientError::RecvError(e)),
        Some(Ok(env)) => match downcast(links, route, env) {
            Some(body) => Ok(body),
            None => Err(RpcClientError::DowncastError),
        },
    }
}

/// One item of a server streaming call, from one item of its receive half.
pub open spec fn streaming_item<R, RE>(
    links: Seq<u32>,
    route: Seq<u32>,
    item: Result<Envelope<R>, RE>,
) -> Result<R, StreamingResponseItemError<RE>> {
    match item {
        Err(e) => Err(StreamingResponseItemError::RecvError(e)),
        Ok(env) => match downcast(links, route, env) {
            Some(body) => Ok(body),
            None => Err(StreamingResponseItemError::DowncastError),
        },
    }
}

/// One item of a bidi call, from one item of its receive half.
pub open spec fn bidi_item_of<R, RE>(
    links: Seq<u32>,
    route: Seq<u32>,
    item: Result<Envelope<R>, RE>,
) -> Result<R, BidiItemError<RE>> {
    match item {
        Err(e) => Err(BidiItemError::RecvError(e)),
        Ok(env) => match downcast(links, route, env) {
            Some(body) => Ok(body),
            None => Err(BidiItemError::DowncastError),
        },
    }
}

/// The response of a client streaming call, from what its receive half
/// yielded first.
pub open spec fn client_streaming_outcome<R, RE>(
    links: Seq<u32>,
    route: Seq<u32>,
    received: Option<Result<Envelope<R>, RE>>,
) -> Result<R, ClientStreamingItemError<RE>> {
    match received {
        None => Err(ClientStreamingItemError::EarlyClose),
        Some(Err(e)) => Err(ClientStreamingItemError::RecvError(e)),
        Some(Ok(env)) => match downcast(links, route, env) {
            Some(body) => Ok(body),
            None => Err(ClientStreamingItemError::DowncastError),
        },
    }
}

/// A client for one service, reached through the connection `C`.
///
/// The client is cheap to clone: the mapper is shared.
pub struct RpcClient<C> {
    source: C,
    map: Mapper,
}

impl<C: Clone> Clone for RpcClient<C> {
    fn clone(&self) -> (r: Self)
        ensures
            r@ == self@,
    {
        RpcClient { source: self.source.clone(), map: self.map.share() }
    }
}

impl<C> AsRef<C> for RpcClient<C> {
    fn as_ref(&self) -> (r: &C)
        ensures
            *r == self.spec_source(),
    {
        &self.source
    }
}

impl<C> View for RpcClient<C> {
    type V = Seq<u32>;

    /// The route from the outer service to the service this client speaks.
    closed spec fn view(&self) -> Seq<u32> {
        self.map@
    }
}

impl<C> RpcClient<C> {
    /// The connection of this client, as it was given.
    pub closed spec fn spec_source(&self) -> C {
        self.source
    }

    /// A client for the service that the connection speaks directly.
    pub fn new(source: C) -> (r: Self)
        ensures
            r@ == Seq::<u32>::empty(),
            r.spec_source() == source,
    {
        RpcClient { source, map: Mapper::new() }
    }

    /// The underlying connection.
    pub fn into_inner(self) -> (r: C)
        ensures
            r == self.spec_source(),
    {
        self.source
    }

    /// The underlying connection, borrowed.
    pub fn connection(&self) -> (r: &C)
        ensures
            *r == self.spec_source(),
    {
        &self.source
    }

    /// The mapper from this client's service to the connection's.
    pub fn mapper(&self) -> (r: &Mapper)
        ensures
            r@ == self@,
    {
        &self.map
    }

    /// A client for the inner service that sits under the variant `link` of
    /// this client's service. Can be chained without end.
    pub fn map(self, link: u32) -> (r: Self)
        ensures
            r@ == self@.push(link),
            r.spec_source() == self.spec_source(),
    {
        let map = self.map.chain(link);
        RpcClient { source: self.source, map }
    }

    /// Starts an rpc call of the message `decl` with content `msg`. The first
    /// action is to open a substream.
    pub fn rpc<Q>(&self, decl: &MsgDecl, msg: Q) -> (r: RpcCall<Q>)
        requires
            decl.pattern == Pattern::Rpc,
        ensures
            r.wf(),
            r.stage() == CallStage::Opening,
            head_of(self@, decl.request@, msg, r.head()),
            r.links() == self@,
            r.response_route() == decl.response@,
    {
        let head = self.map.req_into_outer(Envelope { route: crate::mapper::concat(&decl.request, &Vec::new()), body: msg });
        proof {
            assert(decl.request@ + Seq::<u32>::empty() == decl.request@);
        }
        RpcCall {
            map: self.map.share(),
            response: crate::mapper::concat(&decl.response, &Vec::new()),
            head: Some(head),
            stage: CallStage::Opening,
        }
    }

    fn start_stream<Q>(&self, decl: &MsgDecl, msg: Q) -> (r: StreamCall<Q>)
        ensures
            r.wf(),
            r.stage() == CallStage::Opening,
            head_of(self@, decl.request@, msg, r.head()),
            r.links() == self@,
            r.response_route() == decl.response@,
            r.update_route() == decl.update@,
            r.pattern() == decl.pattern,
    {
        let head = self.map.req_into_outer(Envelope { route: crate::mapper::concat(&decl.request, &Vec::new()), body: msg });
        proof {
            assert(decl.request@ + Seq::<u32>::empty() == decl.request@);
            assert(decl.response@ + Seq::<u32>::empty() == decl.response@);
            assert(decl.update@ + Seq::<u32>::empty() == decl.update@);
        }
        StreamCall {
            map: self.map.share(),
            pattern: decl.pattern,
            response: crate::mapper::concat(&decl.response, &Vec::new()),
            update: crate::mapper::concat(&decl.update, &Vec::new()),
            head: Some(head),
            stage: CallStage::Opening,
        }
    }

    /// Starts a server streaming call: one request, a stream of responses.
    pub fn server_streaming<Q>(&self, decl: &MsgDecl, msg: Q) -> (r: StreamCall<Q>)
        requires
            decl.pattern == Pattern::ServerStreaming,
        ensures
            r.wf(),
            r.stage() == CallStage::Opening,
            head_of(self@, decl.request@, msg, r.head()),
            r.links() == self@,
            r.response_route() == decl.response@,
            r.update_route() == decl.update@,
            r.pattern() == decl.pattern,
    {
        self.start_stream(decl, msg)
    }

    /// Starts a client streaming call: one request and a stream of updates,
    /// one response.
    pub fn client_streaming<Q>(&self, decl: &MsgDecl, msg: Q) -> (r: StreamCall<Q>)
        requires
            decl.pattern == Pattern::ClientStreaming,
        ensures
            r.wf(),
            r.stage() == CallStage::Opening,
            head_of(self@, decl.request@, msg, r.head()),
            r.links() == self@,
            r.response_route() == decl.response@,
            r.update_route() == decl.update@,
            r.pattern() == decl.pattern,
    {
        self.start_stream(decl, msg)
    }

    /// Starts a bidi call: one request and a stream of updates, a stream of
    /// responses.
    pub fn bidi<Q>(&self, decl: &MsgDecl, msg: Q) -> (r: StreamCall<Q>)
        requires
            decl.pattern == Pattern::BidiStreaming,
        ensures
            r.wf(),
            r.stage() == CallStage::Opening,
            head_of(self@, decl.request@, msg, r.head()),
            r.links() == self@,
            r.response_route() == decl.response@,
            r.update_route() == decl.update@,
            r.pattern() == decl.pattern,
    {
        self.start_stream(decl, msg)
    }
}

/// Where a call stands.
#[derive(Clone, Copy, Debug, PartialEq, Eq, Structural)]
pub enum CallStage {
    /// Waiting for the substream to open.
    Opening,
    /// Waiting for the head to be written.
    Sending,
    /// Waiting for the single response.
    Receiving,
    /// The substream is open and the head written; the pattern's remaining
    /// traffic may flow.
    Established,
    /// The call has ended; no event is expected.
    Finished,
}

/// What the transport reports back to a call.
#[derive(Debug, PartialEq, Eq)]
pub enum CallEvent<R, OE, SE, RE> {
    /// The substream is open.
    Opened,
    /// The substream could not be opened.
    OpenFailed(OE),
    /// The head was written.
    Sent,
    /// The head could not be written.
    SendFailed(SE),
    /// What the receive half yielded: an envelope, an error, or its end.
    Received(Option<Result<Envelope<R>, RE>>),
}

/// What an rpc call asks of the transport next.
#[derive(Debug, PartialEq, Eq)]
pub enum RpcAction<Q, R, OE, SE, RE> {
    /// Open a substream.
    Open,
    /// Write this envelope on the send half.
    Send(Envelope<Q>),
    /// Read one envelope from the receive half. The send half must stay open
    /// until then: the server treats its close as a cancellation.
    Recv,
    /// The call is over, with this result. Both halves may be dropped.
    Finish(Result<R, RpcClientError<OE, SE, RE>>),
}

/// An rpc call in progress.
pub struct RpcCall<Q> {
    map: Mapper,
    response: Vec<u32>,
    head: Option<Envelope<Q>>,
    stage: CallStage,
}

impl<Q> RpcCall<Q> {
    pub closed spec fn stage(&self) -> CallStage {
        self.stage
    }

    /// The head envelope, while it is not yet handed out.
    pub closed spec fn head(&self) -> Envelope<Q> {
        self.head->Some_0
    }

    pub closed spec fn links(&self) -> Seq<u32> {
        self.map@
    }

    pub closed spec fn response_route(&self) -> Seq<u32> {
        self.response@
    }

    pub closed spec fn wf(&self) -> bool {
        self.stage == CallStage::Opening ==> self.head is Some
    }

    /// Whether `ev` is an event that the call waits for now.
    pub open spec fn expects<R, OE, SE, RE>(&self, ev: CallEvent<R, OE, SE, RE>) -> bool {
        match self.stage() {
            CallStage::Opening => ev is Opened || ev is OpenFailed,
            CallStage::Sending => ev is Sent || ev is SendFailed,
            CallStage::Receiving => ev is Received,
            _ => false,
        }
    }

    pub fn stage_now(&self) -> (r: CallStage)
        ensures
            r == self.stage(),
    {
        self.stage
    }

    /// Whether `ev` is an event that the call waits for now.
    pub fn accepts<R, OE, SE, RE>(&self, ev: &CallEvent<R, OE, SE, RE>) -> (r: bool)
        ensures
            r == self.expects(*ev),
    {
        match self.stage {
            CallStage::Opening => matches!(ev, CallEvent::Opened | CallEvent::OpenFailed(_)),
            CallStage::Sending => matches!(ev, CallEvent::Sent | CallEvent::SendFailed(_)),
            CallStage::Receiving => matches!(ev, CallEvent::Received(_)),
            _ => false,
        }
    }

    /// The first action of the call.
    pub fn first_action<R, OE, SE, RE>(&self) -> (a: RpcAction<Q, R, OE, SE, RE>)
        ensures
            a is Open,
    {
        RpcAction::Open
    }

    /// Takes the event that the last action brought and names the next one.
    pub fn step<R, OE, SE, RE>(&mut self, ev: CallEvent<R, OE, SE, RE>) -> (a: RpcAction<Q, R, OE, SE, RE>)
        requires
            old(self).wf(),
            old(self).expects(ev),
        ensures
            final(self).wf(),
            final(self).links() == old(self).links(),
            final(self).response_route() == old(self).response_route(),
            match ev {
                CallEvent::Opened => a == RpcAction::<Q, R, OE, SE, RE>::Send(old(self).head())
                    && final(self).stage() == CallStage::Sending,
                CallEvent::OpenFailed(e) => a == RpcAction::<Q, R, OE, SE, RE>::Finish(Err(RpcClientError::Open(e)))
                    && final(self).stage() == CallStage::Finished,
                CallEvent::Sent => a == RpcAction::<Q, R, OE, SE, RE>::Recv
                    && final(self).stage() == CallStage::Receiving,
                CallEvent::SendFailed(e) => a == RpcAction::<Q, R, OE, SE, RE>::Finish(Err(RpcClientError::Send(e)))
                    && final(self).stage() == CallStage::Finished,
                CallEvent::Received(x) => a == RpcAction::<Q, R, OE, SE, RE>::Finish(
                    rpc_outcome(old(self).links(), old(self).response_route(), x),
                ) && final(self).stage() == CallStage::Finished,
            },
    {
        match ev {
            CallEvent::Opened => {
                let mut head: Option<Envelope<Q>> = None;
                std::mem::swap(&mut head, &mut self.head);
                self.stage = CallStage::Sending;
                match head {
                    Some(h) => RpcAction::Send(h),
                    None => RpcAction::Open,
                }
            },
            CallEvent::OpenFailed(e) => {
                self.stage = CallStage::Finished;
                RpcAction::Finish(Err(RpcClientError::Open(e)))
            },
            CallEvent::Sent => {
                self.stage = CallStage::Receiving;
                RpcAction::Recv
            },
            CallEvent::SendFailed(e) => {
                self.stage = CallStage::Finished;
                RpcAction::Finish(Err(RpcClientError::Send(e)))
            },
            CallEvent::Received(x) => {
                self.stage = CallStage::Finished;
                let res = match x {
                    None => Err(RpcClientError::EarlyClose),
                    Some(Err(e)) => Err(RpcClientError::RecvError(e)),
                    Some(Ok(env)) => match self.map.downcast(&self.response, env) {
                        Ok(body) => Ok(body),
                        Err(_) => Err(RpcClientError::DowncastError),
                    },
                };
                RpcAction::Finish(res)
            },
        }
    }
}

/// What a streaming call asks of the transport next, until its substream is
/// established.
#[derive(Debug, Clone, PartialEq, Eq)]
pub enum StreamAction<Q, OE, SE> {
    /// Open a substream.
    Open,
    /// Write this envelope on the send half.
    Send(Envelope<Q>),
    /// The head is written: the update sink and the response decoder of the
    /// call may be taken. The send half must stay alive as long as responses
    /// are wanted: the server treats its close as a cancellation.
    Established,
    /// The substream could not be opened.
    OpenFailed(OE),
    /// The head could not be written.
    SendFailed(SE),
}

/// A server streaming, client streaming or bidi call in progress.
pub struct StreamCall<Q> {
    map: Mapper,
    pattern: Pattern,
    response: Vec<u32>,
    update: Vec<u32>,
    head: Option<Envelope<Q>>,
    stage: CallStage,
}

impl<Q> StreamCall<Q> {
    pub closed spec fn stage(&self) -> CallStage {
        self.stage
    }

    /// The head envelope, while it is not yet handed out.
    pub closed spec fn head(&self) -> Envelope<Q> {
        self.head->Some_0
    }

    pub closed spec fn links(&self) -> Seq<u32> {
        self.map@
    }

    pub closed spec fn response_route(&self) -> Seq<u32> {
        self.response@
    }

    pub closed spec fn update_route(&self) -> Seq<u32> {
        self.update@
    }

    pub closed spec fn pattern(&self) -> Pattern {
        self.pattern
    }

    pub closed spec fn wf(&self) -> bool {
        self.stage == CallStage::Opening ==> self.head is Some
    }

    /// Whether `ev` is an event that the call waits for now.
    pub open spec fn expects<R, OE, SE, RE>(&self, ev: CallEvent<R, OE, SE, RE>) -> bool {
        match self.stage() {
            CallStage::Opening => ev is Opened || ev is OpenFailed,
            CallStage::Sending => ev is Sent || ev is SendFailed,
            _ => false,
        }
    }

    pub fn stage_now(&self) -> (r: CallStage)
        ensures
            r == self.stage(),
    {
        self.stage
    }

    /// Whether `ev` is an event that the call waits for now.
    pub fn accepts<R, OE, SE, RE>(&self, ev: &CallEvent<R, OE, SE, RE>) -> (r: bool)
        ensures
            r == self.expects(*ev),
    {
        match self.stage {
            CallStage::Opening => matches!(ev, CallEvent::Opened | CallEvent::OpenFailed(_)),
            CallStage::Sending => matches!(ev, CallEvent::Sent | CallEvent::SendFailed(_)),
            _ => false,
        }
    }

    /// The first action of the call.
    pub fn first_action<OE, SE>(&self) -> (a: StreamAction<Q, OE, SE>)
        ensures
            a is Open,
    {
        StreamAction::Open
    }

    /// Takes the event that the last action brought and names the next one.
    pub fn step<R, OE, SE, RE>(&mut self, ev: CallEvent<R, OE, SE, RE>) -> (a: StreamAction<Q, OE, SE>)
        requires
            old(self).wf(),
            old(self).expects(ev),
        ensures
            final(self).wf(),
            final(self).links() == old(self).links(),
            final(self).response_route() == old(self).response_route(),
            final(self).update_route() == old(self).update_route(),
            final(self).pattern() == old(self).pattern(),
            match ev {
                CallEvent::Opened => a == StreamAction::<Q, OE, SE>::Send(old(self).head())
                    && final(self).stage() == CallStage::Sending,
                CallEvent::OpenFailed(e) => a == StreamAction::<Q, OE, SE>::OpenFailed(e)
                    && final(self).stage() == CallStage::Finished,
                CallEvent::Sent => a == StreamAction::<Q, OE, SE>::Established
                    && final(self).stage() == CallStage::Established,
                CallEvent::SendFailed(e) => a == StreamAction::<Q, OE, SE>::SendFailed(e)
                    && final(self).stage() == CallStage::Finished,
                CallEvent::Received(_) => false,
            },
    {
        match ev {
            CallEvent::Opened => {
                let mut head: Option<Envelope<Q>> = None;
                std::mem::swap(&mut head, &mut self.head);
                self.stage = CallStage::Sending;
                match head {
                    Some(h) => StreamAction::Send(h),
                    None => StreamAction::Open,
                }
            },
            CallEvent::OpenFailed(e) => {
                self.stage = CallStage::Finished;
                StreamAction::OpenFailed(e)
            },
            CallEvent::Sent => {
                self.stage = CallStage::Established;
                StreamAction::Established
            },
            CallEvent::SendFailed(e) => {
                self.stage = CallStage::Finished;
                StreamAction::SendFailed(e)
            },
            // a streaming call does not wait for a single response: `expects`
            // rules this event out
            CallEvent::Received(_) => {
                self.stage = CallStage::Finished;
                StreamAction::Open
            },
        }
    }

    /// The decoder of the responses of this call.
    pub fn responses(&self) -> (r: ResponseDecoder)
        ensures
            r.links() == self.links(),
            r.route() == self.response_route(),
    {
        let response = crate::mapper::concat(&self.response, &Vec::new());
        proof {
            assert(self.response@ + Seq::<u32>::empty() == self.response@);
        }
        ResponseDecoder { map: self.map.share(), route: response }
    }

    /// The sink of the updates of this call, writing through `sink`.
    pub fn updates<K>(&self, sink: K) -> (r: UpdateSink<K>)
        requires
            self.pattern().spec_has_updates(),
        ensures
            r.links() == self.links(),
            r.route() == self.update_route(),
            r.sink() == sink,
    {
        let update = crate::mapper::concat(&self.update, &Vec::new());
        proof {
            assert(self.update@ + Seq::<u32>::empty() == self.update@);
        }
        UpdateSink { sink, map: self.map.share(), route: update }
    }
}

/// Casts the envelopes that a call receives to its response.
pub struct ResponseDecoder {
    map: Mapper,
    route: Vec<u32>,
}

impl ResponseDecoder {
    pub closed spec fn links(&self) -> Seq<u32> {
        self.map@
    }

    /// The route of the response within the client's service.
    pub closed spec fn route(&self) -> Seq<u32> {
        self.route@
    }

    /// One item of a server streaming call.
    pub fn server_streaming_item<R, RE>(&self, item: Result<Envelope<R>, RE>) -> (r: Result<R, StreamingResponseItemError<RE>>)
        ensures
            r == streaming_item(self.links(), self.route(), item),
    {
        match item {
            Err(e) => Err(StreamingResponseItemError::RecvError(e)),
            Ok(env) => match self.map.downcast(&self.route, env) {
                Ok(body) => Ok(body),
                Err(_) => Err(StreamingResponseItemError::DowncastError),
            },
        }
    }

    /// One item of a bidi call.
    pub fn bidi_item<R, RE>(&self, item: Result<Envelope<R>, RE>) -> (r: Result<R, BidiItemError<RE>>)
        ensures
            r == bidi_item_of(self.links(), self.route(), item),
    {
        match item {
            Err(e) => Err(BidiItemError::RecvError(e)),
            Ok(env) => match self.map.downcast(&self.route, env) {
                Ok(body) => Ok(body),
                Err(_) => Err(BidiItemError::DowncastError),
            },
        }
    }

    /// The single response of a client streaming call, from what the receive
    /// half yielded first.
    pub fn client_streaming_response<R, RE>(&self, received: Option<Result<Envelope<R>, RE>>) -> (r: Result<R, ClientStreamingItemError<RE>>)
        ensures
            r == client_streaming_outcome(self.links(), self.route(), received),
    {
        match received {
            None => Err(ClientStreamingItemError::EarlyClose),
            Some(Err(e)) => Err(ClientStreamingItemError::RecvError(e)),
            Some(Ok(env)) => match self.map.downcast(&self.route, env) {
                Ok(body) => Ok(body),
                Err(_) => Err(ClientStreamingItemError::DowncastError),
            },
        }
    }
}

/// Sink of the updates of a client streaming or bidi call. Each update is
/// wrapped into the outer service's envelope before it is written to the
/// send half `K`.
pub struct UpdateSink<K> {
    sink: K,
    map: Mapper,
    route: Vec<u32>,
}

impl<K> UpdateSink<K> {
    pub closed spec fn links(&self) -> Seq<u32> {
        self.map@
    }

    /// The route of the update within the client's service.
    pub closed spec fn route(&self) -> Seq<u32> {
        self.route@
    }

    pub closed spec fn sink(&self) -> K {
        self.sink
    }

    /// The envelope to write for the update `item`.
    pub fn start_send<U>(&self, item: U) -> (r: Envelope<U>)
        ensures
            head_of(self.links(), self.route(), item, r),
    {
        let route = crate::mapper::concat(&self.route, &Vec::new());
        proof {
            assert(self.route@ + Seq::<u32>::empty() == self.route@);
        }
        self.map.req_into_outer(Envelope { route, body: item })
    }

    /// The send half, to write an envelope or to close it.
    pub fn get_mut(&mut self) -> (r: &mut K)
        ensures
            *r == old(self).sink(),
            final(self).sink() == *final(r),
            final(self).links() == old(self).links(),
            final(self).route() == old(self).route(),
    {
        &mut self.sink
    }

    /// The send half, giving up the sink.
    pub fn into_inner(self) -> (r: K)
        ensures
            r == self.sink(),
    {
        self.sink
    }
}

/// A client mapped into the inner service under `link` behaves as a client
/// of the outer service that speaks the same message embedded in the outer
/// envelope: the same head goes out, and every envelope that comes back gives
/// the same result.
pub proof fn lemma_mapped_client<Q, R, OE, SE, RE>(
    links: Seq<u32>,
    link: u32,
    inner: MsgDecl,
    outer: MsgDecl,
    x: Q,
    head: Envelope<Q>,
    received: Option<Result<Envelope<R>, RE>>,
)
    requires
        outer.request@ == seq![link] + inner.request@,
        outer.response@ == seq![link] + inner.response@,
    ensures
        head_of(links.push(link), inner.request@, x, head) == head_of(links, outer.request@, x, head),
        rpc_outcome::<R, OE, SE, RE>(links.push(link), inner.response@, received)
            == rpc_outcome::<R, OE, SE, RE>(links, outer.response@, received),
{
    assert(links.push(link) + inner.request@ =~= links + outer.request@);
    assert(links.push(link) + inner.response@ =~= links + outer.response@);
    if let Some(Ok(env)) = received {
        crate::mapper::lemma_compose(links, seq![link], env.route@);
        assert(links + seq![link] =~= links.push(link));
        if project(links, env.route@) is Some {
            let mid = project(links, env.route@)->Some_0;
            crate::mapper::lemma_compose(seq![link], Seq::empty(), mid);
            assert(seq![link] + inner.response@ == outer.response@);
            if project(seq![link], mid) is Some {
                crate::mapper::lemma_inject_project(seq![link], mid);
            }
            if mid == outer.response@ {
                crate::mapper::lemma_project_inject(seq![link], inner.response@);
            }
        }
    }
}

} // verus!
