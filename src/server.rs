//! Server side: accepting substreams, casting their head to a message, and
//! dispatching to a handler by the message's pattern.
use crate::client::{
    bidi_item_of, client_streaming_outcome, head_of, rpc_outcome, streaming_item,
    BidiItemError, ClientStreamingItemError, RpcClientError, StreamingResponseItemError,
};
use crate::mapper::{downcast, Envelope, Mapper};
use crate::pattern::{MsgDecl, Pattern};
use vstd::prelude::*;

verus! {

/// Error of a server while it accepts a call.
#[derive(Debug, Clone, PartialEq, Eq)]
pub enum RpcServerError<OE, RE> {
    /// Unable to accept a substream
    Accept(OE),
    /// The client closed the substream before it sent the head
    EarlyClose,
    /// Unable to receive the head from the client
    RecvError(RE),
}

/// Error on one update that a server receives.
#[derive(Debug, Clone, PartialEq, Eq)]
pub enum UpdateError<RE> {
    /// Unable to receive the update from the client
    RecvError(RE),
    /// An envelope that is not the update of the call
    DowncastError,
}

/// The head of a call, from what a newly accepted substream yielded first.
pub open spec fn head_outcome<Q, OE, RE>(received: Option<Result<Envelope<Q>, RE>>) -> Result<Envelope<Q>, RpcServerError<OE, RE>> {
    match received {
        None => Err(RpcServerError::EarlyClose),
        Some(Err(e)) => Err(RpcServerError::RecvError(e)),
        Some(Ok(env)) => Ok(env),
    }
}

/// One item of a server's update stream, from one item of its receive half.
/// `None` is the end of the stream.
pub open spec fn update_item<Q, RE>(
    links: Seq<u32>,
    route: Seq<u32>,
    received: Option<Result<Envelope<Q>, RE>>,
) -> Option<Result<Q, UpdateError<RE>>> {
    match received {
        None => None,
        Some(Err(e)) => Some(Err(UpdateError::RecvError(e))),
        Some(Ok(env)) => match downcast(links, route, env) {
            Some(body) => Some(Ok(body)),
            None => Some(Err(UpdateError::DowncastError)),
        },
    }
}

/// A server for one service, accepting calls through the listener `L`.
pub struct RpcServer<L> {
    source: L,
}

impl<L> RpcServer<L> {
    pub closed spec fn spec_source(&self) -> L {
        self.source
    }

    pub fn new(source: L) -> (r: Self)
        ensures
            r.spec_source() == source,
    {
        RpcServer { source }
    }

    /// The underlying listener.
    pub fn into_inner(self) -> (r: L)
        ensures
            r == self.spec_source(),
    {
        self.source
    }

    /// The underlying listener, borrowed.
    pub fn listener(&self) -> (r: &L)
        ensures
            *r == self.spec_source(),
    {
        &self.source
    }

    /// What accepting a call gives when the listener failed with `e`.
    pub fn accept_failed<Q, OE, RE>(&self, e: OE) -> (r: Result<(Envelope<Q>, RpcChannel), RpcServerError<OE, RE>>)
        ensures
            r == Err::<(Envelope<Q>, RpcChannel), RpcServerError<OE, RE>>(RpcServerError::Accept(e)),
    {
        Err(RpcServerError::Accept(e))
    }

    /// The head of a newly accepted substream and the channel to answer on,
    /// from what its receive half yielded first.
    pub fn accepted<Q, OE, RE>(&self, received: Option<Result<Envelope<Q>, RE>>) -> (r: Result<(Envelope<Q>, RpcChannel), RpcServerError<OE, RE>>)
        ensures
            match (head_outcome::<Q, OE, RE>(received), r) {
                (Ok(h), Ok((head, chan))) => head == h && chan.links() == Seq::<u32>::empty(),
                (Err(e), Err(f)) => e == f,
                _ => false,
            },
    {
        match received {
            None => Err(RpcServerError::EarlyClose),
            Some(Err(e)) => Err(RpcServerError::RecvError(e)),
            Some(Ok(env)) => Ok((env, RpcChannel::new())),
        }
    }
}

/// The dispatch side of one accepted substream: it casts envelopes to the
/// messages of its service and wraps responses into the outer envelope.
pub struct RpcChannel {
    map: Mapper,
}

impl RpcChannel {
    /// The route from the outer service to the service this channel speaks.
    pub closed spec fn links(&self) -> Seq<u32> {
        self.map@
    }

    /// A channel for the service that the listener speaks directly.
    pub fn new() -> (r: Self)
        ensures
            r.links() == Seq::<u32>::empty(),
    {
        RpcChannel { map: Mapper::new() }
    }

    /// A channel for the inner service that sits under the variant `link` of
    /// this channel's service.
    pub fn map(self, link: u32) -> (r: Self)
        ensures
            r.links() == self.links().push(link),
    {
        RpcChannel { map: self.map.chain(link) }
    }

    /// Casts the head of the call to the message `decl`, or gives it back
    /// when it is another message.
    pub fn request<Q>(&self, decl: &MsgDecl, head: Envelope<Q>) -> (r: Result<Q, Envelope<Q>>)
        ensures
            match downcast(self.links(), decl.request@, head) {
                Some(body) => r == Ok::<Q, Envelope<Q>>(body),
                None => r == Err::<Q, Envelope<Q>>(head),
            },
    {
        self.map.downcast(&decl.request, head)
    }

    /// The envelope to write for the response `item` of the message `decl`.
    pub fn response<R>(&self, decl: &MsgDecl, item: R) -> (r: Envelope<R>)
        ensures
            head_of(self.links(), decl.response@, item, r),
    {
        let route = crate::mapper::concat(&decl.response, &Vec::new());
        proof {
            assert(decl.response@ + Seq::<u32>::empty() == decl.response@);
        }
        self.map.req_into_outer(Envelope { route, body: item })
    }

    /// Answers an rpc call: runs the handler on the state and the message and
    /// gives the envelope of its response.
    pub fn rpc<S, Q, R, F: FnOnce(S, Q) -> R>(&self, decl: &MsgDecl, msg: Q, state: S, f: F) -> (r: Envelope<R>)
        requires
            decl.pattern == Pattern::Rpc,
            f.requires((state, msg)),
        ensures
            f.ensures((state, msg), r.body),
            r.route@ == self.links() + decl.response@,
    {
        let item = f(state, msg);
        self.response(decl, item)
    }

    /// Answers a server streaming call: runs the handler on the state and the
    /// message and gives the envelopes of its responses, in the order the
    /// handler produced them.
    pub fn server_streaming<S, Q, R, F: FnOnce(S, Q) -> Vec<R>>(&self, decl: &MsgDecl, msg: Q, state: S, f: F) -> (r: Vec<Envelope<R>>)
        requires
            decl.pattern == Pattern::ServerStreaming,
            f.requires((state, msg)),
        ensures
            exists|out: Vec<R>| #[trigger] f.ensures((state, msg), out) && r@.len() == out@.len()
                && forall|i: int| 0 <= i < r@.len() ==> head_of(self.links(), decl.response@, out@[i], #[trigger] r@[i]),
    {
        let mut out = f(state, msg);
        let ghost produced = out;
        let mut r: Vec<Envelope<R>> = Vec::new();
        while out.len() > 0
            invariant
                f.ensures((state, msg), produced),
                r@.len() + out@.len() == produced@.len(),
                out@ == produced@.skip(r@.len() as int),
                forall|i: int| 0 <= i < r@.len() ==> head_of(self.links(), decl.response@, produced@[i], #[trigger] r@[i]),
            decreases out@.len(),
        {
            let item = out.remove(0);
            proof {
                assert(item == produced@[r@.len() as int]);
            }
            let env = self.response(decl, item);
            r.push(env);
            proof {
                assert(out@ =~= produced@.skip(r@.len() as int));
            }
        }
        r
    }

    /// The stream of updates of a client streaming or bidi call.
    pub fn updates(&self, decl: &MsgDecl) -> (r: UpdateStream)
        requires
            decl.pattern.spec_has_updates(),
        ensures
            r.links() == self.links(),
            r.route() == decl.update@,
            !r.ended(),
    {
        let route = crate::mapper::concat(&decl.update, &Vec::new());
        proof {
            assert(decl.update@ + Seq::<u32>::empty() == decl.update@);
        }
        UpdateStream { map: self.map.share(), route, ended: false }
    }
}

/// The updates of one call as the handler sees them. The stream ends at the
/// end of the receive half, and right after an error.
pub struct UpdateStream {
    map: Mapper,
    route: Vec<u32>,
    ended: bool,
}

impl UpdateStream {
    pub closed spec fn links(&self) -> Seq<u32> {
        self.map@
    }

    /// The route of the update within the service.
    pub closed spec fn route(&self) -> Seq<u32> {
        self.route@
    }

    pub closed spec fn ended(&self) -> bool {
        self.ended
    }

    pub fn is_ended(&self) -> (r: bool)
        ensures
            r == self.ended(),
    {
        self.ended
    }

    /// The next update, from what the receive half yielded next.
    pub fn next<Q, RE>(&mut self, received: Option<Result<Envelope<Q>, RE>>) -> (r: Option<Result<Q, UpdateError<RE>>>)
        ensures
            final(self).links() == old(self).links(),
            final(self).route() == old(self).route(),
            old(self).ended() ==> r is None && final(self).ended(),
            !old(self).ended() ==> r == update_item(old(self).links(), old(self).route(), received)
                && final(self).ended() == !(r matches Some(Ok(_))),
    {
        if self.ended {
            return None;
        }
        let r = match received {
            None => None,
            Some(Err(e)) => Some(Err(UpdateError::RecvError(e))),
            Some(Ok(env)) => match self.map.downcast(&self.route, env) {
                Ok(body) => Some(Ok(body)),
                Err(_) => Some(Err(UpdateError::DowncastError)),
            },
        };
        self.ended = match &r {
            Some(Ok(_)) => false,
            _ => true,
        };
        r
    }
}

/// An rpc call returns what the handler returned: the server casts the
/// client's head back to the message, and the client casts the server's
/// response envelope back to the handler's value.
pub proof fn lemma_rpc_round_trip<Q, R, OE, SE, RE>(
    links: Seq<u32>,
    decl: MsgDecl,
    x: Q,
    head: Envelope<Q>,
    y: R,
    answer: Envelope<R>,
)
    requires
        head_of(links, decl.request@, x, head),
        head_of(links, decl.response@, y, answer),
    ensures
        downcast(links, decl.request@, head) == Some(x),
        rpc_outcome::<R, OE, SE, RE>(links, decl.response@, Some(Ok(answer))) == Ok::<R, RpcClientError<OE, SE, RE>>(y),
{
    crate::mapper::lemma_project_inject(links, decl.request@);
    crate::mapper::lemma_project_inject(links, decl.response@);
}

/// The items that a server streaming client observes are, in order, those
/// that the handler produced.
pub proof fn lemma_stream_faithful<R, RE>(
    links: Seq<u32>,
    decl: MsgDecl,
    produced: Seq<R>,
    written: Seq<Envelope<R>>,
)
    requires
        written.len() == produced.len(),
        forall|i: int| 0 <= i < written.len() ==> head_of(links, decl.response@, produced[i], #[trigger] written[i]),
    ensures
        written.map_values(|env: Envelope<R>| streaming_item::<R, RE>(links, decl.response@, Ok(env)))
            == produced.map_values(|y: R| Ok::<R, StreamingResponseItemError<RE>>(y)),
{
    crate::mapper::lemma_project_inject(links, decl.response@);
    assert(written.map_values(|env: Envelope<R>| streaming_item::<R, RE>(links, decl.response@, Ok(env)))
        =~= produced.map_values(|y: R| Ok::<R, StreamingResponseItemError<RE>>(y)));
}

/// A client streaming call returns the response the server wrote after it
/// received the updates.
pub proof fn lemma_client_streaming_response<R, RE>(links: Seq<u32>, decl: MsgDecl, y: R, answer: Envelope<R>)
    requires
        head_of(links, decl.response@, y, answer),
    ensures
        client_streaming_outcome::<R, RE>(links, decl.response@, Some(Ok(answer))) == Ok::<R, ClientStreamingItemError<RE>>(y),
{
    crate::mapper::lemma_project_inject(links, decl.response@);
}

/// In a bidi call each direction keeps its own order: the handler sees the
/// client's updates in the order they were written, and the client sees the
/// handler's responses in the order they were written.
pub proof fn lemma_bidi_independence<Q, R, RE>(
    links: Seq<u32>,
    decl: MsgDecl,
    updates: Seq<Q>,
    sent: Seq<Envelope<Q>>,
    responses: Seq<R>,
    written: Seq<Envelope<R>>,
)
    requires
        sent.len() == updates.len(),
        forall|i: int| 0 <= i < sent.len() ==> head_of(links, decl.update@, updates[i], #[trigger] sent[i]),
        written.len() == responses.len(),
        forall|i: int| 0 <= i < written.len() ==> head_of(links, decl.response@, responses[i], #[trigger] written[i]),
    ensures
        sent.map_values(|env: Envelope<Q>| update_item::<Q, RE>(links, decl.update@, Some(Ok(env))))
            == updates.map_values(|u: Q| Some(Ok::<Q, UpdateError<RE>>(u))),
        written.map_values(|env: Envelope<R>| bidi_item_of::<R, RE>(links, decl.response@, Ok(env)))
            == responses.map_values(|y: R| Ok::<R, BidiItemError<RE>>(y)),
{
    crate::mapper::lemma_project_inject(links, decl.update@);
    crate::mapper::lemma_project_inject(links, decl.response@);
    assert(sent.map_values(|env: Envelope<Q>| update_item::<Q, RE>(links, decl.update@, Some(Ok(env))))
        =~= updates.map_values(|u: Q| Some(Ok::<Q, UpdateError<RE>>(u))));
    assert(written.map_values(|env: Envelope<R>| bidi_item_of::<R, RE>(links, decl.response@, Ok(env)))
        =~= responses.map_values(|y: R| Ok::<R, BidiItemError<RE>>(y)));
}

} // verus!
