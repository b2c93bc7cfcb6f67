//! The four interaction patterns and the declaration of a message.
use vstd::prelude::*;

verus! {

/// The cardinality of the traffic in each direction of one call.
#[derive(Clone, Copy, Debug, PartialEq, Eq, Structural)]
pub enum Pattern {
    /// One request, one response.
    Rpc,
    /// One request, a stream of responses.
    ServerStreaming,
    /// One request and a stream of updates, one response.
    ClientStreaming,
    /// One request and a stream of updates, a stream of responses.
    BidiStreaming,
}

impl Pattern {
    /// Whether the client may send updates after the head.
    pub open spec fn spec_has_updates(self) -> bool {
        self is ClientStreaming || self is BidiStreaming
    }

    /// Whether the server may send more than one response.
    pub open spec fn spec_streams_responses(self) -> bool {
        self is ServerStreaming || self is BidiStreaming
    }

    pub fn has_updates(&self) -> (r: bool)
        ensures
            r == self.spec_has_updates(),
    {
        match self {
            Pattern::ClientStreaming | Pattern::BidiStreaming => true,
            _ => false,
        }
    }

    pub fn streams_responses(&self) -> (r: bool)
        ensures
            r == self.spec_streams_responses(),
    {
        match self {
            Pattern::ServerStreaming | Pattern::BidiStreaming => true,
            _ => false,
        }
    }
}

/// Binds one message to its pattern and to the routes, relative to the
/// service that declares it, of its request, response and update variants.
///
/// A route is the sequence of variant tags that leads from a service's
/// envelope down to one message.
pub struct MsgDecl {
    pub pattern: Pattern,
    pub request: Vec<u32>,
    pub response: Vec<u32>,
    pub update: Vec<u32>,
}

impl MsgDecl {
    /// Declares a message whose variants sit directly in its service's envelope.
    pub fn new(pattern: Pattern, request: u32, response: u32, update: u32) -> (r: MsgDecl)
        ensures
            r.pattern == pattern,
            r.request@ == seq![request],
            r.response@ == seq![response],
            r.update@ == seq![update],
    {
        MsgDecl { pattern, request: vec![request], response: vec![response], update: vec![update] }
    }

    /// The same message seen from an outer service that holds the declaring
    /// service under the variant `link`.
    pub fn embed(&self, link: u32) -> (r: MsgDecl)
        ensures
            r.pattern == self.pattern,
            r.request@ == seq![link] + self.request@,
            r.response@ == seq![link] + self.response@,
            r.update@ == seq![link] + self.update@,
    {
        MsgDecl {
            pattern: self.pattern,
            request: prefixed(link, &self.request),
            response: prefixed(link, &self.response),
            update: prefixed(link, &self.update),
        }
    }
}

/// `route` with `link` in front.
pub fn prefixed(link: u32, route: &Vec<u32>) -> (r: Vec<u32>)
    ensures
        r@ == seq![link] + route@,
{
    let mut r: Vec<u32> = Vec::new();
    r.push(link);
    let mut i: usize = 0;
    while i < route.len()
        invariant
            i <= route.len(),
            r@ == seq![link] + route@.take(i as int),
        decreases route.len() - i,
    {
        r.push(route[i]);
        i += 1;
        proof {
            assert(route@.take(i as int) == route@.take(i - 1) + seq![route@[i - 1]]);
        }
    }
    proof {
        assert(route@.take(route.len() as int) == route@);
    }
    r
}

} // verus!
