//! A transport that combines two other transports.
use crate::transport::LocalAddr;
use vstd::prelude::*;

verus! {

/// One of the two backends of a combined transport.
#[derive(Clone, Copy, Debug, PartialEq, Eq, Structural)]
pub enum Side {
    A,
    B,
}

/// A connection that combines two other connections.
///
/// It always opens through the first connection that is configured.
pub struct CombinedConnection<A, B> {
    /// First connection
    pub a: Option<A>,
    /// Second connection
    pub b: Option<B>,
}

impl<A: Clone, B: Clone> Clone for CombinedConnection<A, B> {
    fn clone(&self) -> (r: Self) {
        CombinedConnection { a: self.a.clone(), b: self.b.clone() }
    }
}

impl<A, B> CombinedConnection<A, B> {
    /// Create a combined connection from two other connections.
    pub fn new(a: Option<A>, b: Option<B>) -> (r: Self)
        ensures
            r.a == a,
            r.b == b,
    {
        CombinedConnection { a, b }
    }

    /// The backend that opening goes through: the first one configured, or
    /// `NoChannel` when neither is.
    pub fn open<EA, EB>(&self) -> (r: Result<Side, OpenBiError<EA, EB>>)
        ensures
            self.a is Some ==> r == Ok::<Side, OpenBiError<EA, EB>>(Side::A),
            self.a is None && self.b is Some ==> r == Ok::<Side, OpenBiError<EA, EB>>(Side::B),
            self.a is None && self.b is None ==> r == Err::<Side, OpenBiError<EA, EB>>(OpenBiError::NoChannel),
    {
        if self.a.is_some() {
            Ok(Side::A)
        } else if self.b.is_some() {
            Ok(Side::B)
        } else {
            Err(OpenBiError::NoChannel)
        }
    }
}

/// What opening through the first backend gives, tagged with its side.
pub fn opened_a<SA, RA, EA, SB, RB, EB>(res: Result<(SA, RA), EA>) -> (r: Result<(SendSink<SA, SB>, RecvStream<RA, RB>), OpenBiError<EA, EB>>)
    ensures
        match res {
            Ok((s, v)) => r == Ok::<(SendSink<SA, SB>, RecvStream<RA, RB>), OpenBiError<EA, EB>>((SendSink::A(s), RecvStream::A(v))),
            Err(e) => r == Err::<(SendSink<SA, SB>, RecvStream<RA, RB>), OpenBiError<EA, EB>>(OpenBiError::A(e)),
        },
{
    match res {
        Ok((s, v)) => Ok((SendSink::A(s), RecvStream::A(v))),
        Err(e) => Err(OpenBiError::A(e)),
    }
}

/// What opening through the second backend gives, tagged with its side.
pub fn opened_b<SA, RA, EA, SB, RB, EB>(res: Result<(SB, RB), EB>) -> (r: Result<(SendSink<SA, SB>, RecvStream<RA, RB>), OpenBiError<EA, EB>>)
    ensures
        match res {
            Ok((s, v)) => r == Ok::<(SendSink<SA, SB>, RecvStream<RA, RB>), OpenBiError<EA, EB>>((SendSink::B(s), RecvStream::B(v))),
            Err(e) => r == Err::<(SendSink<SA, SB>, RecvStream<RA, RB>), OpenBiError<EA, EB>>(OpenBiError::B(e)),
        },
{
    match res {
        Ok((s, v)) => Ok((SendSink::B(s), RecvStream::B(v))),
        Err(e) => Err(OpenBiError::B(e)),
    }
}

/// An endpoint that combines two other endpoints.
///
/// Accepting listens on every configured endpoint, and the first to yield a
/// substream wins. With no endpoint configured, accepting does not fail but
/// waits forever.
pub struct CombinedServerEndpoint<A, B> {
    /// First endpoint
    pub a: Option<A>,
    /// Second endpoint
    pub b: Option<B>,
    /// Local addresses from all endpoints
    local_addr: Vec<LocalAddr>,
}

impl<A: Clone, B: Clone> Clone for CombinedServerEndpoint<A, B> {
    fn clone(&self) -> (r: Self) {
        CombinedServerEndpoint { a: self.a.clone(), b: self.b.clone(), local_addr: self.local_addr.clone() }
    }
}

/// The addresses of a combined endpoint: those of each configured endpoint,
/// the first one's first.
pub open spec fn combined_addrs<A, B>(
    a: Option<A>,
    a_addr: Seq<LocalAddr>,
    b: Option<B>,
    b_addr: Seq<LocalAddr>,
) -> Seq<LocalAddr> {
    (if a is Some { a_addr } else { Seq::empty() }) + (if b is Some { b_addr } else { Seq::empty() })
}

impl<A, B> CombinedServerEndpoint<A, B> {
    /// The first endpoint.
    pub closed spec fn first(&self) -> Option<A> {
        self.a
    }

    /// The second endpoint.
    pub closed spec fn second(&self) -> Option<B> {
        self.b
    }

    pub closed spec fn spec_local_addr(&self) -> Seq<LocalAddr> {
        self.local_addr@
    }

    /// Create a combined server endpoint from two other server endpoints and
    /// the local addresses of each.
    pub fn new(a: Option<A>, a_addr: Vec<LocalAddr>, b: Option<B>, b_addr: Vec<LocalAddr>) -> (r: Self)
        ensures
            r.first() == a,
            r.second() == b,
            r.spec_local_addr() == combined_addrs(a, a_addr@, b, b_addr@),
    {
        let ghost a0 = a_addr@;
        let ghost b0 = b_addr@;
        let mut local_addr: Vec<LocalAddr> = Vec::new();
        let mut a_addr = a_addr;
        let mut b_addr = b_addr;
        if a.is_some() {
            local_addr.append(&mut a_addr);
        }
        if b.is_some() {
            local_addr.append(&mut b_addr);
        }
        proof {
            assert(local_addr@ =~= combined_addrs(a, a0, b, b0));
        }
        CombinedServerEndpoint { a, b, local_addr }
    }

    /// Get back the inner endpoints.
    pub fn into_inner(self) -> (r: (Option<A>, Option<B>))
        ensures
            r == (self.first(), self.second()),
    {
        (self.a, self.b)
    }

    /// The local addresses of all configured endpoints.
    pub fn local_addr(&self) -> (r: &[LocalAddr])
        ensures
            r@ == self.spec_local_addr(),
    {
        self.local_addr.as_slice()
    }

    /// Whether accepting listens on each side. Every configured endpoint is
    /// listened on, so neither can starve the other; an absent endpoint is a
    /// branch that never completes.
    pub fn listens(&self) -> (r: (bool, bool))
        ensures
            r == (self.first() is Some, self.second() is Some),
    {
        (self.a.is_some(), self.b.is_some())
    }
}

/// What accepting on the first endpoint gives, tagged with its side.
pub fn accepted_a<SA, RA, EA, SB, RB, EB>(res: Result<(SA, RA), EA>) -> (r: Result<(SendSink<SA, SB>, RecvStream<RA, RB>), AcceptBiError<EA, EB>>)
    ensures
        match res {
            Ok((s, v)) => r == Ok::<(SendSink<SA, SB>, RecvStream<RA, RB>), AcceptBiError<EA, EB>>((SendSink::A(s), RecvStream::A(v))),
            Err(e) => r == Err::<(SendSink<SA, SB>, RecvStream<RA, RB>), AcceptBiError<EA, EB>>(AcceptBiError::A(e)),
        },
{
    match res {
        Ok((s, v)) => Ok((SendSink::A(s), RecvStream::A(v))),
        Err(e) => Err(AcceptBiError::A(e)),
    }
}

/// What accepting on the second endpoint gives, tagged with its side.
pub fn accepted_b<SA, RA, EA, SB, RB, EB>(res: Result<(SB, RB), EB>) -> (r: Result<(SendSink<SA, SB>, RecvStream<RA, RB>), AcceptBiError<EA, EB>>)
    ensures
        match res {
            Ok((s, v)) => r == Ok::<(SendSink<SA, SB>, RecvStream<RA, RB>), AcceptBiError<EA, EB>>((SendSink::B(s), RecvStream::B(v))),
            Err(e) => r == Err::<(SendSink<SA, SB>, RecvStream<RA, RB>), AcceptBiError<EA, EB>>(AcceptBiError::B(e)),
        },
{
    match res {
        Ok((s, v)) => Ok((SendSink::B(s), RecvStream::B(v))),
        Err(e) => Err(AcceptBiError::B(e)),
    }
}

/// Send sink for combined channels
#[derive(Debug)]
pub enum SendSink<SA, SB> {
    /// A variant
    A(SA),
    /// B variant
    B(SB),
}

impl<SA, SB> SendSink<SA, SB> {
    /// The backend this sink writes to.
    pub fn side(&self) -> (r: Side)
        ensures
            r == (if self is A { Side::A } else { Side::B }),
    {
        match self {
            SendSink::A(_) => Side::A,
            SendSink::B(_) => Side::B,
        }
    }
}

/// RecvStream for combined channels
#[derive(Debug)]
pub enum RecvStream<RA, RB> {
    /// A variant
    A(RA),
    /// B variant
    B(RB),
}

impl<RA, RB> RecvStream<RA, RB> {
    /// The backend this stream reads from.
    pub fn side(&self) -> (r: Side)
        ensures
            r == (if self is A { Side::A } else { Side::B }),
    {
        match self {
            RecvStream::A(_) => Side::A,
            RecvStream::B(_) => Side::B,
        }
    }
}

/// SendError for combined channels
#[derive(Debug, Clone, PartialEq, Eq)]
pub enum SendError<EA, EB> {
    /// A variant
    A(EA),
    /// B variant
    B(EB),
}

/// RecvError for combined channels
#[derive(Debug, Clone, PartialEq, Eq)]
pub enum RecvError<EA, EB> {
    /// A variant
    A(EA),
    /// B variant
    B(EB),
}

/// OpenBiError for combined channels
#[derive(Debug, Clone, PartialEq, Eq)]
pub enum OpenBiError<EA, EB> {
    /// A variant
    A(EA),
    /// B variant
    B(EB),
    /// None of the two channels is configured
    NoChannel,
}

/// AcceptBiError for combined channels
#[derive(Debug, Clone, PartialEq, Eq)]
pub enum AcceptBiError<EA, EB> {
    /// A variant
    A(EA),
    /// B variant
    B(EB),
}

} // verus!
