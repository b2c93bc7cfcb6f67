//! Envelopes, and the mapper that embeds an inner service's envelopes in an
//! outer service's envelopes.
use std::sync::Arc;
use vstd::prelude::*;

verus! {

/// One envelope value: the route of variant tags from the service's envelope
/// down to the message, and the message's own content.
#[derive(Debug, Clone, PartialEq, Eq)]
pub struct Envelope<B> {
    pub route: Vec<u32>,
    pub body: B,
}

/// The route of an inner value seen from the outer service.
pub open spec fn inject(links: Seq<u32>, route: Seq<u32>) -> Seq<u32> {
    links + route
}

/// The route of an outer value seen from the inner service, if the value lies
/// inside it.
pub open spec fn project(links: Seq<u32>, route: Seq<u32>) -> Option<Seq<u32>> {
    if links.len() <= route.len() && route.take(links.len() as int) == links {
        Some(route.skip(links.len() as int))
    } else {
        None
    }
}

/// The concatenation of two routes.
pub fn concat(a: &Vec<u32>, b: &Vec<u32>) -> (r: Vec<u32>)
    ensures
        r@ == a@ + b@,
{
    let mut r: Vec<u32> = Vec::new();
    let mut i: usize = 0;
    while i < a.len()
        invariant
            i <= a.len(),
            r@ == a@.take(i as int),
        decreases a.len() - i,
    {
        r.push(a[i]);
        i += 1;
        proof {
            assert(a@.take(i as int) == a@.take(i - 1) + seq![a@[i - 1]]);
        }
    }
    let mut j: usize = 0;
    while j < b.len()
        invariant
            i == a.len(),
            j <= b.len(),
            r@ == a@ + b@.take(j as int),
        decreases b.len() - j,
    {
        r.push(b[j]);
        j += 1;
        proof {
            assert(b@.take(j as int) == b@.take(j - 1) + seq![b@[j - 1]]);
        }
    }
    proof {
        assert(a@.take(a.len() as int) == a@);
        assert(b@.take(b.len() as int) == b@);
    }
    r
}

/// Splits `route` after the prefix `links`, if it starts with it.
pub fn strip_prefix(links: &Vec<u32>, route: &Vec<u32>) -> (r: Option<Vec<u32>>)
    ensures
        r is Some <==> project(links@, route@) is Some,
        r matches Some(rest) ==> project(links@, route@) == Some(rest@),
{
    if links.len() > route.len() {
        return None;
    }
    let mut i: usize = 0;
    while i < links.len()
        invariant
            links.len() <= route.len(),
            i <= links.len(),
            route@.take(i as int) == links@.take(i as int),
        decreases links.len() - i,
    {
        if links[i] != route[i] {
            proof {
                assert(route@.take(links.len() as int)[i as int] != links@[i as int]);
            }
            return None;
        }
        i += 1;
        proof {
            assert(route@.take(i as int) =~= links@.take(i as int));
        }
    }
    proof {
        assert(links@.take(links.len() as int) == links@);
    }
    let mut rest: Vec<u32> = Vec::new();
    let mut j: usize = links.len();
    while j < route.len()
        invariant
            links.len() <= j <= route.len(),
            rest@ == route@.subrange(links.len() as int, j as int),
        decreases route.len() - j,
    {
        rest.push(route[j]);
        j += 1;
        proof {
            assert(rest@ =~= route@.subrange(links.len() as int, j as int));
        }
    }
    proof {
        assert(rest@ =~= route@.skip(links.len() as int));
    }
    Some(rest)
}

/// Whether two routes are equal.
pub fn same_route(a: &Vec<u32>, b: &Vec<u32>) -> (r: bool)
    ensures
        r == (a@ == b@),
{
    if a.len() != b.len() {
        return false;
    }
    let mut i: usize = 0;
    while i < a.len()
        invariant
            a.len() == b.len(),
            i <= a.len(),
            a@.take(i as int) == b@.take(i as int),
        decreases a.len() - i,
    {
        if a[i] != b[i] {
            return false;
        }
        i += 1;
        proof {
            assert(a@.take(i as int) =~= b@.take(i as int));
        }
    }
    proof {
        assert(a@.take(a.len() as int) == a@);
        assert(b@.take(b.len() as int) == b@);
    }
    true
}

/// The chain of variant tags under which an inner service sits inside the
/// outermost service, outermost first. The chain is shared, not copied, by
/// every holder of the mapper.
pub struct Mapper {
    links: Arc<Vec<u32>>,
}

impl View for Mapper {
    type V = Seq<u32>;

    closed spec fn view(&self) -> Seq<u32> {
        self.links@
    }
}

impl Mapper {
    /// The identity mapper: the inner service is the outer one.
    pub fn new() -> (r: Mapper)
        ensures
            r@ == Seq::<u32>::empty(),
    {
        Mapper { links: Arc::new(Vec::new()) }
    }

    /// Another handle on the same chain.
    pub fn share(&self) -> (r: Mapper)
        ensures
            r@ == self@,
    {
        Mapper { links: Arc::clone(&self.links) }
    }

    /// The chain extended by one link: the next inner service sits under the
    /// variant `link` of the current inner service.
    pub fn chain(&self, link: u32) -> (r: Mapper)
        ensures
            r@ == self@.push(link),
    {
        let mut links = concat(&self.links, &Vec::new());
        links.push(link);
        proof {
            assert(self@ + Seq::<u32>::empty() == self@);
        }
        Mapper { links: Arc::new(links) }
    }

    /// The tags of the chain, outermost first.
    pub fn links(&self) -> (r: &Vec<u32>)
        ensures
            r@ == self@,
    {
        &self.links
    }

    /// Converts an inner request into an outer request.
    pub fn req_into_outer<B>(&self, inner: Envelope<B>) -> (r: Envelope<B>)
        ensures
            r.route@ == inject(self@, inner.route@),
            r.body == inner.body,
    {
        let route = concat(&self.links, &inner.route);
        Envelope { route, body: inner.body }
    }

    /// Casts the outer value `env` to the value at `route` of the inner
    /// service, or gives it back when it is another value.
    pub fn downcast<B>(&self, route: &Vec<u32>, env: Envelope<B>) -> (r: Result<B, Envelope<B>>)
        ensures
            match downcast(self@, route@, env) {
                Some(body) => r == Ok::<B, Envelope<B>>(body),
                None => r == Err::<B, Envelope<B>>(env),
            },
    {
        match strip_prefix(&self.links, &env.route) {
            Some(rest) => {
                if same_route(&rest, route) {
                    Ok(env.body)
                } else {
                    Err(env)
                }
            },
            None => Err(env),
        }
    }

    /// Converts an outer response into an inner response, if it lies inside
    /// the inner service.
    pub fn res_try_into_inner<B>(&self, outer: Envelope<B>) -> (r: Option<Envelope<B>>)
        ensures
            r is Some <==> project(self@, outer.route@) is Some,
            r matches Some(inner) ==> project(self@, outer.route@) == Some(inner.route@)
                && inner.body == outer.body,
    {
        match strip_prefix(&self.links, &outer.route) {
            Some(route) => Some(Envelope { route, body: outer.body }),
            None => None,
        }
    }
}

/// The body of `env` if it is the value at `route` of the inner service that
/// `links` leads to.
pub open spec fn downcast<B>(links: Seq<u32>, route: Seq<u32>, env: Envelope<B>) -> Option<B> {
    if project(links, env.route@) == Some(route) {
        Some(env.body)
    } else {
        None
    }
}

/// Projection undoes injection.
pub proof fn lemma_project_inject(links: Seq<u32>, route: Seq<u32>)
    ensures
        project(links, inject(links, route)) == Some(route),
{
    assert((links + route).take(links.len() as int) =~= links);
    assert((links + route).skip(links.len() as int) =~= route);
}

/// Injection undoes a projection that succeeds.
pub proof fn lemma_inject_project(links: Seq<u32>, route: Seq<u32>)
    requires
        project(links, route) is Some,
    ensures
        inject(links, project(links, route)->Some_0) == route,
{
    assert(links + route.skip(links.len() as int) =~= route);
}

/// The identity mapper changes no route.
pub proof fn lemma_identity(route: Seq<u32>)
    ensures
        inject(Seq::empty(), route) == route,
        project(Seq::empty(), route) == Some(route),
{
    assert(Seq::<u32>::empty() + route =~= route);
    assert(route.skip(0) =~= route);
    assert(route.take(0) =~= Seq::<u32>::empty());
}

/// Mapping through a chain equals mapping through each part in turn, the
/// inner part first on the way out and last on the way in.
pub proof fn lemma_compose(outer: Seq<u32>, inner: Seq<u32>, route: Seq<u32>)
    ensures
        inject(outer + inner, route) == inject(outer, inject(inner, route)),
        project(outer + inner, route) == (match project(outer, route) {
            Some(mid) => project(inner, mid),
            None => None,
        }),
{
    assert((outer + inner) + route =~= outer + (inner + route));
    let n = outer.len() as int;
    let m = inner.len() as int;
    if project(outer + inner, route) is Some {
        assert(route.take(n + m).take(n) =~= route.take(n));
        assert((outer + inner).take(n) =~= outer);
        assert(route.skip(n).take(m) =~= route.take(n + m).skip(n));
        assert((outer + inner).skip(n) =~= inner);
        assert(route.skip(n).skip(m) =~= route.skip(n + m));
    } else if project(outer, route) is Some {
        let mid = route.skip(n);
        if project(inner, mid) is Some {
            assert(route.take(n + m) =~= route.take(n) + mid.take(m));
        }
    }
}

} // verus!
