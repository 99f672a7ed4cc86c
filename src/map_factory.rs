use vstd::prelude::*;

use std::marker::PhantomData;

use crate::map::{accepts_every, MapService};
use crate::service::Service;
use crate::poll::{Poll, Pollable};
use crate::service::ServiceFactory;

verus! {

/// `out` is what a construction gives when the wrapped construction gave `inner`, with `slot`
/// holding the function before and `rest` after: a constructed service is wrapped with the
/// function, which leaves the slot; an error goes through unchanged; a pending state keeps the slot.
pub open spec fn assembled<S, E, F, Req, Res>(
    slot: Option<F>,
    rest: Option<F>,
    inner: Poll<Result<S, E>>,
    out: Poll<Result<MapService<S, F, Req, Res>, E>>,
) -> bool {
    match inner {
        Poll::Pending => out is Pending && rest == slot,
        Poll::Ready(Err(e)) => out == Poll::<Result<MapService<S, F, Req, Res>, E>>::Ready(Err(e)),
        Poll::Ready(Ok(s)) => match out {
            Poll::Ready(Ok(m)) => {
                &&& m.inner() == s
                &&& slot == Some(m.func())
                &&& rest is None
            },
            _ => false,
        },
    }
}

/// A factory whose services change the type of the wrapped factory's services' responses with
/// a function.
pub struct MapServiceFactory<A, F, Req, Res> {
    a: A,
    f: F,
    r: PhantomData<(Res, Req)>,
}

impl<A, F, Req, Res> MapServiceFactory<A, F, Req, Res> {
    /// The wrapped factory.
    pub closed spec fn inner(&self) -> A {
        self.a
    }

    /// The function with which each constructed service is seeded.
    pub closed spec fn func(&self) -> F {
        self.f
    }

    /// Wraps `a`, seeding each service it constructs with `f`.
    pub fn new(a: A, f: F) -> (r: Self) where A: ServiceFactory<Req>, F: FnMut(A::Response) -> Res
        ensures
            r.inner() == a,
            r.func() == f,
    {
        Self { a, f, r: PhantomData }
    }
}

impl<A, F, Req, Res> Clone for MapServiceFactory<A, F, Req, Res> where A: Clone, F: Clone {
    /// An independent copy, with its own copies of the wrapped factory and the function.
    fn clone(&self) -> (r: Self)
        ensures
            cloned(self.inner(), r.inner()),
            cloned(self.func(), r.func()),
    {
        Self { a: self.a.clone(), f: self.f.clone(), r: PhantomData }
    }
}

impl<A, F, Req, Res> ServiceFactory<Req> for MapServiceFactory<A, F, Req, Res> where
    A: ServiceFactory<Req>,
    F: FnMut(A::Response) -> Res + Clone,
 {
    type Response = Res;

    type Error = A::Error;

    type Config = A::Config;

    type Service = MapService<A::Service, F, Req, Res>;

    type InitError = A::InitError;

    type Future = MapServiceFuture<A, F, Req, Res>;

    open spec fn constructs(&self, cfg: A::Config, fut: MapServiceFuture<A, F, Req, Res>) -> bool {
        &&& self.inner().constructs(cfg, fut.pending())
        &&& fut.slot() matches Some(g) && cloned(self.func(), g)
    }

    fn new_service(&self, cfg: A::Config) -> (fut: MapServiceFuture<A, F, Req, Res>) {
        MapServiceFuture::new(self.a.new_service(cfg), self.f.clone())
    }
}

/// The in-flight construction of a `MapService`: the wrapped factory's in-flight construction,
/// and a slot that holds the function until the service is built.
#[verifier::reject_recursive_types(A)]
#[verifier::reject_recursive_types(F)]
#[verifier::reject_recursive_types(Req)]
#[verifier::reject_recursive_types(Res)]
pub struct MapServiceFuture<A, F, Req, Res> where
    A: ServiceFactory<Req>,
    F: FnMut(A::Response) -> Res,
 {
    fut: A::Future,
    f: Option<F>,
}

impl<A, F, Req, Res> MapServiceFuture<A, F, Req, Res> where
    A: ServiceFactory<Req>,
    F: FnMut(A::Response) -> Res,
 {
    /// The wrapped in-flight construction.
    pub closed spec fn pending(&self) -> A::Future {
        self.fut
    }

    /// The function, while it has not yet gone into a constructed service.
    pub closed spec fn slot(&self) -> Option<F> {
        self.f
    }

    /// Holds `fut`, with `f` in the slot until the service is built.
    pub fn new(fut: A::Future, f: F) -> (r: Self)
        ensures
            r.pending() == fut,
            r.slot() == Some(f),
    {
        MapServiceFuture { f: Some(f), fut }
    }
}

impl<A, F, Req, Res> Pollable for MapServiceFuture<A, F, Req, Res> where
    A: ServiceFactory<Req>,
    F: FnMut(A::Response) -> Res,
 {
    type Output = Result<MapService<A::Service, F, Req, Res>, A::InitError>;

    open spec fn resumable(&self) -> bool {
        &&& self.pending().resumable()
        &&& self.slot() is Some
    }

    open spec fn polled(
        pre: Self,
        post: Self,
        r: Poll<Result<MapService<A::Service, F, Req, Res>, A::InitError>>,
    ) -> bool {
        exists|inner: Poll<Result<A::Service, A::InitError>>|
            <A::Future as Pollable>::polled(pre.pending(), post.pending(), inner)
                && #[trigger] assembled(pre.slot(), post.slot(), inner, r)
    }

    fn poll(&mut self, cx: &mut std::task::Context<'_>) -> (r: Poll<
        Result<MapService<A::Service, F, Req, Res>, A::InitError>,
    >) {
        let ghost pre = *self;
        let inner = self.fut.poll(cx);
        let ghost g = inner;
        let r = match inner {
            Poll::Ready(Ok(svc)) => {
                let f = self.f.take().unwrap();
                Poll::Ready(Ok(MapService::new(svc, f)))
            },
            Poll::Ready(Err(e)) => Poll::Ready(Err(e)),
            Poll::Pending => Poll::Pending,
        };
        assert(assembled(pre.slot(), self.slot(), g, r));
        r
    }
}

/// A construction propagates: when the wrapped construction can only resolve to `Ok(s)`, the
/// mapped one resolves to `Ok(m)`, where `m` wraps `s` with the function that the slot held and
/// the slot is left empty. Where `s` is well formed and the function accepts every response, so
/// is `m`, and the laws of `MapService` and `MapFuture` then hold of its calls.
pub proof fn lemma_construction_propagated<A, F, Req, Res>(
    pre: MapServiceFuture<A, F, Req, Res>,
    post: MapServiceFuture<A, F, Req, Res>,
    r: Poll<Result<MapService<A::Service, F, Req, Res>, A::InitError>>,
    s: A::Service,
) where A: ServiceFactory<Req>, F: FnMut(A::Response) -> Res + Clone
    requires
        MapServiceFuture::polled(pre, post, r),
        forall|o: Poll<Result<A::Service, A::InitError>>|
            #[trigger] <A::Future as Pollable>::polled(pre.pending(), post.pending(), o) ==> o
                == Poll::<Result<A::Service, A::InitError>>::Ready(Ok(s)),
    ensures
        r matches Poll::Ready(Ok(m)) && {
            &&& m.inner() == s
            &&& pre.slot() == Some(m.func())
            &&& (s.inv() && accepts_every::<A::Response, Res, F>()) ==> m.inv()
        },
        post.slot() is None,
{
    let inner = choose|inner: Poll<Result<A::Service, A::InitError>>|
        <A::Future as Pollable>::polled(pre.pending(), post.pending(), inner) && #[trigger] assembled(
            pre.slot(),
            post.slot(),
            inner,
            r,
        );
    assert(inner == Poll::<Result<A::Service, A::InitError>>::Ready(Ok(s)));
}

/// A construction failure passes through: when the wrapped construction can only resolve to
/// `Err(e)`, the mapped one resolves to the same `Err(e)`.
pub proof fn lemma_construction_failure_pass_through<A, F, Req, Res>(
    pre: MapServiceFuture<A, F, Req, Res>,
    post: MapServiceFuture<A, F, Req, Res>,
    r: Poll<Result<MapService<A::Service, F, Req, Res>, A::InitError>>,
    e: A::InitError,
) where A: ServiceFactory<Req>, F: FnMut(A::Response) -> Res
    requires
        MapServiceFuture::polled(pre, post, r),
        forall|o: Poll<Result<A::Service, A::InitError>>|
            #[trigger] <A::Future as Pollable>::polled(pre.pending(), post.pending(), o) ==> o
                == Poll::<Result<A::Service, A::InitError>>::Ready(Err(e)),
    ensures
        r == Poll::<Result<MapService<A::Service, F, Req, Res>, A::InitError>>::Ready(Err(e)),
{
    let inner = choose|inner: Poll<Result<A::Service, A::InitError>>|
        <A::Future as Pollable>::polled(pre.pending(), post.pending(), inner) && #[trigger] assembled(
            pre.slot(),
            post.slot(),
            inner,
            r,
        );
    assert(inner == Poll::<Result<A::Service, A::InitError>>::Ready(Err(e)));
}

} // verus!
