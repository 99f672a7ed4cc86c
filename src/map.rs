use vstd::prelude::*;

use std::marker::PhantomData;

use crate::poll::{Poll, Pollable};
use crate::service::Service;

verus! {

/// Every function of type `F` may be applied to every value of type `T`.
pub open spec fn accepts_every<T, U, F: FnMut(T) -> U>() -> bool {
    forall|g: F, x: T| #[trigger] call_requires(g, (x,))
}

/// `out` is what the mapping of a polled outcome gives when the wrapped operation gave `inner`:
/// a success goes through `f`, an error and a pending state go through unchanged.
pub open spec fn mapped<T, E, U, F: FnMut(T) -> U>(
    f: F,
    inner: Poll<Result<T, E>>,
    out: Poll<Result<U, E>>,
) -> bool {
    match inner {
        Poll::Pending => out is Pending,
        Poll::Ready(Err(e)) => out == Poll::<Result<U, E>>::Ready(Err(e)),
        Poll::Ready(Ok(v)) => match out {
            Poll::Ready(Ok(y)) => call_ensures(f, (v,), y),
            _ => false,
        },
    }
}

/// A service that changes the type of the wrapped service's response with a function.
pub struct MapService<A, F, Req, Res> {
    service: A,
    f: F,
    _t: PhantomData<(Req, Res)>,
}

impl<A, F, Req, Res> MapService<A, F, Req, Res> {
    /// The wrapped service.
    pub closed spec fn inner(&self) -> A {
        self.service
    }

    /// The function applied to each response.
    pub closed spec fn func(&self) -> F {
        self.f
    }

    /// Wraps `service`, applying `f` to each of its responses.
    pub fn new(service: A, f: F) -> (r: Self) where A: Service<Req>, F: FnMut(A::Response) -> Res
        ensures
            r.inner() == service,
            r.func() == f,
    {
        Self { service, f, _t: PhantomData }
    }
}

impl<A, F, Req, Res> Clone for MapService<A, F, Req, Res> where A: Clone, F: Clone {
    /// An independent copy, with its own copies of the wrapped service and the function.
    fn clone(&self) -> (r: Self)
        ensures
            cloned(self.inner(), r.inner()),
            cloned(self.func(), r.func()),
    {
        MapService { service: self.service.clone(), f: self.f.clone(), _t: PhantomData }
    }
}

impl<A, F, Req, Res> Service<Req> for MapService<A, F, Req, Res> where
    A: Service<Req>,
    F: FnMut(A::Response) -> Res + Clone,
 {
    type Response = Res;

    type Error = A::Error;

    type Future = MapFuture<A, F, Req, Res>;

    open spec fn inv(&self) -> bool {
        &&& self.inner().inv()
        &&& accepts_every::<A::Response, Res, F>()
    }

    open spec fn ready_polled(pre: Self, post: Self, r: Poll<Result<(), A::Error>>) -> bool {
        &&& A::ready_polled(pre.inner(), post.inner(), r)
        &&& post.func() == pre.func()
    }

    open spec fn called(pre: Self, post: Self, req: Req, fut: MapFuture<A, F, Req, Res>) -> bool {
        &&& A::called(pre.inner(), post.inner(), req, fut.pending())
        &&& post.func() == pre.func()
        &&& cloned(pre.func(), fut.func())
    }

    fn poll_ready(&mut self, cx: &mut std::task::Context<'_>) -> (r: Poll<Result<(), A::Error>>) {
        self.service.poll_ready(cx)
    }

    fn call(&mut self, req: Req) -> (fut: MapFuture<A, F, Req, Res>) {
        let inner = self.service.call(req);
        MapFuture::new(inner, self.f.clone())
    }
}

/// The in-flight result of a call on a `MapService`: the wrapped service's in-flight result and
/// the function to apply to its success.
#[verifier::reject_recursive_types(A)]
#[verifier::reject_recursive_types(F)]
#[verifier::reject_recursive_types(Req)]
#[verifier::reject_recursive_types(Res)]
pub struct MapFuture<A, F, Req, Res> where A: Service<Req>, F: FnMut(A::Response) -> Res {
    f: F,
    fut: A::Future,
}

impl<A, F, Req, Res> MapFuture<A, F, Req, Res> where
    A: Service<Req>,
    F: FnMut(A::Response) -> Res,
 {
    /// The wrapped in-flight result.
    pub closed spec fn pending(&self) -> A::Future {
        self.fut
    }

    /// The function applied to a success.
    pub closed spec fn func(&self) -> F {
        self.f
    }

    /// Holds `fut`, to apply `f` to its success.
    pub fn new(fut: A::Future, f: F) -> (r: Self)
        ensures
            r.pending() == fut,
            r.func() == f,
    {
        MapFuture { f, fut }
    }
}

impl<A, F, Req, Res> Pollable for MapFuture<A, F, Req, Res> where
    A: Service<Req>,
    F: FnMut(A::Response) -> Res,
 {
    type Output = Result<Res, A::Error>;

    open spec fn resumable(&self) -> bool {
        &&& self.pending().resumable()
        &&& accepts_every::<A::Response, Res, F>()
    }

    open spec fn polled(pre: Self, post: Self, r: Poll<Result<Res, A::Error>>) -> bool {
        &&& post.func() == pre.func()
        &&& exists|inner: Poll<Result<A::Response, A::Error>>|
            <A::Future as Pollable>::polled(pre.pending(), post.pending(), inner)
                && #[trigger] mapped(pre.func(), inner, r)
    }

    fn poll(&mut self, cx: &mut std::task::Context<'_>) -> (r: Poll<Result<Res, A::Error>>) {
        let ghost pre = *self;
        let inner = self.fut.poll(cx);
        let ghost g = inner;
        let r = match inner {
            Poll::Ready(Ok(resp)) => Poll::Ready(Ok((self.f)(resp))),
            Poll::Ready(Err(e)) => Poll::Ready(Err(e)),
            Poll::Pending => Poll::Pending,
        };
        assert(mapped(pre.func(), g, r));
        r
    }
}

/// Readiness passes through: a readiness check of a `MapService` may give exactly the outcomes
/// that the wrapped service's check may give, whatever the function, and leaves the function as
/// it was.
pub proof fn lemma_readiness_pass_through<A, F, Req, Res>(
    pre: MapService<A, F, Req, Res>,
    post: MapService<A, F, Req, Res>,
    r: Poll<Result<(), A::Error>>,
) where A: Service<Req>, F: FnMut(A::Response) -> Res + Clone
    ensures
        <MapService<A, F, Req, Res> as Service<Req>>::ready_polled(pre, post, r) <==> (
        A::ready_polled(pre.inner(), post.inner(), r) && post.func() == pre.func()),
{
}

/// A success is transformed: when the wrapped in-flight result can only resolve to `Ok(v)`, the
/// mapped one resolves to `Ok(y)` for a value `y` that the function gives for `v`.
pub proof fn lemma_success_transformed<A, F, Req, Res>(
    pre: MapFuture<A, F, Req, Res>,
    post: MapFuture<A, F, Req, Res>,
    r: Poll<Result<Res, A::Error>>,
    v: A::Response,
) where A: Service<Req>, F: FnMut(A::Response) -> Res
    requires
        MapFuture::polled(pre, post, r),
        forall|o: Poll<Result<A::Response, A::Error>>|
            #[trigger] <A::Future as Pollable>::polled(pre.pending(), post.pending(), o) ==> o
                == Poll::<Result<A::Response, A::Error>>::Ready(Ok(v)),
    ensures
        r matches Poll::Ready(Ok(y)) && call_ensures(pre.func(), (v,), y),
{
    let inner = choose|inner: Poll<Result<A::Response, A::Error>>|
        <A::Future as Pollable>::polled(pre.pending(), post.pending(), inner) && #[trigger] mapped(
            pre.func(),
            inner,
            r,
        );
    assert(inner == Poll::<Result<A::Response, A::Error>>::Ready(Ok(v)));
}

/// An error passes through: when the wrapped in-flight result can only resolve to `Err(e)`, the
/// mapped one resolves to the same `Err(e)`, and the function is left as it was.
pub proof fn lemma_error_pass_through<A, F, Req, Res>(
    pre: MapFuture<A, F, Req, Res>,
    post: MapFuture<A, F, Req, Res>,
    r: Poll<Result<Res, A::Error>>,
    e: A::Error,
) where A: Service<Req>, F: FnMut(A::Response) -> Res
    requires
        MapFuture::polled(pre, post, r),
        forall|o: Poll<Result<A::Response, A::Error>>|
            #[trigger] <A::Future as Pollable>::polled(pre.pending(), post.pending(), o) ==> o
                == Poll::<Result<A::Response, A::Error>>::Ready(Err(e)),
    ensures
        r == Poll::<Result<Res, A::Error>>::Ready(Err(e)),
        post.func() == pre.func(),
{
    let inner = choose|inner: Poll<Result<A::Response, A::Error>>|
        <A::Future as Pollable>::polled(pre.pending(), post.pending(), inner) && #[trigger] mapped(
            pre.func(),
            inner,
            r,
        );
    assert(inner == Poll::<Result<A::Response, A::Error>>::Ready(Err(e)));
}

/// The function is applied at most once per poll, and only to a success: a mapped success is one
/// value of the function on a success of the wrapped result, any other outcome is the wrapped
/// one as it came, and the function is left as it was. (Once a poll gives `Ready`, the in-flight
/// result is no longer resumable, so no later poll applies it again.)
pub proof fn lemma_single_application<A, F, Req, Res>(
    pre: MapFuture<A, F, Req, Res>,
    post: MapFuture<A, F, Req, Res>,
    r: Poll<Result<Res, A::Error>>,
) where A: Service<Req>, F: FnMut(A::Response) -> Res
    requires
        MapFuture::polled(pre, post, r),
    ensures
        post.func() == pre.func(),
        r matches Poll::Ready(Ok(y)) ==> exists|v: A::Response|
            <A::Future as Pollable>::polled(
                pre.pending(),
                post.pending(),
                Poll::Ready(Ok(v)),
            ) && #[trigger] call_ensures(pre.func(), (v,), y),
        r matches Poll::Ready(Err(e)) ==> <A::Future as Pollable>::polled(
            pre.pending(),
            post.pending(),
            Poll::Ready(Err(e)),
        ),
        r is Pending ==> <A::Future as Pollable>::polled(
            pre.pending(),
            post.pending(),
            Poll::Pending,
        ),
{
    let inner = choose|inner: Poll<Result<A::Response, A::Error>>|
        <A::Future as Pollable>::polled(pre.pending(), post.pending(), inner) && #[trigger] mapped(
            pre.func(),
            inner,
            r,
        );
    if let Poll::Ready(Ok(v)) = inner {
        assert(call_ensures(pre.func(), (v,), r->Ready_0->Ok_0));
    }
}

} // verus!
