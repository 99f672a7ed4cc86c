use vstd::prelude::*;

use crate::poll::{Poll, Pollable};

verus! {

/// An asynchronous function from a request to a response: a readiness check, and a call
/// that starts an in-flight result.
///
/// As with `Pollable`, the spec functions default to `true` for implementations written outside
/// verified code.
pub trait Service<Req>: Sized {
    type Response;

    type Error;

    type Future: Pollable<Output = Result<Self::Response, Self::Error>>;

    /// The service is in a state in which it may be checked and called.
    open spec fn inv(&self) -> bool {
        true
    }

    /// `r` is an outcome that a readiness check may give, taking the service from `pre` to `post`.
    open spec fn ready_polled(pre: Self, post: Self, r: Poll<Result<(), Self::Error>>) -> bool {
        true
    }

    /// `fut` is an in-flight result that a call with `req` may start, taking the service
    /// from `pre` to `post`.
    open spec fn called(pre: Self, post: Self, req: Req, fut: Self::Future) -> bool {
        true
    }

    fn poll_ready(&mut self, cx: &mut std::task::Context<'_>) -> (r: Poll<Result<(), Self::Error>>)
        requires
            old(self).inv(),
        ensures
            final(self).inv(),
            Self::ready_polled(*old(self), *final(self), r),
    ;

    fn call(&mut self, req: Req) -> (fut: Self::Future)
        requires
            old(self).inv(),
        ensures
            final(self).inv(),
            Self::called(*old(self), *final(self), req, fut),
            fut.resumable(),
    ;
}

/// A maker of services: from a configuration, an in-flight construction of a service.
///
/// As with `Pollable`, the spec function defaults to `true` for implementations written outside
/// verified code.
pub trait ServiceFactory<Req>: Sized {
    type Response;

    type Error;

    type Config;

    type Service: Service<Req, Response = Self::Response, Error = Self::Error>;

    type InitError;

    type Future: Pollable<Output = Result<Self::Service, Self::InitError>>;

    /// `fut` is an in-flight construction that this factory may start from `cfg`.
    open spec fn constructs(&self, cfg: Self::Config, fut: Self::Future) -> bool {
        true
    }

    fn new_service(&self, cfg: Self::Config) -> (fut: Self::Future)
        ensures
            self.constructs(cfg, fut),
            fut.resumable(),
    ;
}

} // verus!
