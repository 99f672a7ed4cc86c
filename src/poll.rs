use vstd::prelude::*;

verus! {

/// The state of one resumption step of an asynchronous operation.
#[derive(Clone, Copy, Debug, PartialEq, Eq)]
pub enum Poll<T> {
    /// The operation has produced its terminal value.
    Ready(T),
    /// The operation is not finished; the wake-up handle has been registered.
    Pending,
}

/// The wake-up handle that a scheduler hands to each resumption step.
#[verifier::external_type_specification]
#[verifier::external_body]
pub struct ExContext<'a>(std::task::Context<'a>);

/// An asynchronous operation that a scheduler drives by repeated polling.
///
/// The spec functions default to `true`, which lets an implementation written outside verified
/// code leave them out; a verified implementation defines them and is held to `poll`'s contract.
pub trait Pollable: Sized {
    type Output;

    /// The operation has not yet produced its terminal value, so it may be polled.
    open spec fn resumable(&self) -> bool {
        true
    }

    /// `r` is an outcome that one poll may give, taking the operation from `pre` to `post`.
    open spec fn polled(pre: Self, post: Self, r: Poll<Self::Output>) -> bool {
        true
    }

    fn poll(&mut self, cx: &mut std::task::Context<'_>) -> (r: Poll<Self::Output>)
        requires
            old(self).resumable(),
        ensures
            Self::polled(*old(self), *final(self), r),
            r is Pending ==> final(self).resumable(),
            r is Ready ==> !final(self).resumable(),
    ;
}

} // verus!
