use std::convert::Infallible;
use std::marker::PhantomData;

use vstd::prelude::*;

use crate::service::Readiness;

verus! {

/// Creates a service from a handler function.
///
/// Invoking the service hands the request to `f` and returns what `f`
/// returns, unchanged.
pub fn service_fn<F, R, S>(f: F) -> (r: ServiceFn<F, R>)
    where
        F: FnMut(R) -> S,
    ensures
        r.handler() == f,
{
    ServiceFn { f, _req: PhantomData }
}

/// Creates a service that responds by cloning the value.
pub fn shared<T>(value: T) -> (r: Shared<T>)
    ensures
        r.held() == value,
{
    Shared { value }
}

/// Service returned by [`service_fn`].
pub struct ServiceFn<F, R> {
    f: F,
    _req: PhantomData<R>,
}

/// Service returned by [`shared`].
#[derive(Debug)]
pub struct Shared<T> {
    value: T,
}

impl<F, R> ServiceFn<F, R> {
    /// The handler that requests are handed to.
    pub closed spec fn handler(self) -> F {
        self.f
    }
}

impl<T> Shared<T> {
    /// The value that every response is cloned from.
    pub closed spec fn held(self) -> T {
        self.value
    }
}

impl<F, R, S> ServiceFn<F, R> where F: FnMut(R) -> S {
    /// A handler-backed service imposes no backpressure of its own.
    pub fn poll_ready(&mut self) -> (r: Readiness<Infallible>)
        ensures
            r is Ready,
            *final(self) == *old(self),
    {
        Readiness::Ready
    }

    /// Hands the request to the handler and returns its result unmodified.
    pub fn call(&mut self, req: R) -> (r: S)
        requires
            call_requires(old(self).handler(), (req,)),
        ensures
            call_ensures(old(self).handler(), (req,), r),
    {
        (self.f)(req)
    }
}

impl<F, R> ServiceFn<F, R> {
    /// How the service describes itself: a handler has nothing to show.
    pub fn describe(&self) -> (r: String)
        ensures
            r@ == "impl Service"@,
    {
        proof {
            reveal_strlit("impl Service");
        }
        String::from_str("impl Service")
    }
}

impl<F: Clone, R> Clone for ServiceFn<F, R> {
    fn clone(&self) -> (r: Self)
        ensures
            cloned(self.handler(), r.handler()),
    {
        ServiceFn { f: self.f.clone(), _req: PhantomData }
    }
}

impl<T: Clone> Clone for Shared<T> {
    fn clone(&self) -> (r: Self)
        ensures
            cloned(self.held(), r.held()),
    {
        Shared { value: self.value.clone() }
    }
}

impl<F: Copy, R> Copy for ServiceFn<F, R> {}

impl<T: Clone> Shared<T> {
    /// Never pushes back: every request can be answered at once.
    pub fn poll_ready(&mut self) -> (r: Readiness<Infallible>)
        ensures
            r is Ready,
            *final(self) == *old(self),
    {
        Readiness::Ready
    }

    /// Ignores the request and answers with a clone of the held value; the
    /// answer is never an error.
    pub fn call<Req>(&mut self, _req: Req) -> (r: Result<T, Infallible>)
        ensures
            r is Ok,
            cloned(old(self).held(), r->Ok_0),
            *final(self) == *old(self),
    {
        Ok(self.value.clone())
    }
}

} // verus!
