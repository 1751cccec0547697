//! The middleware that the backend contributes to a worker: none of its own.
//!
//! Messages are acknowledged when they are handed to the worker, so nothing
//! is left to do when a task completes. The layer is the place where a caller
//! may put such a stage; as it stands it passes every request through.

use vstd::prelude::*;

verus! {

/// Layer of the backend. It wraps a service without adding to it.
#[derive(Debug, Clone, Copy, Default)]
pub struct PubSubLayer;

/// A service wrapped by `PubSubLayer`: the inner service and nothing else.
#[derive(Debug, Clone)]
pub struct PubSubService<S> {
    inner: S,
}

impl PubSubLayer {
    /// Wraps `service`.
    pub fn layer<S>(&self, service: S) -> (wrapped: PubSubService<S>)
        ensures
            wrapped.inner() == service,
    {
        PubSubService { inner: service }
    }
}

impl<S> PubSubService<S> {
    /// The service that requests are passed to.
    pub closed spec fn inner(&self) -> S {
        self.inner
    }

    /// The inner service, to ask it whether it is ready.
    pub fn get_ref(&self) -> (inner: &S)
        ensures
            *inner == self.inner(),
    {
        &self.inner
    }

    /// The inner service, to pass a request to it.
    pub fn get_mut(&mut self) -> (inner: &mut S)
        ensures
            *inner == old(self).inner(),
            final(self).inner() == *final(inner),
    {
        &mut self.inner
    }

    /// Takes the wrapping off again.
    pub fn into_inner(self) -> (inner: S)
        ensures
            inner == self.inner(),
    {
        self.inner
    }
}

} // verus!
