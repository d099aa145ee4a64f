//! Content-negotiation utilities: the `Accept` and `Content-Type` request
//! headers, the media types a service supports, and the decisions that pick
//! the media type a request is answered in.

pub mod error;
pub mod header;
pub mod media;
pub mod payload;
pub mod text;

pub use error::Rejection;
pub use payload::Payload;

use core::marker::PhantomData;

use media::Either;
use vstd::prelude::*;

verus! {

/// # Content-negotiation **middleware**.
///
/// Builds a [Service] around a wrapped service; `S` is the service's state.
pub struct Layer<M, E, X, S> {
    state: S,
    supported_media: PhantomData<M>,
    conversion_error: PhantomData<E>,
    extraction_error: PhantomData<X>,
}

/// # Fallback-state.
///
/// Used to content-negotiate [Result::Err] via `fallback`.
pub struct WithFallback<F> {
    /// Fallback **media-type**.
    fallback: F,
}

impl<F> WithFallback<F> {
    pub closed spec fn spec_fallback(&self) -> F {
        self.fallback
    }

    pub fn fallback(&self) -> (r: &F)
        ensures
            *r == self.spec_fallback(),
    {
        &self.fallback
    }
}

impl<F: Clone> Clone for WithFallback<F> {
    fn clone(&self) -> (r: Self)
        ensures
            cloned(self.spec_fallback(), r.spec_fallback()),
    {
        WithFallback { fallback: self.fallback.clone() }
    }
}

impl<M, E, X, S> Layer<M, E, X, S> {
    pub closed spec fn spec_state(&self) -> S {
        self.state
    }

    pub fn state(&self) -> (r: &S)
        ensures
            *r == self.spec_state(),
    {
        &self.state
    }
}

impl<M, E, X> Layer<M, E, X, ()> {
    /// A layer whose services answer errors in the negotiated media.
    pub fn new() -> (r: Self)
        ensures
            r.spec_state() == (),
    {
        Self {
            state: (),
            supported_media: PhantomData,
            conversion_error: PhantomData,
            extraction_error: PhantomData,
        }
    }
}

impl<M, E, X, F> Layer<M, E, X, WithFallback<F>> {
    /// A layer whose services answer errors in `fallback`.
    pub fn with_fallback(fallback: F) -> (r: Self)
        ensures
            r.spec_state().spec_fallback() == fallback,
    {
        Self {
            state: WithFallback { fallback },
            supported_media: PhantomData,
            conversion_error: PhantomData,
            extraction_error: PhantomData,
        }
    }
}

impl<M, E, X, S: Clone> Clone for Layer<M, E, X, S> {
    fn clone(&self) -> (r: Self)
        ensures
            cloned(self.spec_state(), r.spec_state()),
    {
        Self {
            state: self.state.clone(),
            supported_media: PhantomData,
            conversion_error: PhantomData,
            extraction_error: PhantomData,
        }
    }
}

impl<M, E, X, F: Default> Default for Layer<M, E, X, WithFallback<F>> {
    /// A layer whose services answer errors in the default fallback.
    fn default() -> (r: Self)
        ensures
            call_ensures(F::default, (), r.spec_state().spec_fallback()),
    {
        Self::with_fallback(F::default())
    }
}

impl<M, E, X, S: Clone> Layer<M, E, X, S> {
    /// The service around `inner`, with a clone of this layer's state.
    pub fn layer<I>(&self, inner: I) -> (r: Service<I, M, E, X, S>)
        ensures
            r.spec_inner() == inner,
            cloned(self.spec_state(), r.spec_state()),
    {
        Service::new(inner, &self.state)
    }
}

/// # Content-negotiation **service**.
///
/// Negotiates the media of each request before the wrapped service `inner`
/// sees it, rejects what no supported media covers, and renders the wrapped
/// service's answer, success or error, in a negotiated media.
pub struct Service<I, M, E, X, S> {
    /// Arbitrary state.
    state: S,
    /// Wrapped middleware.
    inner: I,
    /// Supported **media-type**.
    supported_media: PhantomData<M>,
    /// Conversion error wrapper.
    conversion_error: PhantomData<E>,
    /// Extraction error wrapper.
    extraction_error: PhantomData<X>,
}

impl<I, M, E, X, S: Clone> Service<I, M, E, X, S> {
    pub fn new(inner: I, state: &S) -> (r: Self)
        ensures
            r.spec_inner() == inner,
            cloned(*state, r.spec_state()),
    {
        Self {
            state: state.clone(),
            inner,
            supported_media: PhantomData,
            conversion_error: PhantomData,
            extraction_error: PhantomData,
        }
    }
}

impl<I: Clone, M, E, X, S: Clone> Clone for Service<I, M, E, X, S> {
    fn clone(&self) -> (r: Self)
        ensures
            cloned(self.spec_inner(), r.spec_inner()),
            cloned(self.spec_state(), r.spec_state()),
    {
        Self {
            state: self.state.clone(),
            inner: self.inner.clone(),
            supported_media: PhantomData,
            conversion_error: PhantomData,
            extraction_error: PhantomData,
        }
    }
}

impl<I, M, E, X, S> Service<I, M, E, X, S> {
    pub closed spec fn spec_inner(&self) -> I {
        self.inner
    }

    pub closed spec fn spec_state(&self) -> S {
        self.state
    }

    pub fn inner(&self) -> (r: &I)
        ensures
            *r == self.spec_inner(),
    {
        &self.inner
    }

    pub fn inner_mut(&mut self) -> (r: &mut I)
        ensures
            *r == old(self).spec_inner(),
            final(self).spec_inner() == *final(r),
            final(self).spec_state() == old(self).spec_state(),
    {
        &mut self.inner
    }

    pub fn state(&self) -> (r: &S)
        ensures
            *r == self.spec_state(),
    {
        &self.state
    }

    /// Readiness of the service: the wrapped service's, its error as the
    /// first kind of error.
    pub fn readiness<Er, R>(ready: Result<(), Er>) -> (r: Result<(), Either<Er, R>>)
        ensures
            ready is Ok ==> r is Ok,
            ready matches Err(e) ==> r == Err::<(), Either<Er, R>>(Either::First(e)),
    {
        match ready {
            Ok(()) => Ok(()),
            Err(e) => Err(Either::First(e)),
        }
    }

    /// What follows the media negotiation of a request: the wrapped service
    /// is called with the negotiated media, or the request is refused with
    /// the negotiation's rejection as the second kind of error, and the
    /// wrapped service never sees it.
    pub fn proceed<Er, R>(negotiated: Result<M, R>) -> (r: Result<M, Either<Er, R>>)
        ensures
            negotiated matches Ok(m) ==> r == Ok::<M, Either<Er, R>>(m),
            negotiated matches Err(e) ==> r == Err::<M, Either<Er, R>>(Either::Second(e)),
    {
        match negotiated {
            Ok(m) => Ok(m),
            Err(e) => Err(Either::Second(e)),
        }
    }
}

impl<I, M, E, X> Service<I, M, E, X, ()> {
    /// The wrapped service's answer with the media it is rendered in: the
    /// negotiated `media`, for a success and for an error alike.
    pub fn render<Re, Er>(media: M, outcome: Result<Re, Er>) -> (r: Either<(Re, M), (Er, M)>)
        ensures
            outcome matches Ok(v) ==> r == Either::<(Re, M), (Er, M)>::First((v, media)),
            outcome matches Err(e) ==> r == Either::<(Re, M), (Er, M)>::Second((e, media)),
    {
        match outcome {
            Ok(v) => Either::First((v, media)),
            Err(e) => Either::Second((e, media)),
        }
    }
}

impl<I, M, E, X, F> Service<I, M, E, X, WithFallback<F>> {
    /// The wrapped service's answer with the media it is rendered in: a
    /// success in the negotiated `media`, an error in the `fallback`.
    pub fn render<Re, Er>(fallback: F, media: M, outcome: Result<Re, Er>) -> (r: Either<
        (Re, M),
        (Er, F),
    >)
        ensures
            outcome matches Ok(v) ==> r == Either::<(Re, M), (Er, F)>::First((v, media)),
            outcome matches Err(e) ==> r == Either::<(Re, M), (Er, F)>::Second((e, fallback)),
    {
        match outcome {
            Ok(v) => Either::First((v, media)),
            Err(e) => Either::Second((e, fallback)),
        }
    }
}

} // verus!
