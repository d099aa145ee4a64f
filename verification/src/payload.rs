//! Provides *generic* **request body** extractor [Payload].

use core::marker::PhantomData;

use crate::media::Either;
use vstd::prelude::*;

verus! {

/// # *Generic* **HTTP** request **body** payload.
///
/// The value deserialized from a request body whose `Content-Type` was
/// negotiated into the supported `M`.
pub struct Payload<T, M, E, X> {
    /// Deserialized value.
    value: T,
    /// *Supported* payload **media-type**.
    supported_media: PhantomData<M>,
    /// Conversion error wrapper.
    conversion_error: PhantomData<E>,
    /// Extraction error wrapper.
    extraction_error: PhantomData<X>,
}

impl<T, M, E, X> Payload<T, M, E, X> {
    /// The deserialized value.
    pub closed spec fn spec_value(&self) -> T {
        self.value
    }

    pub fn new(value: T) -> (r: Self)
        ensures
            r.spec_value() == value,
    {
        Self {
            value,
            supported_media: PhantomData,
            conversion_error: PhantomData,
            extraction_error: PhantomData,
        }
    }

    pub fn into_inner(self) -> (r: T)
        ensures
            r == self.spec_value(),
    {
        self.value
    }

    /// What follows the media negotiation of a request body: the body is
    /// read in the negotiated media, or the request is refused with the
    /// negotiation's rejection as the first kind of error, its body unread.
    pub fn proceed<R, B>(negotiated: Result<M, R>) -> (r: Result<M, Either<R, B>>)
        ensures
            negotiated matches Ok(m) ==> r == Ok::<M, Either<R, B>>(m),
            negotiated matches Err(e) ==> r == Err::<M, Either<R, B>>(Either::First(e)),
    {
        match negotiated {
            Ok(m) => Ok(m),
            Err(e) => Err(Either::First(e)),
        }
    }

    /// The payload from what reading the body gave: its value, or the
    /// reader's rejection as the second kind of error.
    pub fn conclude<R, B>(body: Result<T, B>) -> (r: Result<Self, Either<R, B>>)
        ensures
            body matches Ok(v) ==> r matches Ok(p) && p.spec_value() == v,
            body matches Err(b) ==> r matches Err(e) && e == Either::<R, B>::Second(b),
    {
        match body {
            Ok(v) => Ok(Self::new(v)),
            Err(b) => Err(Either::Second(b)),
        }
    }

    /// The deserialized value, by reference.
    pub fn value(&self) -> (r: &T)
        ensures
            *r == self.spec_value(),
    {
        &self.value
    }

    /// The deserialized value, by mutable reference.
    pub fn value_mut(&mut self) -> (r: &mut T)
        ensures
            *r == old(self).spec_value(),
            final(self).spec_value() == *final(r),
    {
        &mut self.value
    }
}

} // verus!
