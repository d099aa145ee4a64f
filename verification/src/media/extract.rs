//! Provides **media-type** [Extractor].

use core::marker::PhantomData;

use super::{FromType, Type};
use crate::header;
use crate::media;
use vstd::prelude::*;

verus! {

/// # **Media-type** extractor.
///
/// Holds the media negotiated from the `H` header: the header's media type
/// converted into a supported `M`.
pub struct Extractor<M, E, X = E, H = header::Accept> {
    media: M,
    header: PhantomData<H>,
    extraction_error: PhantomData<X>,
    conversion_error: PhantomData<E>,
}

/// Why no media could be negotiated.
pub enum Rejection<E, X> {
    /// The header's media type is not supported.
    Media(E),
    /// The header is missing or malformed.
    Header(X),
}

impl<M, E, X, H> Extractor<M, E, X, H> {
    /// The negotiated media.
    pub closed spec fn spec_media(&self) -> M {
        self.media
    }

    pub fn new(media: M) -> (r: Self)
        ensures
            r.spec_media() == media,
    {
        Self {
            media,
            header: PhantomData,
            extraction_error: PhantomData,
            conversion_error: PhantomData,
        }
    }

    pub fn into_inner(self) -> (r: M)
        ensures
            r == self.spec_media(),
    {
        self.media
    }

    /// The negotiated media, by reference.
    pub fn media(&self) -> (r: &M)
        ensures
            *r == self.spec_media(),
    {
        &self.media
    }
}

impl<M: Clone, E, X, H> Clone for Extractor<M, E, X, H> {
    fn clone(&self) -> (r: Self)
        ensures
            cloned(self.spec_media(), r.spec_media()),
    {
        Self::new(self.media.clone())
    }
}

impl<M: FromType, E, X, H> Extractor<M, E, X, H> {
    /// Negotiates the media from what reading the header gave: its media
    /// type, or the reader's rejection `R`.
    pub fn negotiate<R>(header: Result<Type, R>) -> (r: Result<
        Self,
        Rejection<media::Rejection<M>, R>,
    >)
        ensures
            r matches Ok(x) ==> header matches Ok(t) && M::spec_try_from(t@) == Some(
                x.spec_media(),
            ),
            r matches Err(Rejection::Media(e)) ==> header matches Ok(t) && M::spec_try_from(
                t@,
            ) is None && e@ == t@,
            r matches Err(Rejection::Header(h)) ==> header == Err::<Type, R>(h),
            r is Ok <==> (header matches Ok(t) && M::spec_try_from(t@) is Some),
            header is Err ==> r matches Err(Rejection::Header(_)),
    {
        match header {
            Err(h) => Err(Rejection::Header(h)),
            Ok(t) => match M::try_from_type(&t) {
                Ok(m) => Ok(Self::new(m)),
                Err(e) => Err(Rejection::Media(e)),
            },
        }
    }
}

} // verus!
