//! Provides content-negotiation [Rejection].

use core::marker::PhantomData;

use super::media;
use vstd::prelude::*;

verus! {

/// A media type that the supported media `M` do not cover.
pub struct Rejection<M> where M: media::Supported {
    pub media: media::Type,
    supported_media: PhantomData<M>,
}

impl<M> View for Rejection<M> where M: media::Supported {
    type V = Seq<char>;

    /// The text of the rejected media type.
    closed spec fn view(&self) -> Seq<char> {
        self.media@
    }
}

impl<M> Rejection<M> where M: media::Supported {
    /// The rejected media type.
    pub fn media(&self) -> (r: &media::Type)
        ensures
            r@ == self@,
    {
        &self.media
    }

    pub fn new(media: media::Type) -> (r: Self)
        ensures
            r@ == media@,
    {
        Self { media, supported_media: PhantomData }
    }
}

} // verus!
