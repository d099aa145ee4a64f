//! Provides **media-type** conversion [Rejection].

use core::marker::PhantomData;

use super::{Supported, Type};
use vstd::prelude::*;

verus! {

/// **Media-type** conversion error.
pub struct Rejection<M: Supported> {
    /// *Rejected* **media-type**.
    pub media: Type,
    /// *Supported* **media-types** by an `M` media.
    supported_media: PhantomData<M>,
}

impl<M: Supported> View for Rejection<M> {
    type V = Seq<char>;

    /// The text of the rejected media type.
    closed spec fn view(&self) -> Seq<char> {
        self.media@
    }
}

impl<M: Supported> Rejection<M> {
    /// The rejected media type.
    pub fn media(&self) -> (r: &Type)
        ensures
            r@ == self@,
    {
        &self.media
    }

    /// Rejects `media`, keeping a copy of it.
    pub fn new(media: &Type) -> (r: Self)
        ensures
            r@ == media@,
    {
        Self { media: media.clone(), supported_media: PhantomData }
    }
}

} // verus!
