//! Provides [ContentType] **HTTP** header.

use super::{encode, encoded, is_header_text, InvalidHeader};
use crate::media::{parsed_mime, Type};
use vstd::prelude::*;

verus! {

/// **Content-Type** **HTTP** request header.
pub struct ContentType(Type);

impl View for ContentType {
    type V = Seq<char>;

    closed spec fn view(&self) -> Seq<char> {
        self.0@
    }
}

impl ContentType {
    pub fn new(media: Type) -> (r: Self)
        ensures
            r@ == media@,
    {
        ContentType(media)
    }

    /// The header's media type.
    pub fn media(&self) -> (r: &Type)
        ensures
            r@ == self@,
    {
        &self.0
    }

    pub fn into_media(self) -> (r: Type)
        ensures
            r@ == self@,
    {
        self.0
    }

    /// Reads the header from its first value, given as text (`None` where
    /// the header is missing or its value is not visible ASCII): the whole
    /// value is parsed as one media type.
    pub fn decode(value: Option<&str>) -> (r: Result<Self, InvalidHeader>)
        ensures
            value is None ==> r is Err,
            value matches Some(s) ==> (r is Err <==> parsed_mime(s@) is None),
            r matches Ok(c) ==> value matches Some(s) && parsed_mime(s@) == Some(c@),
    {
        match value {
            None => Err(InvalidHeader),
            Some(s) => match Type::from_str(s) {
                Ok(t) => Ok(ContentType(t)),
                Err(_) => Err(InvalidHeader),
            },
        }
    }

    /// The header value written for this header. Where that is the media
    /// type's text, reading it back (see [ContentType::decode]) gives this
    /// header again.
    pub fn encode(&self) -> (r: String)
        ensures
            r@ == encoded(self@),
            is_header_text(self@) ==> parsed_mime(r@) == Some(self@),
    {
        encode(&self.0)
    }
}

} // verus!
