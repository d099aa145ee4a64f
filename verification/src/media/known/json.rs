//! Provides [Json] **media-type**.

use crate::media::{is_plain_media, lemma_known_texts, mime_equal, application_json, texts_of, FromType, Rejection, Supported, Type};
use vstd::prelude::*;

verus! {

/// `application/json` media-type.
#[derive(Debug, Clone, Copy, PartialEq, Eq)]
pub struct Json;

impl FromType for Json {
    /// `application/json` only.
    /// (A media type is mime-equal to its own text, so the texts stand
    /// here beside mime equality.)
    open spec fn spec_try_from(value: Seq<char>) -> Option<Self> {
        if value == application_json() || mime_equal(value, application_json()) {
            Some(Json)
        } else {
            None
        }
    }

    /// A plain media type converts exactly where it is `application/json`.
    fn try_from_type(value: &Type) -> (r: Result<Self, Rejection<Self>>)
        ensures
            is_plain_media(value@) ==> (r is Ok <==> value@ == application_json()),
    {
        proof {
            lemma_known_texts();
        }
        let json = Type::known("application/json");
        if value.equals(&json) {
            Ok(Self)
        } else {
            Err(Rejection::new(value))
        }
    }
}

impl Supported for Json {
    open spec fn spec_supported() -> Seq<Seq<char>> {
        seq![application_json()]
    }

    fn supported() -> (r: Vec<Type>) {
        proof {
            lemma_known_texts();
        }
        let r = vec![Type::known("application/json")];
        assert(texts_of(r@) =~= seq![application_json()]);
        r
    }
}

} // verus!
