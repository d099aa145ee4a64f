//! Provides [Form] **media-type**.

use crate::media::{is_plain_media, lemma_known_texts, mime_equal, application_form, texts_of, FromType, Rejection, Supported, Type};
use vstd::prelude::*;

verus! {

/// `application/x-www-form-urlencoded` **media-type**.
#[derive(Debug, Clone, Copy, PartialEq, Eq, Default)]
pub struct Form;

impl FromType for Form {
    /// `application/x-www-form-urlencoded` only.
    /// (A media type is mime-equal to its own text, so the texts stand
    /// here beside mime equality.)
    open spec fn spec_try_from(value: Seq<char>) -> Option<Self> {
        if value == application_form() || mime_equal(value, application_form()) {
            Some(Form)
        } else {
            None
        }
    }

    /// A plain media type converts exactly where it is
    /// `application/x-www-form-urlencoded`.
    fn try_from_type(value: &Type) -> (r: Result<Self, Rejection<Self>>)
        ensures
            is_plain_media(value@) ==> (r is Ok <==> value@ == application_form()),
    {
        proof {
            lemma_known_texts();
        }
        let form = Type::known("application/x-www-form-urlencoded");
        if value.equals(&form) {
            Ok(Self)
        } else {
            Err(Rejection::new(value))
        }
    }
}

impl Supported for Form {
    open spec fn spec_supported() -> Seq<Seq<char>> {
        seq![application_form()]
    }

    fn supported() -> (r: Vec<Type>) {
        proof {
            lemma_known_texts();
        }
        let r = vec![Type::known("application/x-www-form-urlencoded")];
        assert(texts_of(r@) =~= seq![application_form()]);
        r
    }
}

} // verus!
