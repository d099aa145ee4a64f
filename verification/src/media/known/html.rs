//! Provides [Html] **media-type**.

use crate::media::{is_plain_media, lemma_known_texts, mime_equal, self, text_html, texts_of, wildcard, FromType, Rejection, Supported, Type};
use vstd::prelude::*;

verus! {

/// `text/html` **media-type**.
#[derive(Debug, Clone, Copy, PartialEq, Eq, Default)]
pub struct Html;

impl FromType for Html {
    /// `text/html`, and the wildcard range.
    /// (A media type is mime-equal to its own text, so the texts stand
    /// here beside mime equality.)
    open spec fn spec_try_from(value: Seq<char>) -> Option<Self> {
        if value == text_html() || value == wildcard() || mime_equal(value, text_html())
            || mime_equal(value, wildcard()) {
            Some(Html)
        } else {
            None
        }
    }

    /// A plain media type converts exactly where it is `text/html` or the
    /// wildcard range.
    fn try_from_type(value: &Type) -> (r: Result<Self, Rejection<Self>>)
        ensures
            is_plain_media(value@) ==> (r is Ok <==> (value@ == text_html() || value@ == wildcard())),
    {
        proof {
            lemma_known_texts();
        }
        let html = Type::known("text/html");
        if value.equals(&html) {
            Ok(Self)
        } else if value.equals(&media::Type::default()) {
            Ok(Self)
        } else {
            Err(Rejection::new(value))
        }
    }
}

impl Supported for Html {
    open spec fn spec_supported() -> Seq<Seq<char>> {
        seq![text_html()]
    }

    fn supported() -> (r: Vec<Type>) {
        proof {
            lemma_known_texts();
        }
        let r = vec![Type::known("text/html")];
        assert(texts_of(r@) =~= seq![text_html()]);
        r
    }
}

} // verus!
