//! Provides the [Accept] and [ContentType] **HTTP** headers.

pub mod accept;
pub mod content_type;

pub use accept::Accept;
pub use content_type::ContentType;

use crate::media::{parsed_mime, wildcard, Type};
use vstd::prelude::*;

verus! {

/// A header is missing or its value is malformed.
#[derive(Debug)]
pub struct InvalidHeader;

/// A character that may stand in a header value: the bytes of its UTF-8
/// encoding are tab or at least 32, and not DEL.
pub open spec fn is_header_char(c: char) -> bool {
    (' ' <= c && c != '\u{7f}') || c == '\t'
}

/// A text that `HeaderValue::from_str` accepts.
pub open spec fn is_header_text(s: Seq<char>) -> bool {
    forall|i: int| 0 <= i < s.len() ==> is_header_char(#[trigger] s[i])
}

/// Calls `http::HeaderValue::from_str` (re-exported by `axum`) and tells
/// whether it succeeds. Trusted: it succeeds exactly where every byte of the
/// text is tab, or at least 32 and not 127; a character other than ASCII
/// only has bytes of 128 or more.
#[verifier::external_body]
pub(crate) fn is_header_value(text: &str) -> (r: bool)
    ensures
        r == is_header_text(text@),
{
    axum::http::HeaderValue::from_str(text).is_ok()
}

/// The header value written for a media type: its text where that is a
/// valid header value, the wildcard range otherwise.
pub open spec fn encoded(media: Seq<char>) -> Seq<char> {
    if is_header_text(media) {
        media
    } else {
        wildcard()
    }
}

/// The header value written for `media`; where that is its text, the
/// `mime` crate parses it back to `media`.
pub fn encode(media: &Type) -> (r: String)
    ensures
        r@ == encoded(media@),
        is_header_text(media@) ==> parsed_mime(r@) == Some(media@),
{
    if is_header_value(media.as_str()) {
        media.to_string()
    } else {
        Type::default().to_string()
    }
}

} // verus!
