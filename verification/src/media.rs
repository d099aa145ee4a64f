//! Provides **media-type** via [Type], and the media a service supports.

pub mod either;
pub mod error;
pub mod extract;
pub mod known;

pub use either::Either;
pub use error::Rejection;
pub use extract::Extractor;
pub use known::csv::{Csv, Named};
pub use known::form::Form;
pub use known::html::Html;
pub use known::json::Json;

use vstd::prelude::*;
use vstd::utf8::is_ascii_chars;
use vstd::string::*;

verus! {

/// The `mime` crate's error for a text that is no media type.
#[verifier::external_type_specification]
#[verifier::external_body]
pub struct ExFromStrError(mime::FromStrError);

/// The text that the `mime` crate gives a media type parsed from `text`
/// (its `as_ref()`), or `None` where it refuses `text`.
pub uninterp spec fn parsed_mime(text: Seq<char>) -> Option<Seq<char>>;

/// A character that the `mime` parser takes as a token and leaves as it is
/// when it lower-cases: a lower-case letter, a digit, `-` or `.`.
pub open spec fn is_plain_char(c: char) -> bool {
    ('a' <= c && c <= 'z') || ('0' <= c && c <= '9') || c == '-' || c == '.'
}

/// A media type text that the `mime` crate renders as it is: the wildcard
/// range, or a type and a subtype of plain characters around one slash,
/// without parameters.
pub open spec fn is_plain_media(s: Seq<char>) -> bool {
    ||| s == wildcard()
    ||| exists|i: int|
        #![trigger s[i]]
        0 < i < s.len() - 1 && s[i] == '/' && forall|j: int|
            0 <= j < s.len() && j != i ==> is_plain_char(#[trigger] s[j])
}

/// Calls `mime::Mime::from_str` and hands back the parsed value's text.
/// Trusted:
/// - a success carries the text `parsed_mime(text)`, and an error comes
///   exactly where that is `None`;
/// - the parser gives its own rendered text back unchanged: it lower-cases
///   the essence, the parameter names and a `charset` value, and a text
///   already so written parses to the same structure and text;
/// - a plain media text (see [is_plain_media]) parses, to itself: the
///   parser returns `STAR_STAR` for the wildcard, and for tokens around a
///   slash the text lower-cased.
#[verifier::external_body]
fn parse_mime(text: &str) -> (r: Result<String, mime::FromStrError>)
    ensures
        r matches Ok(s) ==> parsed_mime(text@) == Some(s@),
        r is Err ==> parsed_mime(text@) is None,
        r matches Ok(s) ==> parsed_mime(s@) == Some(s@),
        r matches Ok(s) ==> (is_plain_media(text@) ==> s@ == text@),
        r is Err ==> !is_plain_media(text@),
{
    match text.parse::<mime::Mime>() {
        Ok(m) => Ok(m.as_ref().to_string()),
        Err(e) => Err(e),
    }
}

/// Whether the `mime` crate holds the media types with texts `a` and `b`
/// equal.
pub uninterp spec fn mime_equal(a: Seq<char>, b: Seq<char>) -> bool;

/// Parses both texts with `mime::Mime::from_str` and compares the two
/// `Mime`s with their `==` (which compares essences without regard to case,
/// then the parameter lists as `mime`'s own `params_eq` does). A text that
/// does not parse is equal to nothing. `==` slices the second text at byte
/// offsets found in the first, which panics where the second is not ASCII,
/// so it must be. Trusted: the result is `mime_equal(a, b)`; a text
/// that parses is equal to itself (`Mime`'s `==` is reflexive: equal atoms,
/// or the same text compared with itself, parameters included); and two
/// plain media texts (see [is_plain_media]) are equal exactly where they are
/// the same text: neither has parameters, so unless both are the wildcard
/// atom `==` compares the two rendered texts without regard to ASCII case,
/// and plain texts are already lower-case.
#[verifier::external_body]
fn same_mime(a: &str, b: &str) -> (r: bool)
    requires
        is_ascii_chars(b@),
    ensures
        r == mime_equal(a@, b@),
        r || a@ != b@ || parsed_mime(a@) is None,
        r || !is_plain_media(a@) || !is_plain_media(b@) || a@ != b@,
        r ==> (!is_plain_media(a@) || !is_plain_media(b@) || a@ == b@),
{
    match (a.parse::<mime::Mime>(), b.parse::<mime::Mime>()) {
        (Ok(x), Ok(y)) => x == y,
        _ => false,
    }
}

/// The text of the wildcard media range, `mime::STAR_STAR`.
pub open spec fn wildcard() -> Seq<char> {
    seq!['*', '/', '*']
}

/// The text of `mime::TEXT_HTML`.
pub open spec fn text_html() -> Seq<char> {
    "text/html"@
}

/// The text of `mime::TEXT_CSV`.
pub open spec fn text_csv() -> Seq<char> {
    "text/csv"@
}

/// The text of `mime::APPLICATION_JSON`.
pub open spec fn application_json() -> Seq<char> {
    "application/json"@
}

/// The text of `mime::APPLICATION_WWW_FORM_URLENCODED`.
pub open spec fn application_form() -> Seq<char> {
    "application/x-www-form-urlencoded"@
}

/// The texts of the `mime` constants this crate names are plain media
/// texts, ASCII.
pub proof fn lemma_known_texts()
    ensures
        is_plain_media(text_html()),
        is_plain_media(text_csv()),
        is_plain_media(application_json()),
        is_plain_media(application_form()),
        is_plain_media(wildcard()),
        is_ascii_chars(text_html()),
        is_ascii_chars(text_csv()),
        is_ascii_chars(application_json()),
        is_ascii_chars(application_form()),
        is_ascii_chars(wildcard()),
{
    reveal_strlit("text/html");
    reveal_strlit("text/csv");
    reveal_strlit("application/json");
    reveal_strlit("application/x-www-form-urlencoded");
    assert(text_html()[4] == '/');
    assert(text_csv()[4] == '/');
    assert(application_json()[11] == '/');
    assert(application_form()[11] == '/');
}

/// # **HTTP** **MIME** media-type.
///
/// Holds the media type as the `mime` crate renders it: its lower-case
/// essence followed by its parameters, if it has any.
///
/// Its text is one that the `mime` crate parses back to itself.
#[derive(Debug)]
pub struct Type(String);

/// Error for a text that is no media type: the `mime` crate's parse error.
#[derive(Debug)]
pub struct InvalidType(pub mime::FromStrError);

impl View for Type {
    type V = Seq<char>;

    closed spec fn view(&self) -> Seq<char> {
        self.0@
    }
}

impl Type {
    /// The text is the `mime` crate's rendering of itself.
    #[verifier::type_invariant]
    closed spec fn rendered(self) -> bool {
        parsed_mime(self.0@) == Some(self.0@)
    }
}

/// The texts of a list of media types.
pub open spec fn texts_of(types: Seq<Type>) -> Seq<Seq<char>> {
    types.map_values(|t: Type| t@)
}

impl Clone for Type {
    fn clone(&self) -> (r: Self)
        ensures
            r@ == self@,
    {
        proof {
            use_type_invariant(self);
        }
        Type(self.0.clone())
    }
}

impl Default for Type {
    /// The wildcard media range.
    fn default() -> (r: Self)
        ensures
            r@ == wildcard(),
    {
        // The wildcard's text, its slash written as an escape.
        proof {
            reveal_strlit("*\u{2f}*");
        }
        assert("*\u{2f}*"@ =~= wildcard());
        Type::known("*\u{2f}*")
    }
}

impl Type {
    /// Parses `media` with the `mime` crate.
    pub fn from_str(media: &str) -> (r: Result<Type, InvalidType>)
        ensures
            r matches Ok(t) ==> parsed_mime(media@) == Some(t@),
            r is Err <==> parsed_mime(media@) is None,
            r matches Ok(t) ==> parsed_mime(t@) == Some(t@),
    {
        match parse_mime(media) {
            Ok(s) => Ok(Type(s)),
            Err(e) => Err(InvalidType(e)),
        }
    }

    /// A media type that the `mime` crate names by a constant, from its
    /// plain text, parsed as any other.
    pub(crate) fn known(text: &str) -> (r: Type)
        requires
            is_plain_media(text@),
        ensures
            r@ == text@,
    {
        match parse_mime(text) {
            Ok(s) => Type(s),
            Err(_) => {
                assert(false);
                Type(text.to_owned())
            },
        }
    }

    /// The media type's text, as `Mime::as_ref` gives it; the `mime` crate
    /// parses it back to itself.
    pub fn as_str(&self) -> (r: &str)
        ensures
            r@ == self@,
            parsed_mime(r@) == Some(r@),
    {
        proof {
            use_type_invariant(self);
        }
        self.0.as_str()
    }

    /// Whether this media type equals, as the `mime` crate sees it, the
    /// media type `known`, whose text is ASCII (as that of every `mime`
    /// constant is). Two plain media types are equal exactly where their
    /// texts are.
    pub fn equals(&self, known: &Type) -> (r: bool)
        requires
            is_ascii_chars(known@),
        ensures
            r == mime_equal(self@, known@),
            self@ == known@ ==> r,
            is_plain_media(self@) && is_plain_media(known@) ==> (r <==> self@ == known@),
    {
        proof {
            use_type_invariant(self);
        }
        same_mime(self.0.as_str(), known.0.as_str())
    }

    /// The media type's text, as it is displayed.
    pub fn to_string(&self) -> (r: String)
        ensures
            r@ == self@,
    {
        self.0.clone()
    }
}

/// Provides *supported* **media-type** list via `supported` method.
pub trait Supported: Sized {
    /// The texts of the supported media types, in order.
    spec fn spec_supported() -> Seq<Seq<char>>;

    fn supported() -> (r: Vec<Type>)
        ensures
            texts_of(r@) == Self::spec_supported(),
    ;
}

/// Every media type that `M` lists as supported converts into `M`.
pub open spec fn accepts_own_supported<M: FromType>() -> bool {
    forall|i: int|
        0 <= i < M::spec_supported().len() ==> (#[trigger] M::spec_try_from(
            M::spec_supported()[i],
        )) is Some
}

/// Conversion of a negotiated media type into a media this crate can
/// answer in.
pub trait FromType: Supported {
    /// The media that `media` converts into, if any.
    spec fn spec_try_from(media: Seq<char>) -> Option<Self>;

    fn try_from_type(value: &Type) -> (r: Result<Self, Rejection<Self>>)
        ensures
            r matches Ok(m) ==> Self::spec_try_from(value@) == Some(m),
            r matches Err(e) ==> Self::spec_try_from(value@) is None && e@ == value@,
    ;
}

} // verus!
