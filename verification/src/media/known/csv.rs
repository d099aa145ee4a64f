//! Provides [Csv] **media-type**, [Named] trait.

use crate::header::{is_header_text, is_header_value};
use crate::media::{is_plain_media, lemma_known_texts, mime_equal, self, text_csv, text_html, texts_of, wildcard, FromType, Rejection, Supported, Type};
use vstd::prelude::*;
use vstd::string::*;

verus! {

/// `text/csv` **media-type**.
#[derive(Debug, Clone, Copy, PartialEq, Eq, Default)]
pub struct Csv;

/// Provides [Named::filename] method.
pub trait Named {
    /// **CSV** filename.
    fn filename(&self) -> &str;
}

impl FromType for Csv {
    /// `text/csv`, `text/html` and the wildcard range.
    /// (A media type is mime-equal to its own text, so the texts stand
    /// here beside mime equality.)
    open spec fn spec_try_from(value: Seq<char>) -> Option<Self> {
        if value == text_csv() || value == text_html() || value == wildcard() || mime_equal(
            value,
            text_csv(),
        ) || mime_equal(value, text_html()) || mime_equal(value, wildcard()) {
            Some(Csv)
        } else {
            None
        }
    }

    /// A plain media type converts exactly where it is `text/csv`,
    /// `text/html` or the wildcard range.
    fn try_from_type(value: &Type) -> (r: Result<Self, Rejection<Self>>)
        ensures
            is_plain_media(value@) ==> (r is Ok <==> (value@ == text_csv() || value@ == text_html()
                || value@ == wildcard())),
    {
        proof {
            lemma_known_texts();
        }
        let csv = Type::known("text/csv");
        let html = Type::known("text/html");
        if value.equals(&csv) {
            Ok(Self)
        } else if value.equals(&html) {
            Ok(Self)
        } else if value.equals(&media::Type::default()) {
            Ok(Self)
        } else {
            Err(Rejection::new(value))
        }
    }
}

impl Supported for Csv {
    open spec fn spec_supported() -> Seq<Seq<char>> {
        seq![text_csv(), text_html()]
    }

    fn supported() -> (r: Vec<Type>) {
        proof {
            lemma_known_texts();
        }
        let r = vec![Type::known("text/csv"), Type::known("text/html")];
        assert(texts_of(r@) =~= seq![text_csv(), text_html()]);
        r
    }
}

/// The `Content-Disposition` value that names the download `filename.csv`.
pub open spec fn attachment(filename: Seq<char>) -> Seq<char> {
    "attachment; filename=\""@ + filename + ".csv\""@
}

/// The `Content-Disposition` value used where the file name cannot stand in
/// a header value.
pub open spec fn export_attachment() -> Seq<char> {
    "attachment; filename=\"export.csv\""@
}

impl Csv {
    /// The `Content-Disposition` header value of a **CSV** download of
    /// `filename`: `export.csv` stands in for a name that is no valid header
    /// text.
    pub fn content_disposition(filename: &str) -> (r: String)
        ensures
            is_header_text(attachment(filename@)) ==> r@ == attachment(filename@),
            !is_header_text(attachment(filename@)) ==> r@ == export_attachment(),
    {
        let mut text = String::from_str("attachment; filename=\"");
        text.append(filename);
        text.append(".csv\"");
        if is_header_value(text.as_str()) {
            text
        } else {
            String::from_str("attachment; filename=\"export.csv\"")
        }
    }
}

} // verus!
