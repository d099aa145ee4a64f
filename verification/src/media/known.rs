//! Provides *known* **media-types** e.g. [Html].

pub mod csv;
pub mod form;
pub mod html;
pub mod json;

use crate::media::{
    accepts_own_supported, application_form, application_json, mime_equal, text_csv, text_html,
    wildcard, FromType,
};
use vstd::prelude::*;

verus! {

/// Each known media accepts every media type it lists as supported, and
/// `Html` and `Csv` accept the wildcard range too.
pub proof fn lemma_known_accept_own_supported()
    ensures
        accepts_own_supported::<html::Html>(),
        accepts_own_supported::<json::Json>(),
        accepts_own_supported::<form::Form>(),
        accepts_own_supported::<csv::Csv>(),
        html::Html::spec_try_from(wildcard()) is Some,
        csv::Csv::spec_try_from(wildcard()) is Some,
{
}

/// Each known media accepts a media type only where it is, or the `mime`
/// crate holds it equal to, one of the types that media answers for:
/// `Form` its form type alone, `Json` its JSON type alone, `Html` its HTML
/// type and the wildcard, `Csv` its CSV type, the HTML type and the
/// wildcard. So a body that `mime` does not hold equal to the form type is
/// never read as a form, and likewise for JSON.
pub proof fn lemma_known_accept_only_their_types(v: Seq<char>)
    ensures
        form::Form::spec_try_from(v) is Some ==> v == application_form() || mime_equal(
            v,
            application_form(),
        ),
        json::Json::spec_try_from(v) is Some ==> v == application_json() || mime_equal(
            v,
            application_json(),
        ),
        html::Html::spec_try_from(v) is Some ==> v == text_html() || v == wildcard() || mime_equal(
            v,
            text_html(),
        ) || mime_equal(v, wildcard()),
        csv::Csv::spec_try_from(v) is Some ==> v == text_csv() || v == text_html() || v
            == wildcard() || mime_equal(v, text_csv()) || mime_equal(v, text_html()) || mime_equal(
            v,
            wildcard(),
        ),
{
}

} // verus!
