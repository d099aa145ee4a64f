use axum_negotiator::media::extract::Rejection as Refusal;
use axum_negotiator::media::{Csv, Either, Extractor, Form, FromType, Html, Json, Rejection, Supported, Type};

fn media(text: &str) -> Type {
    Type::from_str(text).ok().unwrap()
}

fn texts(types: Vec<Type>) -> Vec<String> {
    types.iter().map(|t| t.to_string()).collect()
}

#[test]
fn html_accepts_html_and_wildcard() {
    assert!(Html::try_from_type(&media("text/html")).is_ok());
    assert!(Html::try_from_type(&Type::default()).is_ok());
    assert!(Html::try_from_type(&media("*/*")).is_ok());
    let rejected = Html::try_from_type(&media("application/json")).err().unwrap();
    assert_eq!(rejected.media.as_str(), "application/json");
    assert!(Html::try_from_type(&media("text/html; charset=utf-8")).is_err());
}

#[test]
fn json_accepts_json_only() {
    assert_eq!(Json::try_from_type(&media("Application/JSON")).ok(), Some(Json));
    assert!(Json::try_from_type(&Type::default()).is_err());
    assert!(Json::try_from_type(&media("text/html")).is_err());
}

#[test]
fn form_accepts_urlencoded_only() {
    assert!(Form::try_from_type(&media("application/x-www-form-urlencoded")).is_ok());
    assert!(Form::try_from_type(&media("multipart/form-data")).is_err());
}

#[test]
fn csv_accepts_csv_html_and_wildcard() {
    assert!(Csv::try_from_type(&media("text/csv")).is_ok());
    assert!(Csv::try_from_type(&media("text/html")).is_ok());
    assert!(Csv::try_from_type(&Type::default()).is_ok());
    let rejected = Csv::try_from_type(&media("text/plain")).err().unwrap();
    assert_eq!(rejected.media.as_str(), "text/plain");
}

#[test]
fn supported_lists() {
    assert_eq!(texts(Html::supported()), vec!["text/html"]);
    assert_eq!(texts(Json::supported()), vec!["application/json"]);
    assert_eq!(texts(Form::supported()), vec!["application/x-www-form-urlencoded"]);
    assert_eq!(texts(Csv::supported()), vec!["text/csv", "text/html"]);
}

#[test]
fn either_supported_is_concatenation() {
    assert_eq!(
        texts(Either::<Json, Csv>::supported()),
        vec!["application/json", "text/csv", "text/html"]
    );
    assert_eq!(
        texts(Either::<Either<Html, Json>, Form>::supported()),
        vec!["text/html", "application/json", "application/x-www-form-urlencoded"]
    );
}

#[test]
fn either_tries_first_then_second() {
    type M = Either<Html, Json>;
    assert_eq!(M::try_from_type(&media("text/html")).ok(), Some(Either::First(Html)));
    assert_eq!(M::try_from_type(&media("application/json")).ok(), Some(Either::Second(Json)));
    let rejected = M::try_from_type(&media("text/csv")).err().unwrap();
    assert_eq!(rejected.media.as_str(), "text/csv");
}

#[test]
fn either_prefers_first_where_both_accept() {
    type M = Either<Csv, Html>;
    assert_eq!(M::try_from_type(&media("text/html")).ok(), Some(Either::First(Csv)));
    assert_eq!(M::try_from_type(&Type::default()).ok(), Some(Either::First(Csv)));
}

#[test]
fn either_default_is_first() {
    let e: Either<Html, Json> = Either::default();
    assert_eq!(e, Either::First(Html));
}

#[test]
fn rejection_keeps_the_media_type() {
    let r: Rejection<Html> = Rejection::new(&media("image/png"));
    assert_eq!(r.media.as_str(), "image/png");
    let r: axum_negotiator::Rejection<Json> = axum_negotiator::Rejection::new(media("text/xml"));
    assert_eq!(r.media.as_str(), "text/xml");
}

#[test]
fn csv_content_disposition() {
    assert_eq!(Csv::content_disposition("report"), "attachment; filename=\"report.csv\"");
    assert_eq!(Csv::content_disposition(""), "attachment; filename=\".csv\"");
    assert_eq!(Csv::content_disposition("bad\nname"), "attachment; filename=\"export.csv\"");
    assert_eq!(Csv::content_disposition("del\u{7f}"), "attachment; filename=\"export.csv\"");
    assert_eq!(Csv::content_disposition("tab\tand ü"), "attachment; filename=\"tab\tand ü.csv\"");
}

type HtmlExtractor = Extractor<Html, (), (), ()>;

#[test]
fn extractor_negotiates_a_supported_media() {
    let x = HtmlExtractor::negotiate::<&str>(Ok(media("text/html"))).ok().unwrap();
    assert_eq!(*x.media(), Html);
    assert_eq!(x.into_inner(), Html);
}

#[test]
fn extractor_rejects_an_unsupported_media() {
    match HtmlExtractor::negotiate::<&str>(Ok(media("application/json"))) {
        Err(Refusal::Media(r)) => assert_eq!(r.media.as_str(), "application/json"),
        _ => panic!("expected a media rejection"),
    }
}

#[test]
fn extractor_passes_on_a_header_rejection() {
    match HtmlExtractor::negotiate::<&str>(Err("missing header")) {
        Err(Refusal::Header(h)) => assert_eq!(h, "missing header"),
        _ => panic!("expected a header rejection"),
    }
}

#[test]
fn extractor_new_holds_media() {
    let x: Extractor<Either<Html, Json>, (), ()> = Extractor::new(Either::Second(Json));
    assert_eq!(x.clone().into_inner(), Either::Second(Json));
}

#[test]
fn rejection_media_accessor() {
    let r = Json::try_from_type(&media("text/html")).err().unwrap();
    assert_eq!(r.media().as_str(), "text/html");
    let r: axum_negotiator::Rejection<Json> = axum_negotiator::Rejection::new(media("a/b"));
    assert_eq!(r.media().as_str(), "a/b");
}

#[test]
fn each_media_accepts_its_supported_types() {
    for t in Html::supported() {
        assert!(Html::try_from_type(&t).is_ok());
    }
    for t in Json::supported() {
        assert!(Json::try_from_type(&t).is_ok());
    }
    for t in Form::supported() {
        assert!(Form::try_from_type(&t).is_ok());
    }
    for t in Csv::supported() {
        assert!(Csv::try_from_type(&t).is_ok());
    }
    for t in Either::<Json, Csv>::supported() {
        assert!(Either::<Json, Csv>::try_from_type(&t).is_ok());
    }
}
