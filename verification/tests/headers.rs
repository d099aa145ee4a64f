use axum_negotiator::header::accept::{Item, Weight};
use axum_negotiator::header::{Accept, ContentType};
use axum_negotiator::media::Type;

fn media(text: &str) -> Type {
    Type::from_str(text).ok().unwrap()
}

fn qualities(item: &Item) -> Vec<&str> {
    item.qualities.iter().map(|q| q.as_str()).collect()
}

#[test]
fn type_parses_through_mime_lowercased() {
    assert_eq!(media("TEXT/Plain").as_str(), "text/plain");
    assert_eq!(media("text/html; charset=UTF-8").as_str(), "text/html; charset=utf-8");
    assert!(Type::from_str("not a media type").is_err());
    assert!(Type::from_str("").is_err());
}

#[test]
fn type_default_is_wildcard() {
    assert_eq!(Type::default().as_str(), "*/*");
    assert!(media("*/*").equals(&Type::default()));
    assert_eq!(media("image/svg+xml").to_string(), "image/svg+xml");
}

#[test]
fn type_equality_is_mime_equality() {
    assert!(media("TEXT/HTML").equals(&media("text/html")));
    assert!(media("text/html; charset=UTF-8").equals(&media("text/html;charset=utf-8")));
    assert!(!media("text/html; charset=utf-8").equals(&media("text/html")));
    assert!(!media("text/html").equals(&media("text/csv")));
    assert!(!media("*/*").equals(&media("text/html")));
    assert!(!media("aaaa/aaa;x=y").equals(&media("a/b;c=d")));
}

#[test]
fn type_parse_error_is_kept() {
    let err = Type::from_str("no-slash").err().unwrap();
    assert!(!err.0.to_string().is_empty());
}

#[test]
fn parse_item_without_parameters() {
    let item = Accept::parse_item("text/html").unwrap();
    assert_eq!(item.media.as_str(), "text/html");
    assert!(item.qualities.is_empty());
}

#[test]
fn parse_item_trims_and_collects_quality_texts() {
    let item = Accept::parse_item(" Text/HTML ; q=0.5 ; charset=utf-8").unwrap();
    assert_eq!(item.media.as_str(), "text/html");
    assert_eq!(qualities(&item), vec!["0.5"]);
}

#[test]
fn parse_item_keeps_every_q_parameter_in_order() {
    let item = Accept::parse_item("text/html;q=0.2; q = 1 ;q=0.9;Q=0.1").unwrap();
    assert_eq!(qualities(&item), vec!["0.2", "0.9"]);
    let item = Accept::parse_item("text/html;q=").unwrap();
    assert_eq!(qualities(&item), vec![""]);
}

#[test]
fn parse_item_rejects_what_is_no_media_type() {
    assert!(Accept::parse_item("nonsense").is_none());
    assert!(Accept::parse_item("").is_none());
    assert!(Accept::parse_item(";q=1").is_none());
}

#[test]
fn items_skip_unparsable_ranges() {
    let items = Accept::items("text/html, application/json;q=0.9, garbage,,*/*");
    let texts: Vec<&str> = items.iter().map(|i| i.media.as_str()).collect();
    assert_eq!(texts, vec!["text/html", "application/json", "*/*"]);
    assert_eq!(qualities(&items[1]), vec!["0.9"]);
    assert!(Accept::items("").is_empty());
    assert!(Accept::items(" , ,").is_empty());
}

#[test]
fn weight_order() {
    assert!(Weight::Rank(3).outranks(&Weight::Rank(2)));
    assert!(!Weight::Rank(2).outranks(&Weight::Rank(2)));
    assert!(!Weight::Rank(1).outranks(&Weight::Rank(2)));
    assert!(!Weight::Unordered.outranks(&Weight::Rank(0)));
    assert!(!Weight::Rank(9).outranks(&Weight::Unordered));
}

#[test]
fn best_takes_the_highest_weight() {
    let ranked = vec![
        (media("text/html"), Weight::Rank(20)),
        (media("application/json"), Weight::Rank(10)),
    ];
    assert_eq!(Accept::best(&ranked).ok().unwrap().media().as_str(), "text/html");
}

#[test]
fn best_takes_the_last_of_equal_weights() {
    let ranked = vec![
        (media("text/html"), Weight::Rank(10)),
        (media("application/json"), Weight::Rank(10)),
        (media("text/csv"), Weight::Rank(5)),
    ];
    assert_eq!(Accept::best(&ranked).ok().unwrap().media().as_str(), "application/json");
}

#[test]
fn best_with_unordered_weight_moves_on() {
    let ranked = vec![
        (media("text/html"), Weight::Rank(20)),
        (media("application/json"), Weight::Unordered),
        (media("text/csv"), Weight::Rank(1)),
    ];
    assert_eq!(Accept::best(&ranked).ok().unwrap().media().as_str(), "text/csv");
}

#[test]
fn best_of_nothing_is_an_invalid_header() {
    assert!(Accept::best(&Vec::new()).is_err());
}

#[test]
fn accept_encodes_its_media_type() {
    let accept = Accept::new(media("application/json"));
    assert_eq!(accept.encode(), "application/json");
    assert_eq!(accept.into_media().as_str(), "application/json");
}

#[test]
fn content_type_decode() {
    assert!(ContentType::decode(None).is_err());
    assert!(ContentType::decode(Some("not a type")).is_err());
    let c = ContentType::decode(Some("application/json")).ok().unwrap();
    assert_eq!(c.media().as_str(), "application/json");
    let c = ContentType::decode(Some("text/html; charset=UTF-8")).ok().unwrap();
    assert_eq!(c.media().as_str(), "text/html; charset=utf-8");
}

#[test]
fn content_type_encode() {
    let c = ContentType::new(media("application/x-www-form-urlencoded"));
    assert_eq!(c.encode(), "application/x-www-form-urlencoded");
    assert_eq!(c.into_media().as_str(), "application/x-www-form-urlencoded");
}

#[test]
fn weight_is_the_last_number_read() {
    let d = Weight::Rank(100);
    assert!(matches!(Accept::weight(&vec![], d), Weight::Rank(100)));
    assert!(matches!(Accept::weight(&vec![None, None], d), Weight::Rank(100)));
    assert!(matches!(
        Accept::weight(&vec![Some(Weight::Rank(3)), None, Some(Weight::Rank(7)), None], d),
        Weight::Rank(7)
    ));
    assert!(matches!(
        Accept::weight(&vec![Some(Weight::Rank(3)), Some(Weight::Unordered)], d),
        Weight::Unordered
    ));
}

#[test]
fn content_type_round_trip() {
    for text in ["application/json", "text/html; charset=UTF-8", "multipart/form-data; boundary=\"a b\""] {
        let c = ContentType::new(media(text));
        let written = c.encode();
        let back = ContentType::decode(Some(&written)).ok().unwrap();
        assert_eq!(back.media().as_str(), c.media().as_str());
    }
}

#[test]
fn accept_round_trip() {
    for text in ["application/json", "TEXT/HTML", "*/*"] {
        let a = Accept::new(media(text));
        let written = a.encode();
        let items = Accept::items(&written);
        assert_eq!(items.len(), 1);
        assert!(items[0].qualities.is_empty());
        let ranked = vec![(items[0].media.clone(), Weight::Rank(1))];
        assert_eq!(Accept::best(&ranked).ok().unwrap().media().as_str(), a.media().as_str());
    }
}
