use axum_negotiator::media::{Either, Html, Json};
use axum_negotiator::{Layer, Payload, Service, WithFallback};

type Plain = Service<u32, Html, (), (), ()>;
type Fallback = Service<u32, Html, (), (), WithFallback<Json>>;

#[test]
fn layer_new_and_service() {
    let layer: Layer<Html, (), (), ()> = Layer::new();
    let service = layer.layer(7u32);
    assert_eq!(*service.inner(), 7);
}

#[test]
fn layer_with_fallback_keeps_fallback() {
    let layer: Layer<Html, (), (), WithFallback<Json>> = Layer::with_fallback(Json);
    assert_eq!(*layer.state().fallback(), Json);
    let service = layer.layer(3u32);
    assert_eq!(*service.state().fallback(), Json);
    let layer: Layer<Html, (), (), WithFallback<Html>> = Layer::default();
    assert_eq!(*layer.state().fallback(), Html);
}

#[test]
fn service_new_and_inner_mut() {
    let mut service: Plain = Service::new(1u32, &());
    *service.inner_mut() = 5;
    assert_eq!(*service.inner(), 5);
    assert_eq!(*service.clone().inner(), 5);
}

#[test]
fn readiness_maps_inner_error_first() {
    assert!(Plain::readiness::<&str, ()>(Ok(())).is_ok());
    assert_eq!(Plain::readiness::<&str, ()>(Err("busy")), Err(Either::First("busy")));
}

#[test]
fn proceed_refuses_failed_negotiation_as_second() {
    assert_eq!(Plain::proceed::<(), &str>(Ok(Html)), Ok(Html));
    assert_eq!(Plain::proceed::<(), &str>(Err("unsupported")), Err(Either::Second("unsupported")));
}

#[test]
fn render_without_fallback_uses_negotiated_media() {
    assert_eq!(Plain::render::<u8, &str>(Html, Ok(1)), Either::First((1, Html)));
    assert_eq!(Plain::render::<u8, &str>(Html, Err("boom")), Either::Second(("boom", Html)));
}

#[test]
fn render_with_fallback_uses_fallback_for_errors() {
    assert_eq!(Fallback::render::<u8, &str>(Json, Html, Ok(2)), Either::First((2, Html)));
    assert_eq!(Fallback::render::<u8, &str>(Json, Html, Err("boom")), Either::Second(("boom", Json)));
}

#[test]
fn payload_holds_value() {
    let mut p: Payload<Vec<u8>, Json, (), ()> = Payload::new(vec![1, 2]);
    assert_eq!(*p.value(), vec![1, 2]);
    p.value_mut().push(3);
    assert_eq!(p.into_inner(), vec![1, 2, 3]);
}

#[test]
fn payload_proceed_refuses_failed_negotiation_as_first() {
    type P = Payload<u8, Json, (), ()>;
    assert_eq!(P::proceed::<&str, ()>(Ok(Json)), Ok(Json));
    assert_eq!(P::proceed::<&str, ()>(Err("unsupported")), Err(Either::First("unsupported")));
}

#[test]
fn payload_conclude_wraps_value_or_second_error() {
    type P = Payload<u8, Json, (), ()>;
    assert_eq!(P::conclude::<(), &str>(Ok(4)).ok().unwrap().into_inner(), 4);
    assert!(matches!(P::conclude::<(), &str>(Err("bad body")), Err(Either::Second("bad body"))));
}
