use resize_proxy::policy::{cache_control_value, respond, Metrics, Outcome};

#[test]
fn success_is_cached_thirty_days() {
    let metrics = Metrics {
        source_width: 800,
        source_height: 600,
        target_width: 400,
        target_height: 300,
    };
    let r = respond(Outcome::Success { body: vec![1, 2, 3], metrics });
    assert_eq!(r.status, 200);
    assert_eq!(r.cache_control, "public, s-maxage=2592000");
    assert!(r.content_type_jpeg);
    assert_eq!(r.jpeg_body, vec![1, 2, 3]);
    assert_eq!(r.message, "");
}

#[test]
fn missing_source_is_404_cached_eight_hours() {
    let r = respond(Outcome::SourceNotFound);
    assert_eq!(r.status, 404);
    assert_eq!(r.cache_control, "public, s-maxage=28800");
    assert!(!r.content_type_jpeg);
    assert!(r.jpeg_body.is_empty());
    assert!(r.message.is_empty());
}

#[test]
fn undecodable_source_is_500_cached_seven_days() {
    let r = respond(Outcome::DecodeFailed);
    assert_eq!(r.status, 500);
    assert_eq!(r.cache_control, "public, s-maxage=604800");
    assert!(!r.content_type_jpeg);
    assert_eq!(r.message, "Decode image error");
}

#[test]
fn resize_failure_is_500_cached_eight_hours() {
    let r = respond(Outcome::ResizeFailed);
    assert_eq!(r.status, 500);
    assert_eq!(r.cache_control, "public, s-maxage=28800");
    assert!(!r.content_type_jpeg);
    assert_eq!(r.message, "Resize image error");
}

#[test]
fn cache_control_renders_decimal_lifetimes() {
    assert_eq!(cache_control_value(0), "public, s-maxage=0");
    assert_eq!(cache_control_value(7), "public, s-maxage=7");
    assert_eq!(cache_control_value(28800), "public, s-maxage=28800");
    assert_eq!(cache_control_value(u32::MAX), "public, s-maxage=4294967295");
}
