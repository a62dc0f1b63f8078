use image::ImageEncoder;
use resize_proxy::codec::{decode, encode, DecodedImage};
use resize_proxy::pipeline::{process, InternalError};
use resize_proxy::policy::{respond, Outcome};

/// An 800x600 uniform gray image encoded as JPEG.
fn sample_jpeg() -> Vec<u8> {
    let img = DecodedImage { width: 800, height: 600, pixels: vec![128u8; 800 * 600 * 3] };
    encode(&img)
}

#[test]
fn encode_produces_a_jpeg_stream() {
    let bytes = sample_jpeg();
    // JPEG start-of-image marker.
    assert_eq!(&bytes[0..2], &[0xFF, 0xD8]);
}

#[test]
fn decode_recovers_the_encoded_dimensions() {
    let bytes = sample_jpeg();
    let img = decode(&bytes).expect("a JPEG we produced must decode");
    assert_eq!(img.width, 800);
    assert_eq!(img.height, 600);
    assert_eq!(img.pixels.len(), 800 * 600 * 3);
}

#[test]
fn width_400_gives_a_400_by_300_jpeg() {
    let outcome = process(Some(sample_jpeg()), Some(400), None).unwrap();
    match outcome {
        Outcome::Success { body, metrics } => {
            assert_eq!(metrics.source_width, 800);
            assert_eq!(metrics.source_height, 600);
            assert_eq!(metrics.target_width, 400);
            assert_eq!(metrics.target_height, 300);
            let out = decode(&body).expect("output must be a decodable JPEG");
            assert_eq!(out.width, 400);
            assert_eq!(out.height, 300);
        }
        _ => panic!("expected success"),
    }
    let r = respond(process(Some(sample_jpeg()), Some(400), None).unwrap());
    assert_eq!(r.status, 200);
    assert!(r.content_type_jpeg);
}

#[test]
fn no_parameters_give_a_quarter_size_jpeg() {
    let outcome = process(Some(sample_jpeg()), None, None).unwrap();
    match outcome {
        Outcome::Success { body, metrics } => {
            assert_eq!(metrics.target_width, 200);
            assert_eq!(metrics.target_height, 150);
            let out = decode(&body).expect("output must be a decodable JPEG");
            assert_eq!(out.width, 200);
            assert_eq!(out.height, 150);
        }
        _ => panic!("expected success"),
    }
}

#[test]
fn resizing_to_the_source_size_keeps_the_dimensions() {
    let outcome = process(Some(sample_jpeg()), Some(800), Some(600)).unwrap();
    match outcome {
        Outcome::Success { body, metrics } => {
            assert_eq!(metrics.target_width, 800);
            assert_eq!(metrics.target_height, 600);
            let out = decode(&body).expect("output must be a decodable JPEG");
            assert_eq!(out.width, 800);
            assert_eq!(out.height, 600);
        }
        _ => panic!("expected success"),
    }
}

#[test]
fn missing_source_is_not_found() {
    let outcome = process(None, Some(400), None).unwrap();
    assert!(matches!(outcome, Outcome::SourceNotFound));
    let r = respond(outcome);
    assert_eq!(r.status, 404);
    assert_eq!(r.cache_control, "public, s-maxage=28800");
}

#[test]
fn plain_text_fails_to_decode() {
    let text = b"this is plain text, not an image".to_vec();
    assert!(decode(&text).is_none());
    let outcome = process(Some(text), None, None).unwrap();
    assert!(matches!(outcome, Outcome::DecodeFailed));
    let r = respond(outcome);
    assert_eq!(r.status, 500);
    assert_eq!(r.cache_control, "public, s-maxage=604800");
}

#[test]
fn a_target_beyond_the_jpeg_limit_is_fatal() {
    let err = process(Some(sample_jpeg()), Some(70000), None).unwrap_err();
    assert_eq!(err, InternalError::TargetTooLarge);
}

#[test]
fn a_resampler_intermediate_beyond_u32_is_fatal() {
    // A thin, very tall source: 2 x 65538 pixels, PNG-encoded since JPEG
    // cannot hold an axis beyond 65535. A 65535-wide target then makes the
    // resampler's intermediate image (target width x a span of source rows)
    // overflow its u32 pixel count: 65535 * 65538 > u32::MAX.
    let mut png = Vec::new();
    image::codecs::png::PngEncoder::new(&mut png)
        .write_image(&vec![0u8; 2 * 65538 * 3], 2, 65538, image::ColorType::Rgb8)
        .unwrap();
    let err = process(Some(png), Some(65535), Some(2)).unwrap_err();
    assert_eq!(err, InternalError::IntermediateTooLarge);
}
