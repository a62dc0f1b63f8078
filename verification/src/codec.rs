//! Codec adapter: decode arbitrary-format image bytes into a raw RGB8 pixel
//! buffer, and encode a raw RGB8 pixel buffer as JPEG.

use vstd::prelude::*;

use image::ImageEncoder;

verus! {

/// A decoded image: a row-major RGB8 pixel buffer together with its
/// dimensions. Well-formed values have both dimensions at least 1 and a
/// buffer of exactly `width * height * 3` bytes.
pub struct DecodedImage {
    pub width: u32,
    pub height: u32,
    pub pixels: Vec<u8>,
}

impl DecodedImage {
    /// Both dimensions are at least 1 and the buffer length matches them.
    pub open spec fn wf(&self) -> bool {
        &&& self.width >= 1
        &&& self.height >= 1
        &&& self.pixels@.len() == self.width * self.height * 3
    }
}

/// What decoding a byte sequence to RGB8 yields: `None` when the bytes are
/// not a decodable image, otherwise the width, the height, and the row-major
/// RGB8 pixel buffer. Decoding is a pure function of the bytes alone.
pub uninterp spec fn decode_rgb_spec(bytes: Seq<u8>) -> Option<(nat, nat, Seq<u8>)>;

/// The JPEG encoding (at the encoder's default quality) of an RGB8 pixel
/// buffer with the given dimensions: a pure function of its arguments.
pub uninterp spec fn jpeg_bytes_spec(width: nat, height: nat, pixels: Seq<u8>) -> Seq<u8>;

/// Largest pixel count whose RGB8 buffer stays within the decoder's fixed
/// default allocation limit of 512 MiB: `(512 * 1024 * 1024) / 3`, rounded
/// down. An encoded image is warranted to decode back only within it.
pub const MAX_DECODE_PIXELS: u64 = 178956970;

/// Relies on `image::load_from_memory` to decode the bytes (any format the
/// crate supports) and on `image::DynamicImage::to_rgb8` to normalize the
/// result to RGB8, dropping any alpha channel. An `RgbImage`'s raw buffer
/// holds exactly `width * height * 3` bytes.
#[verifier::external_body]
fn decode_rgb_raw(bytes: &Vec<u8>) -> (r: Option<(u32, u32, Vec<u8>)>)
    ensures
        r is Some <==> decode_rgb_spec(bytes@) is Some,
        r matches Some(t) ==> decode_rgb_spec(bytes@) == Some(
            (t.0 as nat, t.1 as nat, t.2@),
        ) && t.2@.len() == t.0 * t.1 * 3,
{
    match image::load_from_memory(bytes.as_slice()) {
        Ok(img) => {
            let rgb = img.to_rgb8();
            Some((rgb.width(), rgb.height(), rgb.into_raw()))
        },
        Err(_) => None,
    }
}

/// Relies on `image::codecs::jpeg::JpegEncoder::write_image`, which succeeds
/// for an RGB8 buffer of matching length whose dimensions fit in a `u16`, and
/// writes the JPEG stream into the given `Vec`. The stream records its
/// dimensions in its frame header, so decoding it back with the same crate
/// recovers exactly the encoded width and height — but only while the pixel
/// buffer stays within the decoder's fixed default allocation limit
/// (`load_from_memory` reserves `width * height * 3` bytes against a 512 MiB
/// cap and deterministically errs beyond it), so the decode-back clauses
/// hold only under that bound.
#[verifier::external_body]
fn jpeg_encode_raw(width: u32, height: u32, pixels: &Vec<u8>) -> (r: Vec<u8>)
    requires
        1 <= width <= 65535,
        1 <= height <= 65535,
        pixels@.len() == width * height * 3,
    ensures
        r@ == jpeg_bytes_spec(width as nat, height as nat, pixels@),
        width * height <= MAX_DECODE_PIXELS ==> decode_rgb_spec(r@) is Some,
        width * height <= MAX_DECODE_PIXELS ==> decode_rgb_spec(r@)->Some_0.0 == width as nat,
        width * height <= MAX_DECODE_PIXELS ==> decode_rgb_spec(r@)->Some_0.1 == height as nat,
{
    let mut out = Vec::new();
    image::codecs::jpeg::JpegEncoder::new(&mut out)
        .write_image(pixels.as_slice(), width, height, image::ColorType::Rgb8)
        .unwrap();
    out
}

/// Decode the bytes into an RGB8 image. Returns `None` exactly when the
/// bytes are not a decodable image or decode to an image with a zero
/// dimension; otherwise the result is well-formed and is the decoding of the
/// bytes.
pub fn decode(bytes: &Vec<u8>) -> (r: Option<DecodedImage>)
    ensures
        r is Some <==> (decode_rgb_spec(bytes@) matches Some(t) && t.0 >= 1 && t.1 >= 1),
        r matches Some(img) ==> img.wf() && decode_rgb_spec(bytes@) == Some(
            (img.width as nat, img.height as nat, img.pixels@),
        ),
{
    match decode_rgb_raw(bytes) {
        Some((width, height, pixels)) => {
            if width >= 1 && height >= 1 {
                Some(DecodedImage { width, height, pixels })
            } else {
                None
            }
        },
        None => None,
    }
}

/// Encode a well-formed image as JPEG at the encoder's default quality. The
/// dimensions must fit in a `u16`, the limit of the JPEG format. Decoding
/// the result recovers exactly the encoded dimensions, as long as the pixel
/// count stays within the decoder's default allocation limit.
pub fn encode(img: &DecodedImage) -> (r: Vec<u8>)
    requires
        img.wf(),
        img.width <= 65535,
        img.height <= 65535,
    ensures
        r@ == jpeg_bytes_spec(img.width as nat, img.height as nat, img.pixels@),
        img.width * img.height <= MAX_DECODE_PIXELS ==> decode_rgb_spec(r@) is Some,
        img.width * img.height <= MAX_DECODE_PIXELS ==> decode_rgb_spec(r@)->Some_0.0 == img.width
            as nat,
        img.width * img.height <= MAX_DECODE_PIXELS ==> decode_rgb_spec(r@)->Some_0.1 == img.height
            as nat,
{
    jpeg_encode_raw(img.width, img.height, &img.pixels)
}

} // verus!
