//! Resize engine: scale a raw RGB8 pixel buffer to the target dimensions
//! with a fixed Lanczos3 convolution filter, for both upscaling and
//! downscaling.

use vstd::prelude::*;

use crate::codec::DecodedImage;
use crate::dims::TargetDimensions;
use fast_image_resize as fir;
use std::num::NonZeroU32;

verus! {

/// Relies on `fast_image_resize`: `Image::from_vec_u8` accepts a `U8x3`
/// buffer of exactly `width * height * 3` bytes, `Image::new` allocates the
/// target buffer of `target_width * target_height * 3` bytes, and
/// `Resizer::resize` with a Lanczos3 convolution fills it. The crate sizes
/// every buffer in `u32` arithmetic, including a temporary image of the
/// target width by a span of source rows that it builds when both axes
/// change, so the source product, the target product, and the cross product
/// `tw * height` must all stay within `u32`. Within those bounds nothing
/// fails: `from_vec_u8` errs only on a short or misaligned buffer (excluded
/// by the exact length and U8x3's byte alignment) and `resize` errs only for
/// views of different pixel types (both here are U8x3), so the result is
/// always `Some`.
#[verifier::external_body]
fn resample_rgb_raw(width: u32, height: u32, pixels: Vec<u8>, tw: u32, th: u32) -> (r: Option<
    Vec<u8>,
>)
    requires
        1 <= width,
        1 <= height,
        width * height <= u32::MAX,
        pixels@.len() == width * height * 3,
        1 <= tw,
        1 <= th,
        tw * th <= u32::MAX,
        tw * height <= u32::MAX,
    ensures
        r is Some,
        r matches Some(out) ==> out@.len() == tw * th * 3,
{
    let (w, h) = (NonZeroU32::new(width).unwrap(), NonZeroU32::new(height).unwrap());
    let (tw, th) = (NonZeroU32::new(tw).unwrap(), NonZeroU32::new(th).unwrap());
    let src = match fir::Image::from_vec_u8(w, h, pixels, fir::PixelType::U8x3) {
        Ok(src) => src,
        Err(_) => return None,
    };
    let mut dst = fir::Image::new(tw, th, fir::PixelType::U8x3);
    let mut rz = fir::Resizer::new(fir::ResizeAlg::Convolution(fir::FilterType::Lanczos3));
    match rz.resize(&src.view(), &mut dst.view_mut()) {
        Ok(()) => Some(dst.buffer().to_vec()),
        Err(_) => None,
    }
}

/// Scale `img` to the target dimensions. Within the `u32` pixel-count
/// bounds of the resampler the call cannot fail, and the result is a
/// well-formed image of exactly the target dimensions; `None` would signal
/// an internal error of the resampling routine and is surfaced rather than
/// escalated.
pub fn resize(img: DecodedImage, target: TargetDimensions) -> (r: Option<DecodedImage>)
    requires
        img.wf(),
        img.width * img.height <= u32::MAX,
        target.width >= 1,
        target.height >= 1,
        target.width * target.height <= u32::MAX,
        target.width * img.height <= u32::MAX,
    ensures
        r is Some,
        r matches Some(out) ==> out.wf() && out.width == target.width && out.height
            == target.height,
{
    match resample_rgb_raw(img.width, img.height, img.pixels, target.width, target.height) {
        Some(pixels) => Some(
            DecodedImage { width: target.width, height: target.height, pixels },
        ),
        None => None,
    }
}

} // verus!
