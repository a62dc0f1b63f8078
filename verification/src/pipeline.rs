//! The per-request pipeline: source bytes (if any) in, outcome out. Decode,
//! plan the target dimensions, resample, re-encode as JPEG.

use vstd::prelude::*;

use crate::codec::{decode, decode_rgb_spec, encode, jpeg_bytes_spec, MAX_DECODE_PIXELS};
use crate::dims::{plan, plan_spec};
use crate::policy::{Metrics, Outcome};
use crate::resample::resize;

verus! {

/// Largest width or height the JPEG encoder accepts.
pub const JPEG_MAX_DIM: u32 = 65535;

/// A programming-invariant violation rather than a per-request failure: the
/// pipeline met dimensions beyond what the resampler or the JPEG encoder can
/// represent. The caller is expected to escalate it as fatal.
#[derive(Clone, Copy, PartialEq, Eq, Structural, Debug)]
pub enum InternalError {
    /// The decoded source has more pixels than the resampler's `u32` sizing
    /// arithmetic can count.
    SourceTooLarge,
    /// A planned target dimension does not fit the JPEG format's `u16`.
    TargetTooLarge,
    /// The resampler's intermediate image — the target width by a span of
    /// source rows — has more pixels than its `u32` sizing arithmetic can
    /// count.
    IntermediateTooLarge,
}

/// The target the planner yields for these source bytes and this request,
/// as a `(width, height)` pair of mathematical integers.
pub open spec fn planned_target(bytes: Seq<u8>, rw: Option<u32>, rh: Option<u32>) -> (int, int)
    recommends
        decode_rgb_spec(bytes) is Some,
{
    let t = decode_rgb_spec(bytes)->Some_0;
    plan_spec(t.0 as int, t.1 as int, rw, rh)
}

/// The decoded source dimensions are positive.
pub open spec fn decodes_positive(bytes: Seq<u8>) -> bool {
    decode_rgb_spec(bytes) matches Some(t) && t.0 >= 1 && t.1 >= 1
}

/// A value strictly above the floor of `bound / divisor` times the divisor
/// exceeds the bound.
proof fn lemma_div_bound_exceeded(value: int, divisor: int, bound: int)
    requires
        divisor >= 1,
        bound >= 0,
        value > bound / divisor,
    ensures
        value * divisor > bound,
{
    let q = bound / divisor;
    vstd::arithmetic::div_mod::lemma_fundamental_div_mod(bound, divisor);
    vstd::arithmetic::div_mod::lemma_mod_bound(bound, divisor);
    assert((q + 1) * divisor == q * divisor + divisor) by (nonlinear_arith);
    assert(value * divisor >= (q + 1) * divisor) by (nonlinear_arith)
        requires
            value >= q + 1,
            divisor >= 1,
    ;
    assert(divisor * q == q * divisor) by (nonlinear_arith);
}

/// Run the pipeline on the resolved source bytes (`None` when both origins
/// missed) and the requested dimensions.
///
/// The outcome is `SourceNotFound` exactly when there are no source bytes;
/// `DecodeFailed` exactly when there are bytes that do not decode to an RGB8
/// image with positive dimensions; otherwise the target dimensions are the
/// planner's and the outcome is `Success`, carrying the JPEG encoding, at
/// those dimensions, of the resampler's output — a body that decodes back
/// to exactly the target dimensions whenever the target stays within the
/// decoder's default allocation limit — and the source and target
/// dimensions as metrics. `ResizeFailed` would surface an internal error of
/// the
/// resampling routine, which cannot arise within the bounds below.
///
/// `Err` escalates dimensions out of range (a source with more than
/// `u32::MAX` pixels, a planned target axis beyond `JPEG_MAX_DIM`, or a
/// resampler intermediate of more than `u32::MAX` pixels) as a fatal
/// internal error; no HTTP outcome is defined for them.
pub fn process(source: Option<Vec<u8>>, rw: Option<u32>, rh: Option<u32>) -> (r: Result<
    Outcome,
    InternalError,
>)
    requires
        rw matches Some(w) ==> w >= 1,
        rh matches Some(h) ==> h >= 1,
    ensures
        r matches Ok(Outcome::SourceNotFound) <==> source is None,
        source matches Some(b) && !decodes_positive(b@) <==> r matches Ok(Outcome::DecodeFailed),
        source matches Some(b) ==> decodes_positive(b@) ==> {
            let src = decode_rgb_spec(b@)->Some_0;
            let target = planned_target(b@, rw, rh);
            &&& (r matches Err(InternalError::SourceTooLarge) <==> src.0 * src.1 > u32::MAX)
            &&& (r matches Err(InternalError::TargetTooLarge) <==> src.0 * src.1 <= u32::MAX && (
            target.0 > JPEG_MAX_DIM || target.1 > JPEG_MAX_DIM))
            &&& (r matches Err(InternalError::IntermediateTooLarge) <==> src.0 * src.1 <= u32::MAX
                && target.0 <= JPEG_MAX_DIM && target.1 <= JPEG_MAX_DIM && target.0 * src.1
                > u32::MAX)
            &&& (src.0 * src.1 <= u32::MAX && target.0 <= JPEG_MAX_DIM && target.1 <= JPEG_MAX_DIM
                && target.0 * src.1 <= u32::MAX ==> (r matches Ok(o)
                && o matches Outcome::Success { body, metrics } && {
                &&& metrics == (Metrics {
                    source_width: src.0 as u32,
                    source_height: src.1 as u32,
                    target_width: target.0 as u32,
                    target_height: target.1 as u32,
                })
                &&& exists|p: Seq<u8>|
                    p.len() == target.0 * target.1 * 3 && body@ == jpeg_bytes_spec(
                        target.0 as nat,
                        target.1 as nat,
                        p,
                    )
                &&& target.0 * target.1 <= MAX_DECODE_PIXELS ==> (decode_rgb_spec(body@) matches
                Some(d) && d.0 == target.0 && d.1 == target.1)
            }))
        },
{
    let bytes = match source {
        None => {
            return Ok(Outcome::SourceNotFound);
        },
        Some(bytes) => bytes,
    };
    let img = match decode(&bytes) {
        None => {
            return Ok(Outcome::DecodeFailed);
        },
        Some(img) => img,
    };
    if img.width > u32::MAX / img.height {
        proof {
            lemma_div_bound_exceeded(img.width as int, img.height as int, u32::MAX as int);
        }
        return Err(InternalError::SourceTooLarge);
    }
    assert(img.width * img.height <= u32::MAX) by (nonlinear_arith)
        requires
            img.height >= 1,
            img.width <= u32::MAX as int / img.height as int,
    ;
    let target = plan(img.width, img.height, rw, rh);
    if target.width > JPEG_MAX_DIM || target.height > JPEG_MAX_DIM {
        return Err(InternalError::TargetTooLarge);
    }
    assert(target.width * target.height <= u32::MAX) by (nonlinear_arith)
        requires
            target.width <= 65535,
            target.height <= 65535,
    ;
    if target.width > u32::MAX / img.height {
        proof {
            lemma_div_bound_exceeded(target.width as int, img.height as int, u32::MAX as int);
        }
        return Err(InternalError::IntermediateTooLarge);
    }
    assert(target.width * img.height <= u32::MAX) by (nonlinear_arith)
        requires
            img.height >= 1,
            target.width <= u32::MAX as int / img.height as int,
    ;
    let source_width = img.width;
    let source_height = img.height;
    // `resize` owes `Some` within these bounds, so this arm is provably
    // unreachable; it stays so that an internal resampler error would
    // surface as an outcome rather than a panic.
    let resized = match resize(img, target) {
        None => {
            return Ok(Outcome::ResizeFailed);
        },
        Some(resized) => resized,
    };
    let body = encode(&resized);
    let metrics = Metrics {
        source_width,
        source_height,
        target_width: target.width,
        target_height: target.height,
    };
    proof {
        assert(body@ == jpeg_bytes_spec(
            target.width as nat,
            target.height as nat,
            resized.pixels@,
        ));
    }
    Ok(Outcome::Success { body, metrics })
}

} // verus!
