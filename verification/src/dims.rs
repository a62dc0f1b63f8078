//! Dimension planning: from the source image size and the optional requested
//! width and height, compute the target size of the resized image.
//!
//! Policy, in priority order:
//! 1. both axes requested: use them verbatim (the source aspect ratio is
//!    ignored and the output may be stretched);
//! 2. only the width requested: the height is the source height scaled by the
//!    same ratio, rounded to the nearest integer (half away from zero);
//! 3. only the height requested: symmetric to the previous case;
//! 4. neither requested: each axis is a quarter of the source, truncating.
//!
//! A computed axis is clamped to at least 1 (a zero-size target is invalid
//! input to the resampler) and saturates at `u32::MAX`.

use vstd::prelude::*;

verus! {

/// Target size of the resized image; both axes are at least 1.
#[derive(Clone, Copy, PartialEq, Eq, Structural, Debug)]
pub struct TargetDimensions {
    pub width: u32,
    pub height: u32,
}

/// Nearest-integer value of `n / d`, rounding half away from zero, for
/// nonnegative `n` and positive `d`.
pub open spec fn round_div(n: int, d: int) -> int
    recommends
        n >= 0,
        d >= 1,
{
    (2 * n + d) / (2 * d)
}

/// A computed axis is clamped to at least 1 and saturates at `u32::MAX`.
pub open spec fn clamp_axis(v: int) -> int {
    if v < 1 {
        1
    } else if v > u32::MAX {
        u32::MAX as int
    } else {
        v
    }
}

/// The default target on one axis: a quarter of the source, truncating,
/// with a floor of 1.
pub open spec fn quarter_axis(s: int) -> int {
    if s / 4 < 1 {
        1
    } else {
        s / 4
    }
}

/// The planned target size as a `(width, height)` pair of mathematical
/// integers, before being packed into `TargetDimensions`.
pub open spec fn plan_spec(sw: int, sh: int, rw: Option<u32>, rh: Option<u32>) -> (int, int) {
    match (rw, rh) {
        (Some(w), Some(h)) => (w as int, h as int),
        (Some(w), None) => (w as int, clamp_axis(round_div(sh * w, sw))),
        (None, Some(h)) => (clamp_axis(round_div(sw * h, sh)), h as int),
        (None, None) => (quarter_axis(sw), quarter_axis(sh)),
    }
}

/// Divide `n` by `d` rounding half away from zero, saturating at `u32::MAX`
/// and clamping to at least 1.
fn scaled_axis(n: u64, d: u32) -> (r: u32)
    requires
        d >= 1,
    ensures
        r as int == clamp_axis(round_div(n as int, d as int)),
{
    let num: u128 = 2 * (n as u128) + (d as u128);
    let den: u128 = 2 * (d as u128);
    let q: u128 = num / den;
    assert(q as int == round_div(n as int, d as int));
    assert(round_div(n as int, d as int) >= 0) by {
        vstd::arithmetic::div_mod::lemma_div_is_ordered(0, 2 * (n as int) + d, 2 * (d as int));
    }
    if q > u32::MAX as u128 {
        u32::MAX
    } else if q < 1 {
        1
    } else {
        q as u32
    }
}

/// Rounding half away from zero lands within half a divisor of the exact
/// ratio: `2 * |d * round_div(n, d) - n| <= d`.
pub proof fn lemma_round_div_error(n: int, d: int)
    requires
        n >= 0,
        d >= 1,
    ensures
        -d < 2 * (d * round_div(n, d) - n) <= d,
{
    let q = round_div(n, d);
    let rem = (2 * n + d) % (2 * d);
    vstd::arithmetic::div_mod::lemma_fundamental_div_mod(2 * n + d, 2 * d);
    vstd::arithmetic::div_mod::lemma_mod_bound(2 * n + d, 2 * d);
    assert(-d < 2 * (d * q - n) <= d) by (nonlinear_arith)
        requires
            2 * n + d == 2 * d * q + rem,
            0 <= rem < 2 * d,
            d >= 1,
    ;
}

/// Aspect-ratio round trip: when one axis is requested and the other is
/// derived by rounding, deriving the source axis back from the target pair
/// recovers it within one, provided the request does not shrink the given
/// axis to less than half (a stronger shrink makes the rounding error on the
/// way back larger than one). The derived axis is also at least 1, so no
/// clamping disturbs the correspondence.
pub proof fn lemma_aspect_round_trip(s_given: int, s_other: int, r_given: int)
    requires
        s_given >= 1,
        s_other >= 1,
        r_given >= 1,
        s_given <= 2 * r_given,
    ensures
        round_div(s_other * r_given, s_given) >= 1,
        s_other - 1 <= round_div(
            round_div(s_other * r_given, s_given) * s_given,
            r_given,
        ) <= s_other + 1,
{
    let n1 = s_other * r_given;
    let t = round_div(n1, s_given);
    assert(n1 >= r_given) by (nonlinear_arith)
        requires
            n1 == s_other * r_given,
            s_other >= 1,
            r_given >= 1,
    ;
    // 2 * n1 + s_given >= 2 * s_given, so the quotient is at least 1.
    vstd::arithmetic::div_mod::lemma_div_is_ordered(
        2 * s_given,
        2 * n1 + s_given,
        2 * s_given,
    );
    vstd::arithmetic::div_mod::lemma_div_by_self(2 * s_given);
    assert(t >= 1);
    let n2 = t * s_given;
    let back = round_div(n2, r_given);
    assert(n2 >= 0) by (nonlinear_arith)
        requires
            n2 == t * s_given,
            t >= 1,
            s_given >= 1,
    ;
    lemma_round_div_error(n1, s_given);
    lemma_round_div_error(n2, r_given);
    assert(s_other - 1 <= back <= s_other + 1) by (nonlinear_arith)
        requires
            s_given >= 1,
            r_given >= 1,
            s_given <= 2 * r_given,
            n1 == s_other * r_given,
            n2 == t * s_given,
            -s_given < 2 * (s_given * t - n1) <= s_given,
            -r_given < 2 * (r_given * back - n2) <= r_given,
    ;
}

/// The aspect-ratio law at the planner: when only the width is requested,
/// the planned height is at least 1 and, mapped back through the same
/// rounding, recovers the source height within one — provided the width is
/// not shrunk below half (`sw <= 2 * rw`) and the derived height does not
/// saturate. By the symmetry of `plan_spec`, the same holds of a
/// height-only request with the axes exchanged.
pub proof fn lemma_plan_aspect_round_trip(sw: int, sh: int, rw: u32)
    requires
        sw >= 1,
        sh >= 1,
        rw >= 1,
        sw <= 2 * (rw as int),
        round_div(sh * rw, sw) <= u32::MAX,
    ensures
        ({
            let th = plan_spec(sw, sh, Some(rw), None).1;
            &&& th >= 1
            &&& th == round_div(sh * rw, sw)
            &&& sh - 1 <= round_div(th * sw, rw as int) <= sh + 1
        }),
{
    lemma_aspect_round_trip(sw, sh, rw as int);
}

/// The product of two axis values fits in a `u64`.
proof fn lemma_axis_product_fits(a: int, b: int)
    by (nonlinear_arith)
    requires
        0 <= a <= u32::MAX,
        0 <= b <= u32::MAX,
    ensures
        a * b <= u64::MAX,
{
}

/// Compute the target dimensions for a source of `sw` by `sh` pixels and an
/// optional requested width and height, following the policy above.
///
/// Both axes of the result are at least 1, so the target is always a valid
/// input to the resampler.
pub fn plan(sw: u32, sh: u32, rw: Option<u32>, rh: Option<u32>) -> (t: TargetDimensions)
    requires
        sw >= 1,
        sh >= 1,
        rw matches Some(w) ==> w >= 1,
        rh matches Some(h) ==> h >= 1,
    ensures
        t.width as int == plan_spec(sw as int, sh as int, rw, rh).0,
        t.height as int == plan_spec(sw as int, sh as int, rw, rh).1,
        t.width >= 1,
        t.height >= 1,
{
    match (rw, rh) {
        (Some(w), Some(h)) => TargetDimensions { width: w, height: h },
        (Some(w), None) => {
            proof {
                lemma_axis_product_fits(sh as int, w as int);
            }
            let h = scaled_axis((sh as u64) * (w as u64), sw);
            TargetDimensions { width: w, height: h }
        },
        (None, Some(h)) => {
            proof {
                lemma_axis_product_fits(sw as int, h as int);
            }
            let w = scaled_axis((sw as u64) * (h as u64), sh);
            TargetDimensions { width: w, height: h }
        },
        (None, None) => {
            let w = sw / 4;
            let h = sh / 4;
            TargetDimensions {
                width: if w < 1 { 1 } else { w },
                height: if h < 1 { 1 } else { h },
            }
        },
    }
}

} // verus!
