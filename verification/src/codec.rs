//! Common ground of the two saturation codecs: the Q31.32 fixed-point
//! carrier for saturation values and the clamp to the legal range.

use vstd::prelude::*;

verus! {

/// 1.0 in Q31.32 fixed point.
pub const FP_ONE: i64 = 0x1_0000_0000;

/// The lowest legal saturation, 0.0, in Q31.32 fixed point.
pub const SATURATION_MIN_FP: i64 = 0;

/// The highest legal saturation, 4.0, in Q31.32 fixed point.
pub const SATURATION_MAX_FP: i64 = 0x4_0000_0000;

/// A saturation clamped to the legal range [0.0, 4.0].
pub open spec fn clamp_sat(v: int) -> int {
    if v < SATURATION_MIN_FP {
        SATURATION_MIN_FP as int
    } else if v > SATURATION_MAX_FP {
        SATURATION_MAX_FP as int
    } else {
        v
    }
}

/// Clamps a Q31.32 saturation to the legal range [0.0, 4.0]. Both codecs
/// apply this before encoding.
pub fn clamp_saturation(v: i64) -> (r: i64)
    ensures
        r == clamp_sat(v as int),
{
    if v < SATURATION_MIN_FP {
        SATURATION_MIN_FP
    } else if v > SATURATION_MAX_FP {
        SATURATION_MAX_FP
    } else {
        v
    }
}

} // verus!
