//! The vendor-attribute saturation codec.
//!
//! The GPU vendor exposes saturation as a signed integer attribute on an
//! asymmetric, piecewise-linear scale: `[-1024, 0)` covers saturations
//! `[0.0, 1.0)` in 1024 steps, while `[0, 1023]` covers `[1.0, 4.0]` in
//! 1023 steps of three native units each. The codec translates between that
//! raw attribute and the Q31.32 saturation carrier.

use vstd::arithmetic::div_mod::{
    lemma_fundamental_div_mod, lemma_fundamental_div_mod_converse,
};
use vstd::prelude::*;

use crate::codec::clamp_sat;

verus! {

/// The raw attribute for a legal Q31.32 saturation `v` in `[0, 4 * 2^32]`:
/// `floor(s * 1024) - 1024` at or below native saturation, else
/// `floor(((s - 1) * 1023) / 3)`.
pub open spec fn vendor_encode_fp(v: int) -> int {
    if v <= 0x1_0000_0000 {
        v * 1024 / 0x1_0000_0000 - 1024
    } else {
        (v - 0x1_0000_0000) * 1023 / 0x3_0000_0000
    }
}

/// The Q31.32 saturation a raw attribute stands for: `(raw + 1024) / 1024`
/// below zero, else `(raw * 3 + 1023) / 1023`, truncated to Q31.32
/// resolution.
pub open spec fn vendor_decode_fp(raw: int) -> int {
    if raw < 0 {
        (raw + 1024) * 0x40_0000
    } else {
        (raw * 3 + 1023) * 0x1_0000_0000 / 1023
    }
}

/// Encodes a Q31.32 saturation as the vendor's raw attribute. The input is
/// clamped to [0.0, 4.0] first; the result always lies in [-1024, 1023].
pub fn vendor_encode(saturation: i64) -> (raw: i32)
    ensures
        raw == vendor_encode_fp(clamp_sat(saturation as int)),
        -1024 <= raw <= 1023,
{
    let v: u64 = crate::codec::clamp_saturation(saturation) as u64;
    if v <= 0x1_0000_0000 {
        let q: u64 = v * 1024 / 0x1_0000_0000;
        (q as i32) - 1024
    } else {
        let q: u64 = (v - 0x1_0000_0000) * 1023 / 0x3_0000_0000;
        assert(q <= 1023) by {
            assert((v - 0x1_0000_0000) * 1023 <= 0x3_0000_0000 * 1023) by (nonlinear_arith)
                requires
                    v <= 0x4_0000_0000;
        }
        q as i32
    }
}

/// Decodes the vendor's raw attribute back to a Q31.32 saturation.
pub fn vendor_decode(raw: i32) -> (v: i64)
    ensures
        v == vendor_decode_fp(raw as int),
{
    if raw < 0 {
        ((raw as i64) + 1024) * 0x40_0000
    } else {
        let n: u128 = ((raw as u128) * 3 + 1023) * 0x1_0000_0000;
        (n / 1023) as i64
    }
}

/// Law: encoding a saturation at or below native (s in [0.0, 1.0]) and
/// decoding the attribute again recovers it to within 1/1024, the pitch of
/// the lower half of the vendor scale.
pub proof fn lemma_vendor_round_trip_low(v: int)
    requires
        0 <= v <= 0x1_0000_0000,
    ensures
        0 <= v - vendor_decode_fp(vendor_encode_fp(v)) < 0x40_0000,
{
    let q = v * 1024 / 0x1_0000_0000;
    lemma_fundamental_div_mod(v * 1024, 0x1_0000_0000);
    let r = (v * 1024) % 0x1_0000_0000;
    assert(v * 1024 == 0x1_0000_0000 * q + r);
    if q == 1024 {
        // only v == 2^32 reaches the top step; its attribute is 0 and the
        // non-negative decode branch returns exactly 1.0
        assert(v == 0x1_0000_0000);
        assert(vendor_encode_fp(v) == 0);
        assert(vendor_decode_fp(0) == 0x1_0000_0000);
    } else {
        assert(0 <= q < 1024);
        assert(vendor_decode_fp(q - 1024) == q * 0x40_0000);
        assert(1024 * (v - q * 0x40_0000) == r);
    }
}

/// Law: encoding a saturation above native (s in (1.0, 4.0]) and decoding
/// the attribute again recovers it to within 3/1023 — the pitch of the
/// upper half of the scale — plus at most one Q31.32 step lost to
/// fixed-point truncation in the decoder.
pub proof fn lemma_vendor_round_trip_high(v: int)
    requires
        0x1_0000_0000 < v <= 0x4_0000_0000,
    ensures
        0 <= v - vendor_decode_fp(vendor_encode_fp(v)),
        1023 * (v - vendor_decode_fp(vendor_encode_fp(v))) < 3 * 0x1_0000_0000 + 1023,
{
    let d = v - 0x1_0000_0000;
    let raw = d * 1023 / 0x3_0000_0000;
    lemma_fundamental_div_mod(d * 1023, 0x3_0000_0000);
    let r1 = (d * 1023) % 0x3_0000_0000;
    assert(d * 1023 == 0x3_0000_0000 * raw + r1);
    assert(raw >= 0) by {
        assert(d * 1023 >= 0) by (nonlinear_arith)
            requires
                d > 0;
    }
    // (raw * 3 + 1023) * 2^32 == 1023 * (raw * 2^32 / 341 ... ) — instead,
    // show the decode quotient directly: its dividend splits as
    // 1023 * (decoded - 2^32) == raw * 3 * 2^32 - 1023 * remainder-part.
    let dec = (raw * 3 + 1023) * 0x1_0000_0000 / 1023;
    let a = raw * 0x3_0000_0000;
    // (raw * 3 + 1023) * 2^32 == a + 1023 * 2^32
    assert((raw * 3 + 1023) * 0x1_0000_0000 == raw * 0x3_0000_0000 + 1023 * 0x1_0000_0000)
        by (nonlinear_arith);
    lemma_fundamental_div_mod(a, 1023);
    let q2 = a / 1023;
    let r2 = a % 1023;
    assert(a == 1023 * q2 + r2);
    assert(a + 1023 * 0x1_0000_0000 == 1023 * (q2 + 0x1_0000_0000) + r2);
    lemma_fundamental_div_mod_converse(a + 1023 * 0x1_0000_0000, 1023, q2 + 0x1_0000_0000, r2);
    assert(dec == q2 + 0x1_0000_0000);
    // relate q2 back to d: 1023 * a == 1023 * (d * 1023 - r1) ... keep linear:
    // a == 0x3_0000_0000 * raw == d * 1023 - r1
    assert(a == d * 1023 - r1);
    // so 1023 * q2 == d * 1023 - r1 - r2, giving the bounds
    assert(1023 * (d - q2) == r1 + r2);
    assert(0 <= r1 < 0x3_0000_0000 && 0 <= r2 < 1023);
}

} // verus!
