//! Digital-vibrance control library.
//!
//! A display output's color saturation can be driven through one of two
//! hardware paths: a GPU-vendor attribute (an integer-scaled control) or a
//! generic color-transform-matrix (CTM) output property (a 3x3 matrix of
//! signed Q31.32 fixed-point numbers). This crate holds the logic that is
//! independent of the display server: the two saturation codecs, the CTM
//! word packing, and the classification of outputs into backends.
//!
//! Saturation is a logical value in [0.0, 4.0], where 1.0 is native
//! saturation. Inside this crate a saturation is carried in Q31.32 fixed
//! point: an `i64` holding `value * 2^32`, so `0x1_0000_0000` is 1.0.

use vstd::prelude::*;

pub mod codec;
pub mod controller;
pub mod ctm;
pub mod error;
pub mod vendor;

pub use codec::clamp_saturation;
pub use codec::FP_ONE;
pub use codec::SATURATION_MAX_FP;
pub use codec::SATURATION_MIN_FP;
pub use controller::backend_of;
pub use controller::classify;
pub use controller::classify_s;
pub use controller::connected_outputs;
pub use controller::get_controllers;
pub use controller::lemma_unclassifiable;
pub use controller::lemma_vendor_priority;
pub use controller::output_of;
pub use controller::vendor_id_for;
pub use controller::vendor_match;
pub use controller::Controller;
pub use controller::ControllerBackend;
pub use controller::CTMController;
pub use controller::NvidiaController;
pub use controller::OutputCandidate;
pub use controller::OutputHandle;
pub use controller::VendorDisplayId;
pub use ctm::ctm_decode;
pub use ctm::ctm_encode;
pub use ctm::ctm_pack;
pub use ctm::ctm_unpack;
pub use ctm::lemma_ctm_round_trip;
pub use ctm::lemma_ctm_words_round_trip;
pub use ctm::saturation_from_property;
pub use ctm::SIGN_BIT;
pub use error::Error;
pub use vendor::lemma_vendor_round_trip_high;
pub use vendor::lemma_vendor_round_trip_low;
pub use vendor::vendor_decode;
pub use vendor::vendor_encode;

verus! {

/// Law: both codecs clamp before encoding. Any saturation at or below 0.0
/// encodes exactly as 0.0 does, and any at or above 4.0 exactly as 4.0
/// does — for the vendor attribute and for the CTM alike, since each
/// encoder's contract makes its result a function of the clamped
/// saturation alone.
pub proof fn lemma_encode_clamps(v: int)
    ensures
        v <= 0 ==> vendor::vendor_encode_fp(codec::clamp_sat(v)) == vendor::vendor_encode_fp(
            codec::clamp_sat(0),
        ),
        v <= 0 ==> ctm::ctm_encode_fp(codec::clamp_sat(v)) == ctm::ctm_encode_fp(
            codec::clamp_sat(0),
        ),
        v >= 0x4_0000_0000 ==> vendor::vendor_encode_fp(codec::clamp_sat(v))
            == vendor::vendor_encode_fp(codec::clamp_sat(0x4_0000_0000)),
        v >= 0x4_0000_0000 ==> ctm::ctm_encode_fp(codec::clamp_sat(v)) == ctm::ctm_encode_fp(
            codec::clamp_sat(0x4_0000_0000),
        ),
{
}

} // verus!
