use vibrant::clamp_saturation;
use vibrant::ctm_decode;
use vibrant::ctm_encode;
use vibrant::ctm_pack;
use vibrant::ctm_unpack;
use vibrant::saturation_from_property;
use vibrant::vendor_decode;
use vibrant::vendor_encode;

/// One Q31.32 unit per 1.0 of saturation.
const FP_SCALE: f64 = 4294967296.0;

fn to_fp(s: f64) -> i64 {
    (s * FP_SCALE) as i64
}

fn from_fp(v: i64) -> f64 {
    v as f64 / FP_SCALE
}

fn from_fp128(v: i128) -> f64 {
    v as f64 / FP_SCALE
}

#[test]
fn vendor_boundary_scenario() {
    // 1.0 sits exactly on the boundary between the two branches of the scale
    assert_eq!(vendor_encode(to_fp(1.0)), 0);
    assert_eq!(vendor_decode(0), 1i64 << 32);
    assert_eq!(from_fp(vendor_decode(0)), 1.0);
}

#[test]
fn vendor_extremes() {
    assert_eq!(vendor_encode(to_fp(0.0)), -1024);
    assert_eq!(vendor_encode(to_fp(4.0)), 1023);
    assert_eq!(from_fp(vendor_decode(-1024)), 0.0);
    assert_eq!(from_fp(vendor_decode(1023)), 4.0);
}

#[test]
fn vendor_decode_below_native() {
    // (-512 + 1024) / 1024 == 0.5, exactly representable
    assert_eq!(from_fp(vendor_decode(-512)), 0.5);
    assert_eq!(from_fp(vendor_decode(-256)), 0.75);
}

#[test]
fn vendor_round_trip_below_native() {
    for k in 0..=4096 {
        let s = k as f64 / 4096.0;
        let v = to_fp(s);
        let rt = vendor_decode(vendor_encode(v));
        let diff = v - rt;
        assert!(0 <= diff && diff < 1 << 22, "saturation {} drifted by {}", s, diff);
        assert!((s - from_fp(rt)).abs() <= 1.0 / 1024.0);
    }
}

#[test]
fn vendor_round_trip_above_native() {
    for k in 1..=3000 {
        let s = 1.0 + 3.0 * k as f64 / 3000.0;
        let v = to_fp(s);
        let rt = vendor_decode(vendor_encode(v));
        let diff = v - rt;
        assert!(0 <= diff, "saturation {} overshot by {}", s, -diff);
        // within 3/1023, plus one Q31.32 step of decode truncation
        assert!(1023 * diff < 3 * (1i64 << 32) + 1023, "saturation {} drifted by {}", s, diff);
        assert!((s - from_fp(rt)).abs() <= 3.0 / 1023.0 + 1e-9);
    }
}

#[test]
fn encode_clamps() {
    assert_eq!(vendor_encode(to_fp(-1.0)), vendor_encode(to_fp(0.0)));
    assert_eq!(vendor_encode(to_fp(5.0)), vendor_encode(to_fp(4.0)));
    assert_eq!(ctm_encode(to_fp(-1.0)), ctm_encode(to_fp(0.0)));
    assert_eq!(ctm_encode(to_fp(5.0)), ctm_encode(to_fp(4.0)));
}

#[test]
fn clamp_saturation_range() {
    assert_eq!(clamp_saturation(i64::MIN), 0);
    assert_eq!(clamp_saturation(-1), 0);
    assert_eq!(clamp_saturation(to_fp(2.5)), to_fp(2.5));
    assert_eq!(clamp_saturation(i64::MAX), to_fp(4.0));
}

#[test]
fn ctm_round_trip() {
    for k in 0..=4000 {
        let s = 4.0 * k as f64 / 4000.0;
        let v = to_fp(s);
        let rt = ctm_decode(&ctm_encode(v));
        let diff = v as i128 - rt;
        assert!(0 <= diff && diff <= 1, "saturation {} drifted by {}", s, diff);
        assert!((s - from_fp128(rt)).abs() <= 1e-6);
    }
}

#[test]
fn ctm_identity_scenario() {
    // saturation 1.0: coefficient 0.0, diagonal exactly 1.0 in Q31.32
    let m = ctm_encode(to_fp(1.0));
    let one = 1u64 << 32;
    assert_eq!(m, vec![one, 0, 0, 0, one, 0, 0, 0, one]);
    assert_eq!(ctm_decode(&m), 1i128 << 32);
    assert_eq!(from_fp128(ctm_decode(&m)), 1.0);
}

#[test]
fn ctm_gray_scenario() {
    // saturation 0.0: every entry is 1/3, truncated to Q31.32
    let m = ctm_encode(to_fp(0.0));
    let third = 0x5555_5555u64;
    assert_eq!(m, vec![third; 9]);
    assert_eq!(ctm_decode(&m), 0);
}

#[test]
fn ctm_oversaturated_entries() {
    // above 1.0 the off-diagonal coefficient is negative: sign bit set
    let m = ctm_encode(to_fp(4.0));
    assert_eq!(m[0], 3u64 << 32);
    assert_eq!(m[1], (1u64 << 63) | (1u64 << 32));
    assert_eq!(ctm_decode(&m), 4i128 << 32);
}

#[test]
fn ctm_pack_layout() {
    let m = vec![0x0123_4567_89AB_CDEFu64, 0, 0, 0, 0, 0, 0, 0, 0xFFFF_FFFF_0000_0001];
    let w = ctm_pack(&m);
    assert_eq!(w.len(), 18);
    assert_eq!(w[0], 0x89AB_CDEF); // low half first
    assert_eq!(w[1], 0x0123_4567); // then the high half
    assert_eq!(w[16], 0x0000_0001);
    assert_eq!(w[17], 0xFFFF_FFFF);
}

#[test]
fn ctm_pack_round_trip() {
    let cases: Vec<Vec<u64>> = vec![
        vec![0; 9],
        vec![u64::MAX; 9],
        vec![1u64 << 63, (1u64 << 63) | 1, 1, 0, u64::MAX, 0x8000_0000, 42, 7, 1u64 << 32],
        ctm_encode(to_fp(3.7)),
        ctm_encode(to_fp(0.2)),
    ];
    for m in cases {
        let w = ctm_pack(&m);
        assert_eq!(ctm_unpack(&w), m);
    }
}

#[test]
fn ctm_unpack_masks_high_garbage() {
    // only the low 32 bits of each property word are significant
    let mut w = ctm_pack(&vec![5u64; 9]);
    w[0] |= 0xFFFF_FFFF_0000_0000;
    let m = ctm_unpack(&w);
    assert_eq!(m[0], 5);
}

#[test]
fn property_read_good() {
    let m = ctm_encode(to_fp(2.0));
    let w = ctm_pack(&m);
    // at 2.0 the coefficient divisions by three truncate, costing the
    // round trip exactly one Q31.32 step
    assert_eq!(saturation_from_property(true, &w), (2i128 << 32) - 1);
    assert!((from_fp128(saturation_from_property(true, &w)) - 2.0).abs() <= 1e-6);
}

#[test]
fn property_read_failures_default_to_zero() {
    let w = ctm_pack(&ctm_encode(to_fp(2.0)));
    // wrong property type
    assert_eq!(saturation_from_property(false, &w), 0);
    // wrong element count
    assert_eq!(saturation_from_property(true, &vec![0u64; 17]), 0);
    assert_eq!(saturation_from_property(true, &Vec::new()), 0);
}
