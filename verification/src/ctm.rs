//! The color-transform-matrix (CTM) saturation codec.
//!
//! A saturation `s` becomes the luminance-preserving 3x3 matrix whose
//! diagonal entries are `coeff + s` and whose other entries are `coeff`,
//! with `coeff = (1 - s) / 3`: the matrix blends every pixel toward gray.
//! Each entry is carried in signed Q31.32 sign-magnitude form in a `u64`
//! (bit 63 is the sign, the rest the magnitude), and the nine entries
//! travel on the wire as eighteen property words, each holding one 32-bit
//! half of an entry. Decoding recovers `s` as the difference between the
//! top-left entry and its horizontal neighbor.

use vstd::arithmetic::div_mod::{
    lemma_add_mod_noop, lemma_fundamental_div_mod, lemma_fundamental_div_mod_converse,
    lemma_mod_multiples_basic, lemma_mod_multiples_vanish,
};
use vstd::prelude::*;

use crate::codec::clamp_sat;

verus! {

/// The sign bit of a Q31.32 sign-magnitude matrix entry.
pub const SIGN_BIT: u64 = 0x8000_0000_0000_0000;

/// Magnitude of the off-diagonal coefficient `(1 - s) / 3` in Q31.32,
/// truncated toward zero.
pub open spec fn ctm_off_mag(v: int) -> int {
    if v <= 0x1_0000_0000 {
        (0x1_0000_0000 - v) / 3
    } else {
        (v - 0x1_0000_0000) / 3
    }
}

/// Whether the off-diagonal coefficient is negative, which happens above
/// native saturation.
pub open spec fn ctm_off_neg(v: int) -> bool {
    v > 0x1_0000_0000
}

/// Magnitude of a diagonal entry `coeff + s == (1 + 2 s) / 3` in Q31.32,
/// truncated. Never negative for a legal saturation.
pub open spec fn ctm_diag_mag(v: int) -> int {
    (0x1_0000_0000 + 2 * v) / 3
}

/// Matrix entry `i` (row-major) for the Q31.32 saturation `v`: positions
/// 0, 4 and 8 are diagonal, all others carry the shared coefficient.
pub open spec fn ctm_entry_fp(v: int, i: int) -> u64 {
    if i % 4 == 0 {
        ctm_diag_mag(v) as u64
    } else if ctm_off_neg(v) {
        (ctm_off_mag(v) + SIGN_BIT) as u64
    } else {
        ctm_off_mag(v) as u64
    }
}

/// The whole matrix for a legal Q31.32 saturation `v` in `[0, 4 * 2^32]`.
pub open spec fn ctm_encode_fp(v: int) -> Seq<u64> {
    Seq::new(9, |i: int| ctm_entry_fp(v, i))
}

/// The signed Q31.32 value a sign-magnitude entry stands for.
pub open spec fn fp_from_sign_mag(e: u64) -> int {
    if e >= SIGN_BIT {
        -((e - SIGN_BIT) as int)
    } else {
        e as int
    }
}

/// The Q31.32 saturation a matrix stands for: top-left diagonal entry
/// minus its horizontal neighbor.
pub open spec fn ctm_decode_fp(m: Seq<u64>) -> int {
    fp_from_sign_mag(m[0]) - fp_from_sign_mag(m[1])
}

/// The eighteen property words of a matrix: entry `i` is split into its
/// low 32 bits at word `2 i` and its high 32 bits at word `2 i + 1`.
pub open spec fn ctm_words_fp(m: Seq<u64>) -> Seq<u64> {
    Seq::new(
        18,
        |i: int|
            if i % 2 == 0 {
                (m[i / 2] % 0x1_0000_0000) as u64
            } else {
                (m[i / 2] / 0x1_0000_0000) as u64
            },
    )
}

/// The matrix recombined from eighteen property words: pair
/// `(word[2 i], word[2 i + 1])` becomes `high:low`, with only the low
/// 32 bits of each word significant.
pub open spec fn ctm_from_words_fp(w: Seq<u64>) -> Seq<u64> {
    Seq::new(
        9,
        |i: int| ((w[2 * i + 1] % 0x1_0000_0000) * 0x1_0000_0000 + w[2 * i] % 0x1_0000_0000) as u64,
    )
}

/// Encodes a Q31.32 saturation as the nine-entry CTM. The input is
/// clamped to [0.0, 4.0] first.
pub fn ctm_encode(saturation: i64) -> (m: Vec<u64>)
    ensures
        m@ == ctm_encode_fp(clamp_sat(saturation as int)),
{
    let v: u64 = crate::codec::clamp_saturation(saturation) as u64;
    let diag: u64 = (0x1_0000_0000 + 2 * v) / 3;
    let off: u64 = if v <= 0x1_0000_0000 {
        (0x1_0000_0000 - v) / 3
    } else {
        (v - 0x1_0000_0000) / 3 + SIGN_BIT
    };
    let mut m: Vec<u64> = Vec::new();
    m.push(diag);
    m.push(off);
    m.push(off);
    m.push(off);
    m.push(diag);
    m.push(off);
    m.push(off);
    m.push(off);
    m.push(diag);
    proof {
        assert(m@ =~= ctm_encode_fp(clamp_sat(saturation as int)));
    }
    m
}

/// Decodes a nine-entry CTM back to the Q31.32 saturation it encodes. The
/// result needs an `i128`: an arbitrary matrix's two leading entries can
/// be 63-bit magnitudes of either sign.
pub fn ctm_decode(m: &Vec<u64>) -> (v: i128)
    requires
        m@.len() == 9,
    ensures
        v == ctm_decode_fp(m@),
{
    let c0 = fp_signed_entry(m[0]);
    let c1 = fp_signed_entry(m[1]);
    c0 - c1
}

/// The signed Q31.32 value of one sign-magnitude entry.
fn fp_signed_entry(e: u64) -> (r: i128)
    ensures
        r == fp_from_sign_mag(e),
{
    if e >= SIGN_BIT {
        -((e - SIGN_BIT) as i128)
    } else {
        e as i128
    }
}

/// Splits the nine matrix entries into the eighteen property words the
/// display server stores, low half first.
pub fn ctm_pack(m: &Vec<u64>) -> (w: Vec<u64>)
    requires
        m@.len() == 9,
    ensures
        w@ == ctm_words_fp(m@),
{
    let mut w: Vec<u64> = Vec::new();
    let mut i: usize = 0;
    while i < 9
        invariant
            m@.len() == 9,
            i <= 9,
            w@.len() == 2 * i,
            forall|j: int| 0 <= j < 2 * i ==> w@[j] == ctm_words_fp(m@)[j],
        decreases 9 - i,
    {
        let x = m[i];
        w.push(x % 0x1_0000_0000);
        w.push(x / 0x1_0000_0000);
        i = i + 1;
    }
    proof {
        assert(w@ =~= ctm_words_fp(m@));
    }
    w
}

/// Recombines eighteen property words into the nine matrix entries.
pub fn ctm_unpack(w: &Vec<u64>) -> (m: Vec<u64>)
    requires
        w@.len() == 18,
    ensures
        m@ == ctm_from_words_fp(w@),
{
    let mut m: Vec<u64> = Vec::new();
    let mut i: usize = 0;
    while i < 9
        invariant
            w@.len() == 18,
            i <= 9,
            m@.len() == i,
            forall|j: int| 0 <= j < i ==> m@[j] == ctm_from_words_fp(w@)[j],
        decreases 9 - i,
    {
        let low: u64 = w[2 * i] % 0x1_0000_0000;
        let high: u64 = w[2 * i + 1] % 0x1_0000_0000;
        m.push(high * 0x1_0000_0000 + low);
        i = i + 1;
    }
    proof {
        assert(m@ =~= ctm_from_words_fp(w@));
    }
    m
}

/// The saturation a CTM property read yields. A read that came back with
/// the wrong type or a word count other than eighteen leaves the matrix
/// all zeros, which decodes to saturation 0.0.
pub fn saturation_from_property(is_integer_type: bool, words: &Vec<u64>) -> (v: i128)
    ensures
        is_integer_type && words@.len() == 18 ==> v == ctm_decode_fp(ctm_from_words_fp(words@)),
        !(is_integer_type && words@.len() == 18) ==> v == 0,
{
    if is_integer_type && words.len() == 18 {
        let m = ctm_unpack(words);
        ctm_decode(&m)
    } else {
        0
    }
}

/// Law: packing a matrix into property words and recombining the words
/// reproduces the matrix bit for bit, whatever the nine entries are.
pub proof fn lemma_ctm_words_round_trip(m: Seq<u64>)
    requires
        m.len() == 9,
    ensures
        ctm_from_words_fp(ctm_words_fp(m)) == m,
{
    let w = ctm_words_fp(m);
    assert forall|i: int| 0 <= i < 9 implies ctm_from_words_fp(w)[i] == m[i] by {
        let x = m[i] as int;
        lemma_fundamental_div_mod(x, 0x1_0000_0000);
        assert(x / 0x1_0000_0000 < 0x1_0000_0000) by {
            vstd::arithmetic::div_mod::lemma_multiply_divide_lt(x, 0x1_0000_0000, 0x1_0000_0000);
        }
        assert((2 * i) % 2 == 0);
        assert((2 * i + 1) % 2 == 1);
        assert((2 * i) / 2 == i);
        assert((2 * i + 1) / 2 == i);
        assert(w[2 * i] == (x % 0x1_0000_0000) as u64);
        assert(w[2 * i + 1] == (x / 0x1_0000_0000) as u64);
        assert((x % 0x1_0000_0000) % 0x1_0000_0000 == x % 0x1_0000_0000);
        assert((x / 0x1_0000_0000) % 0x1_0000_0000 == x / 0x1_0000_0000);
    };
    assert(ctm_from_words_fp(ctm_words_fp(m)) =~= m);
}

/// Law: encoding a legal saturation and decoding the matrix again loses at
/// most one Q31.32 step (2^-32), the truncation of the coefficient
/// division by three; at or below native saturation the round trip is
/// exact.
pub proof fn lemma_ctm_round_trip(v: int)
    requires
        0 <= v <= 0x4_0000_0000,
    ensures
        0 <= v - ctm_decode_fp(ctm_encode_fp(v)) <= 1,
{
    let m = ctm_encode_fp(v);
    let dmag = ctm_diag_mag(v);
    let omag = ctm_off_mag(v);
    lemma_fundamental_div_mod(0x1_0000_0000 + 2 * v, 3);
    let ra = (0x1_0000_0000 + 2 * v) % 3;
    assert(m[0] == ctm_entry_fp(v, 0));
    assert(m[1] == ctm_entry_fp(v, 1));
    assert(fp_from_sign_mag(m[0]) == dmag);
    if v <= 0x1_0000_0000 {
        lemma_fundamental_div_mod(0x1_0000_0000 - v, 3);
        let rb = (0x1_0000_0000 - v) % 3;
        assert(fp_from_sign_mag(m[1]) == omag);
        // the two dividends differ by exactly 3 v, so they share a remainder
        assert((3 * v + (0x1_0000_0000 - v)) % 3 == (0x1_0000_0000 - v) % 3) by {
            lemma_mod_multiples_vanish(v, 0x1_0000_0000 - v, 3);
        }
        assert(ra == rb);
        assert(3 * (dmag - omag) == 3 * v);
    } else {
        lemma_fundamental_div_mod(v - 0x1_0000_0000, 3);
        let rb = (v - 0x1_0000_0000) % 3;
        assert(fp_from_sign_mag(m[1]) == -omag);
        // the dividends sum to exactly 3 v, so the remainders sum to 0 mod 3
        assert((ra + rb) % 3 == 0) by {
            lemma_add_mod_noop(0x1_0000_0000 + 2 * v, v - 0x1_0000_0000, 3);
            assert((0x1_0000_0000 + 2 * v) + (v - 0x1_0000_0000) == 3 * v);
            lemma_mod_multiples_basic(v, 3);
        }
        assert(0 <= ra + rb <= 4);
        assert(ra + rb == 0 || ra + rb == 3) by {
            lemma_fundamental_div_mod(ra + rb, 3);
        }
        assert(3 * (v - (dmag + omag)) == ra + rb);
    }
}

} // verus!
