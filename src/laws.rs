use vstd::prelude::*;

use crate::bytes::{lane_bytes, shuffled_byte, word_at};
use crate::float::{
    eq_mask, gt_mask, imm_source, is_nan, le_mask, lt_mask, swizzle_imm, swizzled, transposed,
};
use crate::mask::{every_lane, lemma_not_mask_lane, ALL_ONES};
use crate::signed::{self, bits_of, signed_of};

verus! {

/// A float vector compares equal to itself in every lane, as long as no lane
/// holds a NaN.
pub proof fn law_eq_reflexive(v: Seq<u32>)
    requires
        v.len() == 4,
        forall|i: int| 0 <= i < 4 ==> !is_nan(#[trigger] v[i]),
    ensures
        every_lane(eq_mask(v, v), ALL_ONES),
{
    assert(!is_nan(v[0]) && !is_nan(v[1]) && !is_nan(v[2]) && !is_nan(v[3]));
}

/// `v < w` is `w > v` lane by lane, and the `<=` mask of `v`, `w` is the
/// bitwise complement of their `>` mask.
pub proof fn law_lt_le_from_gt(v: Seq<u32>, w: Seq<u32>)
    requires
        v.len() == 4,
        w.len() == 4,
    ensures
        lt_mask(v, w) == gt_mask(w, v),
        forall|i: int| 0 <= i < 4 ==> #[trigger] le_mask(v, w)[i] == !gt_mask(v, w)[i],
{
    assert forall|i: int| 0 <= i < 4 implies #[trigger] le_mask(v, w)[i] == !gt_mask(v, w)[i] by {
        lemma_not_mask_lane(crate::float::lane_gt(v[i], w[i]));
    }
}

/// The signed `<=` mask of `v`, `w` is the bitwise complement of their `>`
/// mask.
pub proof fn law_signed_le_from_gt(v: Seq<i32>, w: Seq<i32>)
    requires
        v.len() == 4,
        w.len() == 4,
    ensures
        forall|i: int| 0 <= i < 4 ==> #[trigger] signed::le_mask(v, w)[i] == !signed::gt_mask(v, w)[i],
{
    assert forall|i: int| 0 <= i < 4 implies #[trigger] signed::le_mask(v, w)[i] == !signed::gt_mask(v, w)[i] by {
        lemma_not_mask_lane(v[i] > w[i]);
    }
}

/// The immediate built from source lanes `s0`, `s1`, `s2`, `s3` sends source
/// lane `s_i` to output lane `i`.
pub proof fn law_swizzle_immediate(v: Seq<u32>, s0: int, s1: int, s2: int, s3: int)
    requires
        v.len() == 4,
        0 <= s0 < 4,
        0 <= s1 < 4,
        0 <= s2 < 4,
        0 <= s3 < 4,
    ensures
        0 <= swizzle_imm(s0, s1, s2, s3) < 256,
        swizzled(v, swizzle_imm(s0, s1, s2, s3)) == seq![v[s0], v[s1], v[s2], v[s3]],
{
    let imm = swizzle_imm(s0, s1, s2, s3);
    assert(imm % 4 == s0) by (nonlinear_arith)
        requires imm == s0 + 4 * s1 + 16 * s2 + 64 * s3, 0 <= s0 < 4, 0 <= s1 < 4, 0 <= s2 < 4, 0 <= s3 < 4;
    assert((imm / 4) % 4 == s1) by (nonlinear_arith)
        requires imm == s0 + 4 * s1 + 16 * s2 + 64 * s3, 0 <= s0 < 4, 0 <= s1 < 4, 0 <= s2 < 4, 0 <= s3 < 4;
    assert((imm / 16) % 4 == s2) by (nonlinear_arith)
        requires imm == s0 + 4 * s1 + 16 * s2 + 64 * s3, 0 <= s0 < 4, 0 <= s1 < 4, 0 <= s2 < 4, 0 <= s3 < 4;
    assert((imm / 64) % 4 == s3) by (nonlinear_arith)
        requires imm == s0 + 4 * s1 + 16 * s2 + 64 * s3, 0 <= s0 < 4, 0 <= s1 < 4, 0 <= s2 < 4, 0 <= s3 < 4;
    assert(imm_source(imm, 0) == s0);
    assert(imm_source(imm, 1) == s1);
    assert(imm_source(imm, 2) == s2);
    assert(imm_source(imm, 3) == s3);
}

/// Transposing four rows twice gives back the four rows.
pub proof fn law_transpose_twice(a: Seq<u32>, b: Seq<u32>, c: Seq<u32>, d: Seq<u32>)
    requires
        a.len() == 4,
        b.len() == 4,
        c.len() == 4,
        d.len() == 4,
    ensures
        ({
            let (a1, b1, c1, d1) = transposed(a, b, c, d);
            transposed(a1, b1, c1, d1) == (a, b, c, d)
        }),
{
    let (a1, b1, c1, d1) = transposed(a, b, c, d);
    let (a2, b2, c2, d2) = transposed(a1, b1, c1, d1);
    assert(a2 =~= a);
    assert(b2 =~= b);
    assert(c2 =~= c);
    assert(d2 =~= d);
}

/// A shuffle index byte with bit 7 set yields a zero byte, whatever its low
/// four bits are.
pub proof fn law_shuffle_high_bit_zeroes(s: Seq<u8>, m: u8)
    requires
        m & 0x80 == 0x80,
    ensures
        shuffled_byte(s, m) == 0,
{
    assert(m & 0x80 == 0x80 ==> m >= 0x80) by (bit_vector);
}

/// A vector of one repeated lane value is all ones (or all zeroes) exactly
/// when that value is; a vector with two different lanes is neither.
pub proof fn law_all_ones_all_zeroes(v: Seq<u32>, i: int, j: int)
    requires
        v.len() == 4,
        0 <= i < 4,
        0 <= j < 4,
        v[i] != v[j],
    ensures
        every_lane(seq![ALL_ONES, ALL_ONES, ALL_ONES, ALL_ONES], ALL_ONES),
        every_lane(seq![0u32, 0u32, 0u32, 0u32], 0),
        !every_lane(v, ALL_ONES),
        !every_lane(v, 0),
{
    assert(seq![ALL_ONES, ALL_ONES, ALL_ONES, ALL_ONES][0] == ALL_ONES);
    assert(seq![0u32, 0u32, 0u32, 0u32][0] == 0);
}

proof fn lemma_word_bytes(v: u32)
    ensures
        (v % 0x100) + 0x100 * ((v / 0x100) % 0x100) + 0x1_0000 * ((v / 0x1_0000) % 0x100) + 0x100_0000
            * (v / 0x100_0000) == v,
{
    assert((v % 0x100) + 0x100 * ((v / 0x100) % 0x100) + 0x1_0000 * ((v / 0x1_0000) % 0x100)
        + 0x100_0000 * (v / 0x100_0000) == v) by (bit_vector);
}

/// Reading four signed lanes as sixteen bytes and the bytes back as four
/// signed lanes gives the lanes unchanged.
pub proof fn law_bytes_round_trip(a: i32, b: i32, c: i32, d: i32)
    ensures
        ({
            let bytes = lane_bytes(seq![bits_of(a), bits_of(b), bits_of(c), bits_of(d)]);
            seq![
                signed_of(word_at(bytes, 0)),
                signed_of(word_at(bytes, 1)),
                signed_of(word_at(bytes, 2)),
                signed_of(word_at(bytes, 3)),
            ] == seq![a, b, c, d]
        }),
{
    let words = seq![bits_of(a), bits_of(b), bits_of(c), bits_of(d)];
    let bytes = lane_bytes(words);
    assert forall|k: int| 0 <= k < 4 implies word_at(bytes, k) == words[k] by {
        lemma_word_bytes(words[k]);
        assert(bytes[4 * k] == (words[k] % 0x100) as u8);
        assert(bytes[4 * k + 1] == ((words[k] / 0x100) % 0x100) as u8);
        assert(bytes[4 * k + 2] == ((words[k] / 0x1_0000) % 0x100) as u8);
        assert(bytes[4 * k + 3] == (words[k] / 0x100_0000) as u8);
    }
    assert(word_at(bytes, 0) == bits_of(a));
    assert(word_at(bytes, 1) == bits_of(b));
    assert(word_at(bytes, 2) == bits_of(c));
    assert(word_at(bytes, 3) == bits_of(d));
}

} // verus!
