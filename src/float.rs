use vstd::prelude::*;

use crate::mask::{mask_of, U32x4};

verus! {

/// The sign bit of a single-precision lane.
pub const SIGN_BIT: u32 = 0x8000_0000;

/// Every bit of a single-precision lane but the sign.
pub const MAGNITUDE_MASK: u32 = 0x7FFF_FFFF;

/// The magnitude bits of positive infinity; any larger magnitude is a NaN.
pub const INFINITY_BITS: u32 = 0x7F80_0000;

/// The bits of a lane with the sign cleared.
pub open spec fn magnitude(b: u32) -> int {
    (b % 0x8000_0000) as int
}

/// The sign bit of a lane is set.
pub open spec fn is_negative(b: u32) -> bool {
    b >= 0x8000_0000
}

/// The lane holds a NaN: all exponent bits set and a nonzero fraction.
pub open spec fn is_nan(b: u32) -> bool {
    magnitude(b) > 0x7F80_0000
}

/// A number that orders non-NaN lanes as their floating-point values do:
/// IEEE-754 magnitudes grow with their bit patterns, and both zeroes map to 0.
pub open spec fn ordinal(b: u32) -> int {
    if is_negative(b) {
        -magnitude(b)
    } else {
        magnitude(b)
    }
}

/// Floating-point `a == b` on the bit patterns of two lanes.
pub open spec fn lane_eq(a: u32, b: u32) -> bool {
    !is_nan(a) && !is_nan(b) && ordinal(a) == ordinal(b)
}

/// Floating-point `a > b` on the bit patterns of two lanes.
pub open spec fn lane_gt(a: u32, b: u32) -> bool {
    !is_nan(a) && !is_nan(b) && ordinal(a) > ordinal(b)
}

/// The lane-wise minimum of the hardware: `a` where `a < b`, else `b`
/// (so `b` whenever either lane is a NaN).
pub open spec fn lane_min(a: u32, b: u32) -> u32 {
    if lane_gt(b, a) {
        a
    } else {
        b
    }
}

/// The lane-wise maximum of the hardware: `a` where `a > b`, else `b`.
pub open spec fn lane_max(a: u32, b: u32) -> u32 {
    if lane_gt(a, b) {
        a
    } else {
        b
    }
}

/// Lane-wise floating-point `a == b`, as a mask.
pub open spec fn eq_mask(a: Seq<u32>, b: Seq<u32>) -> Seq<u32> {
    mask_of(|i: int| lane_eq(a[i], b[i]))
}

/// Lane-wise floating-point `a > b`, as a mask.
pub open spec fn gt_mask(a: Seq<u32>, b: Seq<u32>) -> Seq<u32> {
    mask_of(|i: int| lane_gt(a[i], b[i]))
}

/// Lane-wise floating-point `a < b`, as a mask.
pub open spec fn lt_mask(a: Seq<u32>, b: Seq<u32>) -> Seq<u32> {
    mask_of(|i: int| lane_gt(b[i], a[i]))
}

/// Lane-wise "not `a > b`", as a mask.
pub open spec fn le_mask(a: Seq<u32>, b: Seq<u32>) -> Seq<u32> {
    mask_of(|i: int| !lane_gt(a[i], b[i]))
}

fn magnitude_of(b: u32) -> (r: u32)
    ensures
        r as int == magnitude(b),
        r <= MAGNITUDE_MASK,
{
    if b >= SIGN_BIT {
        b - SIGN_BIT
    } else {
        b
    }
}

fn eq_lane(a: u32, b: u32) -> (r: bool)
    ensures
        r == lane_eq(a, b),
{
    let ma = magnitude_of(a);
    let mb = magnitude_of(b);
    if ma > INFINITY_BITS || mb > INFINITY_BITS {
        false
    } else if ma == 0 && mb == 0 {
        true
    } else {
        a == b
    }
}

fn gt_lane(a: u32, b: u32) -> (r: bool)
    ensures
        r == lane_gt(a, b),
{
    let ma = magnitude_of(a);
    let mb = magnitude_of(b);
    if ma > INFINITY_BITS || mb > INFINITY_BITS {
        false
    } else {
        let na = a >= SIGN_BIT;
        let nb = b >= SIGN_BIT;
        if !na && !nb {
            ma > mb
        } else if !na && nb {
            ma != 0 || mb != 0
        } else if na && !nb {
            false
        } else {
            mb > ma
        }
    }
}

/// Four single-precision lanes, each held as its IEEE-754 bit pattern.
///
/// Lane `i` of the view is the bit pattern of lane `i`. The operations here
/// move, compare and mask those patterns; none of them rounds.
#[derive(Clone, Copy, Debug)]
pub struct F32x4 {
    pub x: u32,
    pub y: u32,
    pub z: u32,
    pub w: u32,
}

impl View for F32x4 {
    type V = Seq<u32>;

    open spec fn view(&self) -> Seq<u32> {
        seq![self.x, self.y, self.z, self.w]
    }
}

/// The rows of the 4x4 matrix `[a, b, c, d]` after a transpose.
pub open spec fn transposed(a: Seq<u32>, b: Seq<u32>, c: Seq<u32>, d: Seq<u32>) -> (
    Seq<u32>,
    Seq<u32>,
    Seq<u32>,
    Seq<u32>,
) {
    (
        seq![a[0], b[0], c[0], d[0]],
        seq![a[1], b[1], c[1], d[1]],
        seq![a[2], b[2], c[2], d[2]],
        seq![a[3], b[3], c[3], d[3]],
    )
}

/// The swizzle immediate that sends source lane `s_i` to output lane `i`.
pub open spec fn swizzle_imm(s0: int, s1: int, s2: int, s3: int) -> int {
    s0 + 4 * s1 + 16 * s2 + 64 * s3
}

/// The source lane that immediate `imm` selects for output lane `i`:
/// bits `2i` and `2i + 1` of `imm`.
pub open spec fn imm_source(imm: int, i: int) -> int {
    if i == 0 {
        imm % 4
    } else if i == 1 {
        (imm / 4) % 4
    } else if i == 2 {
        (imm / 16) % 4
    } else {
        (imm / 64) % 4
    }
}

/// The vector that immediate `imm` makes of `s`.
pub open spec fn swizzled(s: Seq<u32>, imm: int) -> Seq<u32> {
    seq![s[imm_source(imm, 0)], s[imm_source(imm, 1)], s[imm_source(imm, 2)], s[imm_source(imm, 3)]]
}

impl F32x4 {
    /// Lanes from their bit patterns, in argument order.
    pub fn from_bits(a: u32, b: u32, c: u32, d: u32) -> (r: F32x4)
        ensures
            r@ == seq![a, b, c, d],
    {
        F32x4 { x: a, y: b, z: c, w: d }
    }

    /// The bit pattern `x` in every lane.
    pub fn splat_bits(x: u32) -> (r: F32x4)
        ensures
            r@ == seq![x, x, x, x],
            forall|i: int| 0 <= i < 4 ==> #[trigger] r@[i] == x,
    {
        F32x4 { x: x, y: x, z: x, w: x }
    }

    /// The bit pattern of the lane at `index`.
    pub fn lane_bits(&self, index: usize) -> (r: u32)
        requires
            index < 4,
        ensures
            r == self@[index as int],
    {
        if index == 0 {
            self.x
        } else if index == 1 {
            self.y
        } else if index == 2 {
            self.z
        } else {
            self.w
        }
    }

    /// Writes the bit pattern `bits` into the lane at `index`.
    pub fn set_lane_bits(&mut self, index: usize, bits: u32)
        requires
            index < 4,
        ensures
            final(self)@ == old(self)@.update(index as int, bits),
    {
        if index == 0 {
            self.x = bits;
        } else if index == 1 {
            self.y = bits;
        } else if index == 2 {
            self.z = bits;
        } else {
            self.w = bits;
        }
        proof {
            assert(final(self)@ =~= old(self)@.update(index as int, bits));
        }
    }

    /// Lane-wise minimum, as the hardware computes it.
    pub fn min(self, other: F32x4) -> (r: F32x4)
        ensures
            r@ == seq![
                lane_min(self.x, other.x),
                lane_min(self.y, other.y),
                lane_min(self.z, other.z),
                lane_min(self.w, other.w),
            ],
    {
        F32x4 {
            x: if gt_lane(other.x, self.x) { self.x } else { other.x },
            y: if gt_lane(other.y, self.y) { self.y } else { other.y },
            z: if gt_lane(other.z, self.z) { self.z } else { other.z },
            w: if gt_lane(other.w, self.w) { self.w } else { other.w },
        }
    }

    /// Lane-wise maximum, as the hardware computes it.
    pub fn max(self, other: F32x4) -> (r: F32x4)
        ensures
            r@ == seq![
                lane_max(self.x, other.x),
                lane_max(self.y, other.y),
                lane_max(self.z, other.z),
                lane_max(self.w, other.w),
            ],
    {
        F32x4 {
            x: if gt_lane(self.x, other.x) { self.x } else { other.x },
            y: if gt_lane(self.y, other.y) { self.y } else { other.y },
            z: if gt_lane(self.z, other.z) { self.z } else { other.z },
            w: if gt_lane(self.w, other.w) { self.w } else { other.w },
        }
    }

    /// Lane-wise absolute value: the sign bit of each lane cleared by an AND
    /// with all ones but the sign.
    pub fn abs(self) -> (r: F32x4)
        ensures
            forall|i: int| 0 <= i < 4 ==> #[trigger] r@[i] as int == magnitude(self@[i]),
    {
        proof {
            assert(forall|b: u32| b & 0x7FFF_FFFFu32 == b % 0x8000_0000u32) by (bit_vector);
        }
        let mask = MAGNITUDE_MASK;
        F32x4 { x: self.x & mask, y: self.y & mask, z: self.z & mask, w: self.w & mask }
    }

    /// Lane-wise floating-point `==`, as a mask.
    pub fn packed_eq(self, other: F32x4) -> (r: U32x4)
        ensures
            r@ == eq_mask(self@, other@),
    {
        U32x4::from_bools(
            eq_lane(self.x, other.x),
            eq_lane(self.y, other.y),
            eq_lane(self.z, other.z),
            eq_lane(self.w, other.w),
        )
    }

    /// Lane-wise floating-point `>`, as a mask.
    pub fn packed_gt(self, other: F32x4) -> (r: U32x4)
        ensures
            r@ == gt_mask(self@, other@),
    {
        U32x4::from_bools(
            gt_lane(self.x, other.x),
            gt_lane(self.y, other.y),
            gt_lane(self.z, other.z),
            gt_lane(self.w, other.w),
        )
    }

    /// Lane-wise floating-point `<`: `other > self`.
    pub fn packed_lt(self, other: F32x4) -> (r: U32x4)
        ensures
            r@ == lt_mask(self@, other@),
    {
        other.packed_gt(self)
    }

    /// The complement of `packed_gt`; lanes where either side is a NaN come out set.
    pub fn packed_le(self, other: F32x4) -> (r: U32x4)
        ensures
            r@ == le_mask(self@, other@),
    {
        core::ops::Not::not(self.packed_gt(other))
    }

    /// Output lane `i` is source lane `imm_source(imm, i)`.
    pub fn swizzle(self, imm: u8) -> (r: F32x4)
        ensures
            r@ == swizzled(self@, imm as int),
    {
        F32x4 {
            x: self.lane_bits((imm % 4) as usize),
            y: self.lane_bits(((imm / 4) % 4) as usize),
            z: self.lane_bits(((imm / 16) % 4) as usize),
            w: self.lane_bits((imm / 64) as usize),
        }
    }

    /// Lanes 0 and 1 of `self`, then lanes 0 and 1 of `other`.
    pub fn concat_xy_xy(self, other: F32x4) -> (r: F32x4)
        ensures
            r@ == seq![self@[0], self@[1], other@[0], other@[1]],
    {
        F32x4 { x: self.x, y: self.y, z: other.x, w: other.y }
    }

    /// Lanes 0 and 1 of `self`, then lanes 2 and 3 of `other`.
    pub fn concat_xy_zw(self, other: F32x4) -> (r: F32x4)
        ensures
            r@ == seq![self@[0], self@[1], other@[2], other@[3]],
    {
        F32x4 { x: self.x, y: self.y, z: other.z, w: other.w }
    }

    /// Lanes 2 and 3 of `self`, then lanes 2 and 3 of `other`.
    pub fn concat_zw_zw(self, other: F32x4) -> (r: F32x4)
        ensures
            r@ == seq![self@[2], self@[3], other@[2], other@[3]],
    {
        F32x4 { x: self.z, y: self.w, z: other.z, w: other.w }
    }

    /// Lanes 3 and 2 of `self`, then lanes 1 and 0 of `other`.
    pub fn concat_wz_yx(self, other: F32x4) -> (r: F32x4)
        ensures
            r@ == seq![self@[3], self@[2], other@[1], other@[0]],
    {
        F32x4 { x: self.w, y: self.z, z: other.y, w: other.x }
    }

    /// Treats `a`, `b`, `c`, `d` as the rows of a 4x4 matrix and rewrites
    /// them as its columns.
    pub fn transpose_4x4(a: &mut F32x4, b: &mut F32x4, c: &mut F32x4, d: &mut F32x4)
        ensures
            (final(a)@, final(b)@, final(c)@, final(d)@) == transposed(old(a)@, old(b)@, old(c)@, old(d)@),
    {
        let (ra, rb, rc, rd) = (*a, *b, *c, *d);
        *a = F32x4 { x: ra.x, y: rb.x, z: rc.x, w: rd.x };
        *b = F32x4 { x: ra.y, y: rb.y, z: rc.y, w: rd.y };
        *c = F32x4 { x: ra.z, y: rb.z, z: rc.z, w: rd.z };
        *d = F32x4 { x: ra.w, y: rb.w, z: rc.w, w: rd.w };
    }
}

impl Default for F32x4 {
    /// All lanes `+0.0`.
    fn default() -> (r: F32x4)
        ensures
            r@ == seq![0u32, 0u32, 0u32, 0u32],
    {
        F32x4 { x: 0, y: 0, z: 0, w: 0 }
    }
}

impl PartialEq for F32x4 {
    /// True iff every lane compares equal as a float; a NaN lane makes it false.
    fn eq(&self, other: &F32x4) -> (r: bool) {
        self.packed_eq(*other).is_all_ones()
    }
}

impl vstd::std_specs::cmp::PartialEqSpecImpl for F32x4 {
    open spec fn obeys_eq_spec() -> bool {
        true
    }

    open spec fn eq_spec(&self, other: &F32x4) -> bool {
        forall|i: int| 0 <= i < 4 ==> #[trigger] lane_eq(self@[i], other@[i])
    }
}

} // verus!
