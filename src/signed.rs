use vstd::prelude::*;

use crate::bytes::{lane_bytes, U8x16};
use crate::float::F32x4;
use crate::mask::{mask_of, U32x4};

verus! {

/// The bit pattern of `v` in two's complement.
pub open spec fn bits_of(v: i32) -> u32 {
    if v < 0 {
        (v + 0x1_0000_0000) as u32
    } else {
        v as u32
    }
}

/// The signed value whose two's complement bit pattern is `b`.
pub open spec fn signed_of(b: u32) -> i32 {
    if b > 0x7FFF_FFFF {
        (b - 0x1_0000_0000) as i32
    } else {
        b as i32
    }
}

/// The 32-bit two's complement value congruent to `v` modulo `2^32`:
/// what wrapping arithmetic keeps of an exact result.
pub open spec fn wrap(v: int) -> i32 {
    let m = v % 0x1_0000_0000;
    if m > 0x7FFF_FFFF {
        (m - 0x1_0000_0000) as i32
    } else {
        m as i32
    }
}

pub(crate) fn to_bits(v: i32) -> (r: u32)
    ensures
        r == bits_of(v),
{
    if v < 0 {
        (v as i64 + 0x1_0000_0000i64) as u32
    } else {
        v as u32
    }
}

pub(crate) fn from_bits(b: u32) -> (r: i32)
    ensures
        r == signed_of(b),
{
    if b > 0x7FFF_FFFF {
        (b as i64 - 0x1_0000_0000i64) as i32
    } else {
        b as i32
    }
}

/// Lane-wise signed `a > b`, as a mask.
pub open spec fn gt_mask(a: Seq<i32>, b: Seq<i32>) -> Seq<u32> {
    mask_of(|i: int| a[i] > b[i])
}

/// Lane-wise signed `a <= b`, as a mask.
pub open spec fn le_mask(a: Seq<i32>, b: Seq<i32>) -> Seq<u32> {
    mask_of(|i: int| a[i] <= b[i])
}

/// Four 32-bit signed lanes.
#[derive(Clone, Copy, Debug)]
pub struct I32x4 {
    pub x: i32,
    pub y: i32,
    pub z: i32,
    pub w: i32,
}

impl View for I32x4 {
    type V = Seq<i32>;

    open spec fn view(&self) -> Seq<i32> {
        seq![self.x, self.y, self.z, self.w]
    }
}

impl I32x4 {
    /// Lanes in argument order: `a` to lane 0, ..., `d` to lane 3.
    pub fn new(a: i32, b: i32, c: i32, d: i32) -> (r: I32x4)
        ensures
            r@ == seq![a, b, c, d],
    {
        I32x4 { x: a, y: b, z: c, w: d }
    }

    /// `x` in every lane.
    pub fn splat(x: i32) -> (r: I32x4)
        ensures
            r@ == seq![x, x, x, x],
            forall|i: int| 0 <= i < 4 ==> #[trigger] r@[i] == x,
    {
        I32x4 { x: x, y: x, z: x, w: x }
    }

    /// The lane at `index`.
    pub fn lane(&self, index: usize) -> (r: i32)
        requires
            index < 4,
        ensures
            r == self@[index as int],
    {
        if index == 0 {
            self.x
        } else if index == 1 {
            self.y
        } else if index == 2 {
            self.z
        } else {
            self.w
        }
    }

    /// Writes `value` into the lane at `index`.
    pub fn set_lane(&mut self, index: usize, value: i32)
        requires
            index < 4,
        ensures
            final(self)@ == old(self)@.update(index as int, value),
    {
        if index == 0 {
            self.x = value;
        } else if index == 1 {
            self.y = value;
        } else if index == 2 {
            self.z = value;
        } else {
            self.w = value;
        }
        proof {
            assert(final(self)@ =~= old(self)@.update(index as int, value));
        }
    }

    /// Lanes 0 and 1 of `self`, then lanes 0 and 1 of `other`.
    pub fn concat_xy_xy(self, other: I32x4) -> (r: I32x4)
        ensures
            r@ == seq![self@[0], self@[1], other@[0], other@[1]],
    {
        I32x4 { x: self.x, y: self.y, z: other.x, w: other.y }
    }

    /// The same 128 bits read as sixteen bytes, lane 0's least significant
    /// byte first.
    pub fn as_u8x16(self) -> (r: U8x16)
        ensures
            r@ == lane_bytes(seq![bits_of(self.x), bits_of(self.y), bits_of(self.z), bits_of(self.w)]),
    {
        U8x16::from_words(to_bits(self.x), to_bits(self.y), to_bits(self.z), to_bits(self.w))
    }

    /// Lane-wise signed minimum.
    pub fn min(self, other: I32x4) -> (r: I32x4)
        ensures
            r@ == seq![
                if self.x < other.x { self.x } else { other.x },
                if self.y < other.y { self.y } else { other.y },
                if self.z < other.z { self.z } else { other.z },
                if self.w < other.w { self.w } else { other.w },
            ],
    {
        I32x4 {
            x: if self.x < other.x { self.x } else { other.x },
            y: if self.y < other.y { self.y } else { other.y },
            z: if self.z < other.z { self.z } else { other.z },
            w: if self.w < other.w { self.w } else { other.w },
        }
    }

    /// Lane-wise `==`, as a mask.
    pub fn packed_eq(self, other: I32x4) -> (r: U32x4)
        ensures
            r@ == mask_of(|i: int| self@[i] == other@[i]),
    {
        U32x4::from_bools(self.x == other.x, self.y == other.y, self.z == other.z, self.w == other.w)
    }

    /// Lane-wise signed `>`, as a mask.
    pub fn packed_gt(self, other: I32x4) -> (r: U32x4)
        ensures
            r@ == gt_mask(self@, other@),
    {
        U32x4::from_bools(self.x > other.x, self.y > other.y, self.z > other.z, self.w > other.w)
    }

    /// The complement of `packed_gt`: lane-wise signed `<=`, as a mask.
    pub fn packed_le(self, other: I32x4) -> (r: U32x4)
        ensures
            r@ == le_mask(self@, other@),
    {
        core::ops::Not::not(self.packed_gt(other))
    }

    /// The lanes' bit patterns, read as float lanes.
    fn as_float_bits(self) -> (r: F32x4)
        ensures
            r@ == seq![bits_of(self.x), bits_of(self.y), bits_of(self.z), bits_of(self.w)],
    {
        F32x4::from_bits(to_bits(self.x), to_bits(self.y), to_bits(self.z), to_bits(self.w))
    }

    /// Float lanes' bit patterns, read as signed lanes.
    fn from_float_bits(v: F32x4) -> (r: I32x4)
        ensures
            r@ == seq![signed_of(v.x), signed_of(v.y), signed_of(v.z), signed_of(v.w)],
    {
        I32x4 { x: from_bits(v.x), y: from_bits(v.y), z: from_bits(v.z), w: from_bits(v.w) }
    }

    /// Lanes `x`, `y`, `x`, `y` of `self`, moved as float lanes.
    pub fn xyxy(self) -> (r: I32x4)
        ensures
            r@ == seq![self@[0], self@[1], self@[0], self@[1]],
    {
        I32x4::from_float_bits(self.as_float_bits().swizzle(68))
    }

    /// Lanes `x`, `w`, `z`, `y` of `self`, moved as float lanes.
    pub fn xwzy(self) -> (r: I32x4)
        ensures
            r@ == seq![self@[0], self@[3], self@[2], self@[1]],
    {
        I32x4::from_float_bits(self.as_float_bits().swizzle(108))
    }

    /// Lanes `z`, `y`, `x`, `w` of `self`, moved as float lanes.
    pub fn zyxw(self) -> (r: I32x4)
        ensures
            r@ == seq![self@[2], self@[1], self@[0], self@[3]],
    {
        I32x4::from_float_bits(self.as_float_bits().swizzle(198))
    }

    /// Lanes `z`, `w`, `x`, `y` of `self`, moved as float lanes.
    pub fn zwxy(self) -> (r: I32x4)
        ensures
            r@ == seq![self@[2], self@[3], self@[0], self@[1]],
    {
        I32x4::from_float_bits(self.as_float_bits().swizzle(78))
    }
}

impl Default for I32x4 {
    /// All lanes zero.
    fn default() -> (r: I32x4)
        ensures
            r@ == seq![0i32, 0i32, 0i32, 0i32],
    {
        I32x4 { x: 0, y: 0, z: 0, w: 0 }
    }
}

impl PartialEq for I32x4 {
    /// True iff all four lanes are equal.
    fn eq(&self, other: &I32x4) -> (r: bool) {
        self.packed_eq(*other).is_all_ones()
    }
}

impl vstd::std_specs::cmp::PartialEqSpecImpl for I32x4 {
    open spec fn obeys_eq_spec() -> bool {
        true
    }

    open spec fn eq_spec(&self, other: &I32x4) -> bool {
        self@ == other@
    }
}

impl core::ops::Add for I32x4 {
    type Output = I32x4;

    /// Lane-wise two's complement addition, wrapping on overflow.
    fn add(self, other: I32x4) -> (r: I32x4) {
        I32x4 {
            x: self.x.wrapping_add(other.x),
            y: self.y.wrapping_add(other.y),
            z: self.z.wrapping_add(other.z),
            w: self.w.wrapping_add(other.w),
        }
    }
}

impl vstd::std_specs::ops::AddSpecImpl for I32x4 {
    open spec fn obeys_add_spec() -> bool {
        true
    }

    open spec fn add_req(self, other: I32x4) -> bool {
        true
    }

    open spec fn add_spec(self, other: I32x4) -> I32x4 {
        I32x4 {
            x: wrap(self.x + other.x),
            y: wrap(self.y + other.y),
            z: wrap(self.z + other.z),
            w: wrap(self.w + other.w),
        }
    }
}

impl core::ops::Sub for I32x4 {
    type Output = I32x4;

    /// Lane-wise two's complement subtraction, wrapping on overflow.
    fn sub(self, other: I32x4) -> (r: I32x4) {
        I32x4 {
            x: self.x.wrapping_sub(other.x),
            y: self.y.wrapping_sub(other.y),
            z: self.z.wrapping_sub(other.z),
            w: self.w.wrapping_sub(other.w),
        }
    }
}

impl vstd::std_specs::ops::SubSpecImpl for I32x4 {
    open spec fn obeys_sub_spec() -> bool {
        true
    }

    open spec fn sub_req(self, other: I32x4) -> bool {
        true
    }

    open spec fn sub_spec(self, other: I32x4) -> I32x4 {
        I32x4 {
            x: wrap(self.x - other.x),
            y: wrap(self.y - other.y),
            z: wrap(self.z - other.z),
            w: wrap(self.w - other.w),
        }
    }
}

impl core::ops::Mul for I32x4 {
    type Output = I32x4;

    /// Lane-wise multiplication keeping the low 32 bits of each product.
    fn mul(self, other: I32x4) -> (r: I32x4) {
        I32x4 {
            x: self.x.wrapping_mul(other.x),
            y: self.y.wrapping_mul(other.y),
            z: self.z.wrapping_mul(other.z),
            w: self.w.wrapping_mul(other.w),
        }
    }
}

impl vstd::std_specs::ops::MulSpecImpl for I32x4 {
    open spec fn obeys_mul_spec() -> bool {
        true
    }

    open spec fn mul_req(self, other: I32x4) -> bool {
        true
    }

    open spec fn mul_spec(self, other: I32x4) -> I32x4 {
        I32x4 {
            x: wrap(self.x * other.x),
            y: wrap(self.y * other.y),
            z: wrap(self.z * other.z),
            w: wrap(self.w * other.w),
        }
    }
}

} // verus!
