use vstd::prelude::*;

verus! {

/// The bit pattern of a lane that reads as "true" in a mask: every bit set.
pub const ALL_ONES: u32 = 0xFFFF_FFFF;

/// Four 32-bit unsigned lanes.
///
/// Besides ordinary unsigned values this type carries masks: comparisons
/// write `ALL_ONES` into a lane that holds and `0` into one that does not.
#[derive(Clone, Copy, Debug)]
pub struct U32x4 {
    pub x: u32,
    pub y: u32,
    pub z: u32,
    pub w: u32,
}

impl View for U32x4 {
    type V = Seq<u32>;

    open spec fn view(&self) -> Seq<u32> {
        seq![self.x, self.y, self.z, self.w]
    }
}

/// The mask lane that stands for `b`.
pub open spec fn mask_lane(b: bool) -> u32 {
    if b {
        ALL_ONES
    } else {
        0
    }
}

/// A vector whose lane `i` is `mask_lane(f(i))`.
pub open spec fn mask_of(f: spec_fn(int) -> bool) -> Seq<u32> {
    seq![mask_lane(f(0)), mask_lane(f(1)), mask_lane(f(2)), mask_lane(f(3))]
}

/// Each of the four lanes of `s` holds `v`.
pub open spec fn every_lane(s: Seq<u32>, v: u32) -> bool {
    forall|i: int| 0 <= i < 4 ==> #[trigger] s[i] == v
}

/// Complementing a mask lane negates what it stands for.
pub proof fn lemma_not_mask_lane(b: bool)
    ensures
        !mask_lane(b) == mask_lane(!b),
{
    assert(!0xFFFF_FFFFu32 == 0u32) by (bit_vector);
    assert(!0u32 == 0xFFFF_FFFFu32) by (bit_vector);
}

fn lane_mask(b: bool) -> (r: u32)
    ensures
        r == mask_lane(b),
{
    if b {
        ALL_ONES
    } else {
        0
    }
}

impl U32x4 {
    /// Lanes in argument order: `a` to lane 0, ..., `d` to lane 3.
    pub fn new(a: u32, b: u32, c: u32, d: u32) -> (r: U32x4)
        ensures
            r@ == seq![a, b, c, d],
    {
        U32x4 { x: a, y: b, z: c, w: d }
    }

    /// `x` in every lane.
    pub fn splat(x: u32) -> (r: U32x4)
        ensures
            r@ == seq![x, x, x, x],
            forall|i: int| 0 <= i < 4 ==> #[trigger] r@[i] == x,
    {
        U32x4 { x: x, y: x, z: x, w: x }
    }

    /// The mask whose lanes read `a`, `b`, `c`, `d`.
    pub fn from_bools(a: bool, b: bool, c: bool, d: bool) -> (r: U32x4)
        ensures
            r@ == seq![mask_lane(a), mask_lane(b), mask_lane(c), mask_lane(d)],
    {
        U32x4 { x: lane_mask(a), y: lane_mask(b), z: lane_mask(c), w: lane_mask(d) }
    }

    /// The lane at `index`.
    pub fn lane(&self, index: usize) -> (r: u32)
        requires
            index < 4,
        ensures
            r == self@[index as int],
    {
        if index == 0 {
            self.x
        } else if index == 1 {
            self.y
        } else if index == 2 {
            self.z
        } else {
            self.w
        }
    }

    /// True iff every bit of every lane is set.
    pub fn is_all_ones(self) -> (r: bool)
        ensures
            r == every_lane(self@, ALL_ONES),
    {
        proof {
            assert(self@[0] == self.x && self@[1] == self.y && self@[2] == self.z && self@[3] == self.w);
        }
        self.x == ALL_ONES && self.y == ALL_ONES && self.z == ALL_ONES && self.w == ALL_ONES
    }

    /// True iff every bit of every lane is clear.
    pub fn is_all_zeroes(self) -> (r: bool)
        ensures
            r == every_lane(self@, 0),
    {
        proof {
            assert(self@[0] == self.x && self@[1] == self.y && self@[2] == self.z && self@[3] == self.w);
        }
        self.x == 0 && self.y == 0 && self.z == 0 && self.w == 0
    }

    /// Lane-wise equality, as a mask.
    pub fn packed_eq(self, other: U32x4) -> (r: U32x4)
        ensures
            r@ == mask_of(|i: int| self@[i] == other@[i]),
    {
        U32x4::from_bools(self.x == other.x, self.y == other.y, self.z == other.z, self.w == other.w)
    }
}

impl PartialEq for U32x4 {
    /// True iff all four lanes are equal.
    fn eq(&self, other: &U32x4) -> (r: bool) {
        self.packed_eq(*other).is_all_ones()
    }
}

impl vstd::std_specs::cmp::PartialEqSpecImpl for U32x4 {
    open spec fn obeys_eq_spec() -> bool {
        true
    }

    open spec fn eq_spec(&self, other: &U32x4) -> bool {
        self@ == other@
    }
}

impl core::ops::BitXor for U32x4 {
    type Output = U32x4;

    /// Lane-wise exclusive or.
    fn bitxor(self, other: U32x4) -> (r: U32x4) {
        U32x4 { x: self.x ^ other.x, y: self.y ^ other.y, z: self.z ^ other.z, w: self.w ^ other.w }
    }
}

impl vstd::std_specs::ops::BitXorSpecImpl for U32x4 {
    open spec fn obeys_bitxor_spec() -> bool {
        true
    }

    open spec fn bitxor_req(self, other: U32x4) -> bool {
        true
    }

    open spec fn bitxor_spec(self, other: U32x4) -> U32x4 {
        U32x4 { x: self.x ^ other.x, y: self.y ^ other.y, z: self.z ^ other.z, w: self.w ^ other.w }
    }
}

impl core::ops::Not for U32x4 {
    type Output = U32x4;

    /// Lane-wise complement, formed as an exclusive or with all ones.
    fn not(self) -> (r: U32x4) {
        proof {
            assert(forall|v: u32| v ^ !0u32 == 0xFFFF_FFFFu32 - v) by (bit_vector);
        }
        self ^ U32x4::splat(!0u32)
    }
}

impl vstd::std_specs::ops::NotSpecImpl for U32x4 {
    open spec fn obeys_not_spec() -> bool {
        true
    }

    open spec fn not_req(self) -> bool {
        true
    }

    /// Each lane's bitwise complement, `ALL_ONES - v` for a lane `v`.
    open spec fn not_spec(self) -> U32x4 {
        U32x4 {
            x: (ALL_ONES - self.x) as u32,
            y: (ALL_ONES - self.y) as u32,
            z: (ALL_ONES - self.z) as u32,
            w: (ALL_ONES - self.w) as u32,
        }
    }
}

} // verus!
