use vstd::prelude::*;

use crate::signed::{from_bits, signed_of, I32x4};

verus! {

/// Byte `j` of `v`, counting from the least significant.
pub open spec fn byte_at(v: u32, j: int) -> u8 {
    (if j == 0 {
        v % 0x100
    } else if j == 1 {
        (v / 0x100) % 0x100
    } else if j == 2 {
        (v / 0x1_0000) % 0x100
    } else {
        v / 0x100_0000
    }) as u8
}

/// Four 32-bit words laid out as sixteen bytes, little-endian within each word.
pub open spec fn lane_bytes(words: Seq<u32>) -> Seq<u8> {
    Seq::new(16, |i: int| byte_at(words[i / 4], i % 4))
}

/// The 32-bit word made of bytes `4k` to `4k + 3` of `b`, little-endian.
pub open spec fn word_at(b: Seq<u8>, k: int) -> u32 {
    (b[4 * k] + 0x100 * b[4 * k + 1] + 0x1_0000 * b[4 * k + 2] + 0x100_0000 * b[4 * k + 3]) as u32
}

/// What a byte shuffle writes for index byte `m`: zero when bit 7 of `m` is
/// set, else the byte of `s` that the low four bits of `m` select.
pub open spec fn shuffled_byte(s: Seq<u8>, m: u8) -> u8 {
    if m >= 0x80 {
        0
    } else {
        s[(m % 16) as int]
    }
}

fn byte(v: u32, j: u32) -> (r: u8)
    requires
        j < 4,
    ensures
        r == byte_at(v, j as int),
{
    if j == 0 {
        (v % 0x100) as u8
    } else if j == 1 {
        ((v / 0x100) % 0x100) as u8
    } else if j == 2 {
        ((v / 0x1_0000) % 0x100) as u8
    } else {
        (v / 0x100_0000) as u8
    }
}

/// Sixteen unsigned 8-bit lanes.
#[derive(Clone, Copy, Debug)]
pub struct U8x16 {
    pub bytes: [u8; 16],
}

impl View for U8x16 {
    type V = Seq<u8>;

    open spec fn view(&self) -> Seq<u8> {
        self.bytes@
    }
}

impl U8x16 {
    /// The bytes of four 32-bit words, each least significant byte first.
    pub fn from_words(a: u32, b: u32, c: u32, d: u32) -> (r: U8x16)
        ensures
            r@ == lane_bytes(seq![a, b, c, d]),
    {
        let bytes = [
            byte(a, 0), byte(a, 1), byte(a, 2), byte(a, 3),
            byte(b, 0), byte(b, 1), byte(b, 2), byte(b, 3),
            byte(c, 0), byte(c, 1), byte(c, 2), byte(c, 3),
            byte(d, 0), byte(d, 1), byte(d, 2), byte(d, 3),
        ];
        proof {
            assert(bytes@ =~= lane_bytes(seq![a, b, c, d]));
        }
        U8x16 { bytes }
    }

    /// The 32-bit word made of bytes `4k` to `4k + 3`.
    fn word(&self, k: usize) -> (r: u32)
        requires
            k < 4,
        ensures
            r == word_at(self@, k as int),
    {
        let b0 = self.bytes[4 * k] as u32;
        let b1 = self.bytes[4 * k + 1] as u32;
        let b2 = self.bytes[4 * k + 2] as u32;
        let b3 = self.bytes[4 * k + 3] as u32;
        b0 + 0x100 * b1 + 0x1_0000 * b2 + 0x100_0000 * b3
    }

    /// The same 128 bits read as four signed lanes, lane 0 from bytes 0 to 3.
    pub fn as_i32x4(self) -> (r: I32x4)
        ensures
            r@ == seq![
                signed_of(word_at(self@, 0)),
                signed_of(word_at(self@, 1)),
                signed_of(word_at(self@, 2)),
                signed_of(word_at(self@, 3)),
            ],
    {
        I32x4::new(from_bits(self.word(0)), from_bits(self.word(1)), from_bits(self.word(2)), from_bits(self.word(3)))
    }

    /// Byte `i` of the result is `shuffled_byte(self@, indices@[i])`: gathered
    /// from `self` by the low four bits of `indices@[i]`, or zero where its
    /// bit 7 is set.
    pub fn shuffle(self, indices: U8x16) -> (r: U8x16)
        ensures
            forall|i: int| 0 <= i < 16 ==> #[trigger] r@[i] == shuffled_byte(self@, indices@[i]),
    {
        let mut out = [0u8; 16];
        let mut i: usize = 0;
        while i < 16
            invariant
                i <= 16,
                out@.len() == 16,
                forall|j: int| 0 <= j < i ==> #[trigger] out@[j] == shuffled_byte(self@, indices@[j]),
            decreases 16 - i,
        {
            let m = indices.bytes[i];
            let picked = if m >= 0x80 {
                0
            } else {
                self.bytes[(m % 16) as usize]
            };
            out[i] = picked;
            i = i + 1;
        }
        U8x16 { bytes: out }
    }
}

} // verus!
