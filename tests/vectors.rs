use pathfinder_simd::{F32x4, I32x4, U32x4, U8x16};

fn f(a: f32, b: f32, c: f32, d: f32) -> F32x4 {
    F32x4::from_bits(a.to_bits(), b.to_bits(), c.to_bits(), d.to_bits())
}

fn floats(v: F32x4) -> [f32; 4] {
    [
        f32::from_bits(v.lane_bits(0)),
        f32::from_bits(v.lane_bits(1)),
        f32::from_bits(v.lane_bits(2)),
        f32::from_bits(v.lane_bits(3)),
    ]
}

fn lanes(v: U32x4) -> [u32; 4] {
    [v.lane(0), v.lane(1), v.lane(2), v.lane(3)]
}

fn ints(v: I32x4) -> [i32; 4] {
    [v.lane(0), v.lane(1), v.lane(2), v.lane(3)]
}

const T: u32 = 0xFFFF_FFFF;

#[test]
fn packed_eq_with_itself_is_all_ones() {
    for v in [
        f(1.0, -2.5, 0.0, -0.0),
        f(f32::INFINITY, f32::NEG_INFINITY, f32::MAX, f32::MIN_POSITIVE),
        F32x4::default(),
    ] {
        assert!(v.packed_eq(v).is_all_ones());
        assert!(v == v);
    }
}

#[test]
fn packed_eq_with_nan_lane_is_false_there() {
    let v = f(1.0, f32::NAN, 3.0, 4.0);
    assert_eq!(lanes(v.packed_eq(v)), [T, 0, T, T]);
    assert!(v != v);
}

#[test]
fn packed_eq_treats_zeroes_as_equal() {
    let a = f(0.0, 1.0, 2.0, 3.0);
    let b = f(-0.0, 1.0, 2.5, 3.0);
    assert_eq!(lanes(a.packed_eq(b)), [T, T, 0, T]);
}

#[test]
fn packed_lt_is_swapped_packed_gt() {
    let v = f(1.0, 5.0, -3.0, f32::NAN);
    let w = f(2.0, 4.0, -3.0, 0.0);
    assert_eq!(lanes(v.packed_lt(w)), lanes(w.packed_gt(v)));
    assert_eq!(lanes(v.packed_lt(w)), [T, 0, 0, 0]);
    assert_eq!(lanes(v.packed_gt(w)), [0, T, 0, 0]);
}

#[test]
fn packed_le_is_complement_of_packed_gt() {
    let v = f(1.0, 5.0, -3.0, f32::NAN);
    let w = f(2.0, 4.0, -3.0, 0.0);
    let gt = lanes(v.packed_gt(w));
    let le = lanes(v.packed_le(w));
    for i in 0..4 {
        assert_eq!(le[i], !gt[i]);
    }
    assert_eq!(le, [T, 0, T, T]);
}

#[test]
fn packed_gt_orders_negative_values() {
    let v = f(-1.0, -2.0, -0.0, f32::NEG_INFINITY);
    let w = f(-2.0, -1.0, 0.0, f32::MIN);
    assert_eq!(lanes(v.packed_gt(w)), [T, 0, 0, 0]);
    assert_eq!(lanes(w.packed_gt(v)), [0, T, 0, T]);
}

#[test]
fn splat_fills_every_lane() {
    let x = 7.25f32;
    let v = F32x4::splat_bits(x.to_bits());
    assert_eq!(floats(v), [x, x, x, x]);
    assert_eq!(ints(I32x4::splat(-9)), [-9, -9, -9, -9]);
    assert_eq!(lanes(U32x4::splat(0xDEAD_BEEF)), [0xDEAD_BEEF; 4]);
}

#[test]
fn new_keeps_argument_order() {
    assert_eq!(floats(f(1.0, 2.0, 3.0, 4.0)), [1.0, 2.0, 3.0, 4.0]);
    assert_eq!(ints(I32x4::new(1, -2, 3, -4)), [1, -2, 3, -4]);
    assert_eq!(lanes(U32x4::new(5, 6, 7, 8)), [5, 6, 7, 8]);
}

#[test]
fn swizzle_representatives() {
    let v = f(1.0, 2.0, 3.0, 4.0);
    assert_eq!(floats(v.xyzw()), [1.0, 2.0, 3.0, 4.0]);
    assert_eq!(floats(v.wzyx()), [4.0, 3.0, 2.0, 1.0]);
    assert_eq!(floats(v.xxxx()), [1.0; 4]);
    assert_eq!(floats(v.yyyy()), [2.0; 4]);
    assert_eq!(floats(v.zzzz()), [3.0; 4]);
    assert_eq!(floats(v.wwww()), [4.0; 4]);
    assert_eq!(floats(v.zyxw()), [3.0, 2.0, 1.0, 4.0]);
    assert_eq!(floats(v.yzxw()), [2.0, 3.0, 1.0, 4.0]);
    assert_eq!(floats(v.zxyw()), [3.0, 1.0, 2.0, 4.0]);
    assert_eq!(floats(v.xyxy()), [1.0, 2.0, 1.0, 2.0]);
    assert_eq!(floats(v.zwxy()), [3.0, 4.0, 1.0, 2.0]);
    assert_eq!(floats(v.xwzy()), [1.0, 4.0, 3.0, 2.0]);
}

#[test]
fn swizzle_immediate_formula() {
    let v = f(1.0, 2.0, 3.0, 4.0);
    let src = [1.0f32, 2.0, 3.0, 4.0];
    for imm in 0..=255u8 {
        let s = [imm & 3, (imm >> 2) & 3, (imm >> 4) & 3, imm >> 6];
        let expected = [src[s[0] as usize], src[s[1] as usize], src[s[2] as usize], src[s[3] as usize]];
        assert_eq!(floats(v.swizzle(imm)), expected);
    }
    // zyxw: sources 2, 1, 0, 3 give 2 + 4 * 1 + 16 * 0 + 64 * 3 = 198.
    assert_eq!(floats(v.swizzle(198)), floats(v.zyxw()));
}

#[test]
fn int_swizzles() {
    let v = I32x4::new(10, -20, 30, -40);
    assert_eq!(ints(v.xyxy()), [10, -20, 10, -20]);
    assert_eq!(ints(v.xwzy()), [10, -40, 30, -20]);
    assert_eq!(ints(v.zyxw()), [30, -20, 10, -40]);
    assert_eq!(ints(v.zwxy()), [30, -40, 10, -20]);
    let extremes = I32x4::new(i32::MIN, -1, i32::MAX, 0);
    assert_eq!(ints(extremes.zwxy()), [i32::MAX, 0, i32::MIN, -1]);
}

#[test]
fn concatenations() {
    let a = f(1.0, 2.0, 3.0, 4.0);
    let b = f(5.0, 6.0, 7.0, 8.0);
    assert_eq!(floats(a.concat_xy_xy(b)), [1.0, 2.0, 5.0, 6.0]);
    assert_eq!(floats(a.concat_xy_zw(b)), [1.0, 2.0, 7.0, 8.0]);
    assert_eq!(floats(a.concat_zw_zw(b)), [3.0, 4.0, 7.0, 8.0]);
    assert_eq!(floats(a.concat_wz_yx(b)), [4.0, 3.0, 6.0, 5.0]);
    let c = I32x4::new(1, 2, 3, 4);
    let d = I32x4::new(5, 6, 7, 8);
    assert_eq!(ints(c.concat_xy_xy(d)), [1, 2, 5, 6]);
}

#[test]
fn transpose_moves_rows_to_columns_and_back() {
    let rows = [
        f(1.0, 2.0, 3.0, 4.0),
        f(5.0, 6.0, 7.0, 8.0),
        f(9.0, 10.0, 11.0, 12.0),
        f(13.0, 14.0, 15.0, 16.0),
    ];
    let (mut a, mut b, mut c, mut d) = (rows[0], rows[1], rows[2], rows[3]);
    F32x4::transpose_4x4(&mut a, &mut b, &mut c, &mut d);
    assert_eq!(floats(a), [1.0, 5.0, 9.0, 13.0]);
    assert_eq!(floats(b), [2.0, 6.0, 10.0, 14.0]);
    assert_eq!(floats(c), [3.0, 7.0, 11.0, 15.0]);
    assert_eq!(floats(d), [4.0, 8.0, 12.0, 16.0]);
    F32x4::transpose_4x4(&mut a, &mut b, &mut c, &mut d);
    assert_eq!(floats(a), floats(rows[0]));
    assert_eq!(floats(b), floats(rows[1]));
    assert_eq!(floats(c), floats(rows[2]));
    assert_eq!(floats(d), floats(rows[3]));
}

fn cross(a: F32x4, b: F32x4) -> [f32; 4] {
    let (p, q, r, s) = (floats(a.yzxw()), floats(b.zxyw()), floats(a.zxyw()), floats(b.yzxw()));
    [p[0] * q[0] - r[0] * s[0], p[1] * q[1] - r[1] * s[1], p[2] * q[2] - r[2] * s[2], p[3] * q[3] - r[3] * s[3]]
}

#[test]
fn cross_product_of_unit_vectors() {
    let x = f(1.0, 0.0, 0.0, 0.0);
    let y = f(0.0, 1.0, 0.0, 0.0);
    let z = f(0.0, 0.0, 1.0, 0.0);
    assert_eq!(&cross(x, y)[0..3], &[0.0, 0.0, 1.0]);
    assert_eq!(&cross(y, z)[0..3], &[1.0, 0.0, 0.0]);
    assert_eq!(&cross(z, x)[0..3], &[0.0, 1.0, 0.0]);
    assert_eq!(&cross(y, x)[0..3], &[0.0, 0.0, -1.0]);
}

fn byte_vector(bytes: [u8; 16]) -> U8x16 {
    U8x16 { bytes }
}

#[test]
fn shuffle_gathers_and_zeroes_on_high_bit() {
    let mut src = [0u8; 16];
    for i in 0..16 {
        src[i] = 100 + i as u8;
    }
    let b = byte_vector(src);
    let mut idx = [0u8; 16];
    for i in 0..16 {
        idx[i] = 15 - i as u8;
    }
    idx[3] = 0x80 | 0x05;
    idx[7] = 0xFF;
    idx[9] = 0x80;
    idx[11] = 0x35;
    let r = b.shuffle(byte_vector(idx));
    for i in 0..16 {
        let expected = match i {
            3 | 7 | 9 => 0,
            11 => 105,
            _ => 100 + (15 - i as u8),
        };
        assert_eq!(r.bytes[i], expected);
    }
}

#[test]
fn all_ones_and_all_zeroes() {
    assert!(U32x4::splat(0xFFFF_FFFF).is_all_ones());
    assert!(U32x4::splat(0).is_all_zeroes());
    assert!(!U32x4::splat(0).is_all_ones());
    assert!(!U32x4::splat(0xFFFF_FFFF).is_all_zeroes());
    for mixed in [U32x4::new(T, 0, T, T), U32x4::new(0, 0, 0, 1), U32x4::new(T, T, T, 0xFFFF_FFFE)] {
        assert!(!mixed.is_all_ones());
        assert!(!mixed.is_all_zeroes());
    }
}

#[test]
fn byte_round_trip() {
    for v in [
        I32x4::new(0, 1, -1, 0x1234_5678),
        I32x4::new(i32::MIN, i32::MAX, -0x0102_0304, 255),
    ] {
        assert!(v.as_u8x16().as_i32x4() == v);
        assert_eq!(ints(v.as_u8x16().as_i32x4()), ints(v));
    }
}

#[test]
fn as_u8x16_is_little_endian() {
    let v = I32x4::new(0x0403_0201, -1, 0, 0x7F00_0080);
    let b = v.as_u8x16().bytes;
    assert_eq!(b, [1, 2, 3, 4, 0xFF, 0xFF, 0xFF, 0xFF, 0, 0, 0, 0, 0x80, 0, 0, 0x7F]);
    let back = U8x16::from_words(0x0403_0201, 0xFFFF_FFFF, 0, 0x7F00_0080);
    assert_eq!(back.bytes, b);
}

#[test]
fn int_arithmetic_wraps() {
    let a = I32x4::new(i32::MAX, i32::MIN, 7, -3);
    let b = I32x4::new(1, 1, -10, 4);
    assert_eq!(ints(a + b), [i32::MIN, i32::MIN + 1, -3, 1]);
    assert_eq!(ints(a - b), [i32::MAX - 1, i32::MAX, 17, -7]);
    assert_eq!(ints(a * b), [i32::MAX, i32::MIN, -70, -12]);
    let big = I32x4::splat(0x10000);
    assert_eq!(ints(big * big), [0; 4]);
}

#[test]
fn int_min_and_comparisons() {
    let a = I32x4::new(1, -5, 3, i32::MIN);
    let b = I32x4::new(2, -6, 3, i32::MAX);
    assert_eq!(ints(a.min(b)), [1, -6, 3, i32::MIN]);
    assert_eq!(lanes(a.packed_eq(b)), [0, 0, T, 0]);
    assert_eq!(lanes(a.packed_gt(b)), [0, T, 0, 0]);
    assert_eq!(lanes(a.packed_le(b)), [T, 0, T, T]);
    assert!(a != b);
    assert!(a == I32x4::new(1, -5, 3, i32::MIN));
}

#[test]
fn int_lane_access() {
    let mut v = I32x4::default();
    assert_eq!(ints(v), [0; 4]);
    v.set_lane(2, 42);
    assert_eq!(ints(v), [0, 0, 42, 0]);
}

#[test]
fn float_lane_access() {
    let mut v = F32x4::default();
    assert_eq!(floats(v), [0.0; 4]);
    v.set_lane_bits(1, 2.5f32.to_bits());
    assert_eq!(floats(v), [0.0, 2.5, 0.0, 0.0]);
}

#[test]
fn float_abs_clears_sign() {
    let v = f(-1.5, 2.0, -0.0, f32::NEG_INFINITY);
    assert_eq!(floats(v.abs()), [1.5, 2.0, 0.0, f32::INFINITY]);
    assert_eq!(v.abs().lane_bits(2), 0);
}

#[test]
fn float_min_max_follow_hardware() {
    let a = f(1.0, 5.0, f32::NAN, 2.0);
    let b = f(3.0, -5.0, 4.0, f32::NAN);
    let lo = floats(a.min(b));
    let hi = floats(a.max(b));
    assert_eq!(&lo[0..3], &[1.0, -5.0, 4.0]);
    assert!(lo[3].is_nan());
    assert_eq!(&hi[0..3], &[3.0, 5.0, 4.0]);
    assert!(hi[3].is_nan());
    let z = f(0.0, -0.0, 0.0, 0.0);
    let nz = f(-0.0, 0.0, 0.0, 0.0);
    assert_eq!(z.min(nz).lane_bits(0), (-0.0f32).to_bits());
    assert_eq!(z.max(nz).lane_bits(1), 0.0f32.to_bits());
}

#[test]
fn mask_not_and_xor() {
    let m = U32x4::new(T, 0, 0x0F0F_0F0F, 1);
    assert_eq!(lanes(!m), [0, T, 0xF0F0_F0F0, 0xFFFF_FFFE]);
    assert_eq!(lanes(m ^ U32x4::splat(0x0000_FFFF)), [0xFFFF_0000, 0x0000_FFFF, 0x0F0F_F0F0, 0x0000_FFFE]);
    assert_eq!(lanes(U32x4::from_bools(true, false, false, true)), [T, 0, 0, T]);
    assert!(m.packed_eq(m).is_all_ones());
    assert!(m == m);
    assert!(m != !m);
}
