use wide::{i16x16, i16x8, i8x16, i8x32, u16x16, u16x8, u32x16, u32x8, u8x16, u8x32};

fn i8_lanes<const N: usize>(f: impl Fn(usize) -> i8) -> [i8; N] {
    let mut out = [0i8; N];
    for (i, x) in out.iter_mut().enumerate() {
        *x = f(i);
    }
    out
}

fn u8_lanes<const N: usize>(f: impl Fn(usize) -> u8) -> [u8; N] {
    let mut out = [0u8; N];
    for (i, x) in out.iter_mut().enumerate() {
        *x = f(i);
    }
    out
}

#[test]
fn swizzle_selects_or_zeroes() {
    let table = i8x16::new(i8_lanes(|i| (i as i8) * 2 + 1));
    let idx = i8x16::new([0, 15, 16, -1, 3, 100, -128, 2, 1, 1, 1, 1, 1, 1, 1, 1]);
    let r = table.swizzle(idx);
    assert_eq!(r.to_array()[..8], [1, 31, 0, 0, 7, 0, 0, 5]);
    assert_eq!(table.swizzle_relaxed(idx), r);
}

#[test]
fn swizzle_by_identity_indices_returns_the_table() {
    let table = i8x16::new(i8_lanes(|i| 50 - i as i8));
    let idx = i8x16::new(i8_lanes(|i| i as i8));
    assert_eq!(table.swizzle(idx), table);
}

#[test]
fn swizzle_half_stays_within_each_half() {
    let table = i8x32::new(i8_lanes(|i| i as i8));
    let idx = i8x32::new(i8_lanes(|i| if i == 5 { 16 } else if i == 6 { -3 } else { 3 }));
    let r = table.swizzle_half(idx).to_array();
    assert_eq!(r[0], 3);
    assert_eq!(r[5], 0);
    assert_eq!(r[6], 0);
    assert_eq!(r[16], 19);
    assert_eq!(r[31], 19);
    assert_eq!(table.swizzle_half_relaxed(idx).to_array(), r);
}

#[test]
fn full_swizzle_spans_both_halves() {
    let table = i8x32::new(i8_lanes(|i| i as i8 + 1));
    let idx = i8x32::new(i8_lanes(|i| match i {
        0 => 31,
        1 => 16,
        2 => 32,
        3 => -1,
        _ => 0,
    }));
    let r = table.swizzle(idx).to_array();
    assert_eq!(r[..5], [32, 17, 0, 0, 1]);
    assert_eq!(table.swizzle_relaxed(idx).to_array(), r);
}

#[test]
fn unsigned_swizzles() {
    let table = u8x16::new(u8_lanes(|i| 200 + i as u8));
    let idx = i8x16::new([0, 1, 16, -1, 15, 0, 0, 0, 0, 0, 0, 0, 0, 0, 0, 0]);
    let r = table.swizzle(idx).to_array();
    assert_eq!(r[..5], [-56, -55, 0, 0, -41]);
    let uidx = u8x16::new([0, 15, 16, 255, 128, 2, 0, 0, 0, 0, 0, 0, 0, 0, 0, 0]);
    let ur = table.swizzle_relaxed(uidx).to_array();
    assert_eq!(ur[..6], [200, 215, 0, 0, 0, 202]);

    let big = u8x32::new(u8_lanes(|i| 100 + i as u8));
    let bidx = u8x32::new(u8_lanes(|i| match i {
        0 => 31,
        1 => 32,
        2 => 255,
        3 => 17,
        _ => 0,
    }));
    assert_eq!(big.swizzle(bidx).to_array()[..4], [131, 0, 0, 117]);
    assert_eq!(big.swizzle_relaxed(bidx), big.swizzle(bidx));
    let hidx = u8x32::new(u8_lanes(|i| if i == 20 { 15 } else if i == 21 { 16 } else { 1 }));
    let hr = big.swizzle_half_relaxed(hidx).to_array();
    assert_eq!(hr[0], 101);
    assert_eq!(hr[20], 131);
    assert_eq!(hr[21], 0);
    let sidx = i8x32::new(i8_lanes(|i| if i == 17 { 2 } else { -1 }));
    let sr = big.swizzle_half(sidx).to_array();
    assert_eq!(sr[17], 118);
    assert_eq!(sr[0], 0);
}

#[test]
fn narrowing_saturates_or_truncates() {
    let v = i16x16::new([-200, -128, -1, 0, 127, 128, 300, 255, -32768, 32767, 1, 2, 3, 4, 5, 6]);
    let s = i8x16::from_i16x16_saturate(v).to_array();
    assert_eq!(s[..10], [-128, -128, -1, 0, 127, 127, 127, 127, -128, 127]);
    let t = i8x16::from_i16x16_truncate(v).to_array();
    assert_eq!(t[..10], [56, -128, -1, 0, 127, -128, 44, -1, 0, -1]);
    let lhs = i16x8::new([-5, 0, 255, 256, 1000, 7, 8, 9]);
    let rhs = i16x8::new([1, 2, 3, 4, 5, 6, -32768, 32767]);
    let n = u8x16::narrow_i16x8(lhs, rhs).to_array();
    assert_eq!(n, [0, 0, 255, 255, 255, 7, 8, 9, 1, 2, 3, 4, 5, 6, 0, 255]);
}

#[test]
fn from_slice_unaligned_takes_the_first_sixteen() {
    let data: Vec<i8> = (0..20).map(|x| x as i8).collect();
    let v = i8x16::from_slice_unaligned(&data);
    assert_eq!(v.to_array(), i8_lanes(|i| i as i8));
}

#[test]
fn unpack_interleaves_halves() {
    let a = u8x16::new(u8_lanes(|i| i as u8));
    let b = u8x16::new(u8_lanes(|i| 100 + i as u8));
    let lo = u8x16::unpack_low(a, b).to_array();
    assert_eq!(lo[..6], [0, 100, 1, 101, 2, 102]);
    let hi = u8x16::unpack_high(a, b).to_array();
    assert_eq!(hi[..4], [8, 108, 9, 109]);
    assert_eq!(hi[14..], [15, 115]);
}

#[test]
fn widening_from_conversions() {
    let a = u8x16::new(u8_lanes(|i| 250 + (i as u8 % 6)));
    let w = u16x16::from(a).to_array();
    assert_eq!(w[..6], [250, 251, 252, 253, 254, 255]);
    let h = u16x16::new([65535; 16]);
    assert_eq!(u32x16::from(h).to_array(), [65535u32; 16]);
    let g = u16x8::new([1, 2, 3, 65535, 5, 6, 7, 8]);
    assert_eq!(u32x8::from(g).to_array(), [1, 2, 3, 65535, 5, 6, 7, 8]);
}

#[test]
fn wide_dot_on_thirty_two_lanes() {
    let a = wide::i16x32::splat(2);
    let b = wide::i16x32::splat(-3);
    assert_eq!(a.dot(b).to_array(), [-12; 16]);
}
