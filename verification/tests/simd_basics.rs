use wide::{Simd, i32x4, i64x4, u32x4, u8x16, i16x8, u64x2};

#[test]
fn new_and_to_array_round_trip() {
    let a = u32x4::new([1, 2, 3, 4]);
    assert_eq!(a.to_array(), [1, 2, 3, 4]);
    assert_eq!(*a.as_array(), [1, 2, 3, 4]);
}

#[test]
fn splat_fills_every_lane() {
    let a = i32x4::splat(-7);
    assert_eq!(a.to_array(), [-7, -7, -7, -7]);
}

#[test]
fn zeroed_and_default_are_all_zero() {
    assert_eq!(u8x16::zeroed().to_array(), [0u8; 16]);
    let d: i16x8 = Default::default();
    assert_eq!(d.to_array(), [0i16; 8]);
}

#[test]
fn as_mut_array_writes_through() {
    let mut a = u32x4::new([1, 2, 3, 4]);
    a.as_mut_array()[2] = 30;
    assert_eq!(a.to_array(), [1, 2, 30, 4]);
}

#[test]
fn from_slice_fills_missing_lanes_with_zero() {
    let a = u32x4::from_slice(&[9, 8]);
    assert_eq!(a.to_array(), [9, 8, 0, 0]);
    let b = u32x4::from_slice(&[1, 2, 3, 4]);
    assert_eq!(b.to_array(), [1, 2, 3, 4]);
    let c = u32x4::from_slice(&[]);
    assert_eq!(c.to_array(), [0, 0, 0, 0]);
}

#[test]
fn from_array_and_into_array() {
    let a: i32x4 = [5, 6, 7, 8].into();
    let back: [i32; 4] = a.into();
    assert_eq!(back, [5, 6, 7, 8]);
    let s: u64x2 = Simd::from(3u64);
    assert_eq!(s.to_array(), [3, 3]);
}

#[test]
fn equality_compares_every_lane() {
    let a = i32x4::new([1, 2, 3, 4]);
    let b = i32x4::new([1, 2, 3, 4]);
    let c = i32x4::new([1, 2, 3, 5]);
    assert!(a == b);
    assert!(a != c);
}

#[test]
fn simd_eq_and_ne_give_masks() {
    let a = u32x4::new([1, 2, 3, 4]);
    let b = u32x4::new([1, 0, 3, 0]);
    assert_eq!(a.simd_eq(b).to_array(), [u32::MAX, 0, u32::MAX, 0]);
    assert_eq!(a.simd_ne(b).to_array(), [0, u32::MAX, 0, u32::MAX]);
}

#[test]
fn unsigned_comparisons_use_unsigned_order() {
    let a = u32x4::new([0x8000_0000, 1, 5, 5]);
    let b = u32x4::new([1, 0x8000_0000, 5, 6]);
    assert_eq!(a.simd_gt(b).to_array(), [u32::MAX, 0, 0, 0]);
    assert_eq!(a.simd_lt(b).to_array(), [0, u32::MAX, 0, u32::MAX]);
    assert_eq!(a.simd_ge(b).to_array(), [u32::MAX, 0, u32::MAX, 0]);
    assert_eq!(a.simd_le(b).to_array(), [0, u32::MAX, u32::MAX, u32::MAX]);
}

#[test]
fn signed_comparisons_use_signed_order() {
    let a = i32x4::new([-1, 1, i32::MIN, 0]);
    let b = i32x4::new([1, -1, i32::MAX, 0]);
    assert_eq!(a.simd_gt(b).to_array(), [0, -1, 0, 0]);
    assert_eq!(a.simd_lt(b).to_array(), [-1, 0, -1, 0]);
    assert_eq!(a.simd_le(b).to_array(), [-1, 0, -1, -1]);
    assert_eq!(a.simd_ge(b).to_array(), [0, -1, 0, -1]);
}

#[test]
fn lt_is_gt_with_operands_swapped() {
    let a = i64x4::new([3, -4, 5, 0]);
    let b = i64x4::new([2, 8, 5, -1]);
    assert_eq!(a.simd_lt(b), b.simd_gt(a));
    assert_eq!(a.simd_ge(b), b.simd_le(a));
}

#[test]
fn ne_le_ge_are_negations() {
    let a = i32x4::new([3, -4, 5, 0]);
    let b = i32x4::new([2, 8, 5, -1]);
    assert_eq!(a.simd_ne(b), !a.simd_eq(b));
    assert_eq!(a.simd_le(b), !a.simd_gt(b));
    assert_eq!(a.simd_ge(b), !a.simd_lt(b));
}

#[test]
fn reduce_add_wraps() {
    let a = u32x4::new([u32::MAX, 2, 3, 4]);
    assert_eq!(a.reduce_add(), 8);
    let b = i32x4::new([i32::MAX, 1, 0, 0]);
    assert_eq!(b.reduce_add(), i32::MIN);
    let c = u8x16::splat(1);
    assert_eq!(c.reduce_add(), 16);
}

#[test]
fn reduce_mul_wraps() {
    let a = u32x4::new([2, 3, 4, 5]);
    assert_eq!(a.reduce_mul(), 120);
    let b = u32x4::new([0x1_0000, 0x1_0000, 1, 1]);
    assert_eq!(b.reduce_mul(), 0);
    let c = i32x4::new([-1, 2, -3, 4]);
    assert_eq!(c.reduce_mul(), 24);
}

#[test]
fn bitselect_takes_bits() {
    let m = u32x4::new([0xffff_0000, 0, u32::MAX, 0x0f0f_0f0f]);
    let one = u32x4::splat(0x1234_5678);
    let zero = u32x4::splat(0x9abc_def0);
    assert_eq!(
        m.bitselect(one, zero).to_array(),
        [0x1234_def0, 0x9abc_def0, 0x1234_5678, 0x92b4_d6f8]
    );
}

#[test]
fn select_takes_whole_lanes_of_a_mask() {
    let a = i32x4::new([1, 2, 3, 4]);
    let b = i32x4::new([10, 20, 30, 40]);
    let m = i32x4::new([-1, 0, 0, -1]);
    assert_eq!(m.select(a, b).to_array(), [1, 20, 30, 4]);
    #[allow(deprecated)]
    let blended = m.blend(a, b);
    assert_eq!(blended, m.select(a, b));
}

#[test]
fn select_on_greater_than_is_max() {
    let a = i32x4::new([1, -5, 7, 7]);
    let b = i32x4::new([2, -6, 7, 0]);
    assert_eq!(a.simd_gt(b).select(a, b), a.max(b));
    assert_eq!(a.simd_lt(b).select(a, b), a.min(b));
    assert_eq!(a.max(b).to_array(), [2, -5, 7, 7]);
    assert_eq!(a.min(b).to_array(), [1, -6, 7, 0]);
}

#[test]
fn to_bitmask_has_one_bit_per_lane() {
    let m = i32x4::new([0, -1, 0, -1]);
    assert_eq!(m.to_bitmask(), 0b1010);
    let all = u8x16::splat(0xff);
    assert_eq!(all.to_bitmask(), 0xffff);
    let none = u8x16::splat(0);
    assert_eq!(none.to_bitmask(), 0);
}

#[test]
fn any_all_none_follow_the_bitmask() {
    let some = u32x4::new([0, u32::MAX, 0, 0]);
    assert!(some.any());
    assert!(!some.all());
    assert!(!some.none());
    assert!(some.to_bitmask() != 0);
    let every = u32x4::splat(u32::MAX);
    assert!(every.all());
    assert_eq!(every.to_bitmask(), 0b1111);
    let nothing = u32x4::splat(0);
    assert!(nothing.none());
    assert!(!nothing.any());
}

#[test]
fn transpose_swaps_rows_and_columns() {
    let m = [
        i32x4::new([1, 2, 3, 4]),
        i32x4::new([5, 6, 7, 8]),
        i32x4::new([9, 10, 11, 12]),
        i32x4::new([13, 14, 15, 16]),
    ];
    let t = i32x4::transpose(m);
    assert_eq!(t[0].to_array(), [1, 5, 9, 13]);
    assert_eq!(t[3].to_array(), [4, 8, 12, 16]);
    assert_eq!(i32x4::transpose(t), m);
}

#[test]
fn reduce_add_distributes_over_addition() {
    let a = u32x4::new([u32::MAX, 7, 0x8000_0000, 1]);
    let b = u32x4::new([3, u32::MAX, 0x8000_0000, 2]);
    assert_eq!((a + b).reduce_add(), a.reduce_add().wrapping_add(b.reduce_add()));
    let c = i16x8::new([i16::MAX, -5, 300, 1, 1, 1, 1, 1]);
    let d = i16x8::new([i16::MAX, i16::MIN, -300, 9, 0, 0, 0, 0]);
    assert_eq!((c + d).reduce_add(), c.reduce_add().wrapping_add(d.reduce_add()));
}

#[test]
fn comparison_results_are_masks() {
    let a = i16x8::new([1, -2, 3, -4, 5, -6, 7, -8]);
    let b = i16x8::new([0, 0, 3, 3, -9, 9, 7, 7]);
    for m in [a.simd_eq(b), a.simd_ne(b), a.simd_lt(b), a.simd_gt(b), a.simd_le(b), a.simd_ge(b)] {
        for lane in m.to_array() {
            assert!(lane == 0 || lane == -1);
        }
    }
}

#[test]
fn bitmask_bit_i_is_lane_i() {
    let m = u8x16::new([0xff, 0, 0x80, 0x7f, 0, 0, 0, 0, 0, 0, 0, 0, 0, 0, 0, 0xff]);
    let bits = m.to_bitmask();
    assert_eq!(bits, 0b1000_0000_0000_0101);
    for (i, lane) in m.to_array().iter().enumerate() {
        assert_eq!((bits >> i) & 1 == 1, *lane >= 0x80);
    }
}
