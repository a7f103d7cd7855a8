use wide::{i16x8, i32x4, u32x4, u8x16, CmpEq, CmpGt, CmpLt};

#[test]
fn operators_on_references_match_operators_on_values() {
    let a = u32x4::new([u32::MAX, 1, 2, 3]);
    let b = u32x4::new([1, 2, 3, 4]);
    assert_eq!((a + &b).to_array(), (a + b).to_array());
    assert_eq!((&a + b).to_array(), (a + b).to_array());
    assert_eq!((&a + &b).to_array(), [0, 3, 5, 7]);
    assert_eq!((&b - &a).to_array(), [2, 1, 1, 1]);
    assert_eq!((&a * b).to_array(), [u32::MAX, 2, 6, 12]);
    assert_eq!((&a & &b).to_array(), [1, 0, 2, 0]);
    assert_eq!((a | &b).to_array(), [u32::MAX, 3, 3, 7]);
    assert_eq!((&a ^ b).to_array(), [u32::MAX - 1, 3, 1, 7]);
    assert_eq!((-&b).to_array(), [u32::MAX, u32::MAX - 1, u32::MAX - 2, u32::MAX - 3]);
    assert_eq!((!&b).to_array(), [!1u32, !2, !3, !4]);
}

#[test]
fn scalar_operands_on_references() {
    let a = i32x4::new([i32::MAX, -1, 0, 5]);
    assert_eq!((&a + 1).to_array(), [i32::MIN, 0, 1, 6]);
    assert_eq!((a - &2).to_array(), [i32::MAX - 2, -3, -2, 3]);
    assert_eq!((&a * &3).to_array(), [i32::MAX.wrapping_mul(3), -3, 0, 15]);
    assert_eq!((&a & 4).to_array(), [4, 4, 0, 4]);
}

#[test]
fn scalar_on_the_left() {
    let a = i16x8::new([1, -2, 3, i16::MAX, 0, 7, -8, 9]);
    assert_eq!((10 - a).to_array(), [9, 12, 7, 10i16.wrapping_sub(i16::MAX), 10, 3, 18, 1]);
    assert_eq!((&10 - a).to_array(), (10 - a).to_array());
    assert_eq!((10 - &a).to_array(), (10 - a).to_array());
    assert_eq!((&10 - &a).to_array(), (10 - a).to_array());
    assert_eq!((2 * a).to_array(), [2, -4, 6, -2, 0, 14, -16, 18]);
    assert_eq!((1 + a).to_array(), (a + 1).to_array());
    let b = u8x16::splat(0x0f);
    assert_eq!((0xf0u8 | b).to_array(), [0xff; 16]);
    assert_eq!((0xffu8 ^ &b).to_array(), [0xf0; 16]);
    assert_eq!((&0x3cu8 & b).to_array(), [0x0c; 16]);
}

#[test]
fn comparisons_with_a_scalar() {
    let a = u32x4::new([1, 5, 9, u32::MAX]);
    assert_eq!(a.simd_eq(5).to_array(), [0, u32::MAX, 0, 0]);
    assert_eq!(a.simd_ne(5).to_array(), [u32::MAX, 0, u32::MAX, u32::MAX]);
    assert_eq!(a.simd_lt(5).to_array(), [u32::MAX, 0, 0, 0]);
    assert_eq!(a.simd_gt(5).to_array(), [0, 0, u32::MAX, u32::MAX]);
    assert_eq!(a.simd_le(5).to_array(), [u32::MAX, u32::MAX, 0, 0]);
    assert_eq!(a.simd_ge(5).to_array(), [0, u32::MAX, u32::MAX, u32::MAX]);
    let s = i32x4::new([-3, 0, 3, -1]);
    assert_eq!(s.simd_lt(0).to_array(), [-1, 0, 0, -1]);
    assert_eq!(s.simd_gt(s).to_array(), [0; 4]);
}

#[test]
fn comparison_traits_agree_with_methods() {
    let a = i32x4::new([-3, 0, 3, -1]);
    let b = i32x4::new([-3, 1, 2, 5]);
    assert_eq!(CmpEq::simd_eq(a, b).to_array(), a.simd_eq(b).to_array());
    assert_eq!(CmpLt::simd_lt(a, 0).to_array(), [-1, 0, 0, -1]);
    assert_eq!(CmpGt::simd_gt(a, b).to_array(), [0, 0, -1, 0]);
}

#[test]
fn division_rounds_toward_zero() {
    let a = i32x4::new([7, -7, 7, -7]);
    let b = i32x4::new([2, 2, -2, -2]);
    assert_eq!((a / b).to_array(), [3, -3, -3, 3]);
    assert_eq!((a % b).to_array(), [1, -1, 1, -1]);
    let u = u32x4::new([7, 0, u32::MAX, 9]);
    let v = u32x4::new([2, 5, 16, 9]);
    assert_eq!((u / v).to_array(), [3, 0, u32::MAX / 16, 1]);
    assert_eq!((u % v).to_array(), [1, 0, 15, 0]);
}

#[test]
fn division_of_the_minimum_by_minus_one_wraps() {
    let a = i16x8::new([i16::MIN, i16::MIN, i16::MAX, -1, 0, 5, -5, i16::MIN]);
    let b = i16x8::new([-1, 1, -1, -1, -1, -1, -1, 2]);
    assert_eq!((a / b).to_array(), [i16::MIN, i16::MIN, -i16::MAX, 1, 0, -5, 5, i16::MIN / 2]);
    assert_eq!((a % b).to_array(), [0; 8]);
}

#[test]
fn division_forms_with_scalars_and_references() {
    let a = i32x4::new([10, -10, 3, 0]);
    assert_eq!((a / 3).to_array(), [3, -3, 1, 0]);
    assert_eq!((a % 3).to_array(), [1, -1, 0, 0]);
    assert_eq!((&a / &3).to_array(), (a / 3).to_array());
    assert_eq!((100 / a.simd_eq(0).select(i32x4::splat(1), a)).to_array(), [10, -10, 33, 100]);
    let d = i32x4::new([7, -7, 4, 9]);
    assert_eq!((&a % d).to_array(), [3, -3, 3, 0]);
    assert_eq!((&23 % &d).to_array(), [2, 2, 3, 5]);
}

