use wide::{i8x16, i16x16, i16x8, i32x4, i64x4, u16x8, u32x4, u64x2, u64x4, u8x16};

#[test]
fn add_sub_mul_wrap() {
    let a = u32x4::new([u32::MAX, 1, 2, 3]);
    let b = u32x4::new([1, 2, 3, 4]);
    assert_eq!((a + b).to_array(), [0, 3, 5, 7]);
    assert_eq!((b - a).to_array(), [2, 1, 1, 1]);
    assert_eq!((a * b).to_array(), [u32::MAX, 2, 6, 12]);
}

#[test]
fn signed_arithmetic_wraps() {
    let a = i32x4::new([i32::MAX, i32::MIN, -3, 7]);
    let b = i32x4::new([1, 1, 4, -2]);
    assert_eq!((a + b).to_array(), [i32::MIN, i32::MIN + 1, 1, 5]);
    assert_eq!((a - b).to_array(), [i32::MAX - 1, i32::MAX, -7, 9]);
    assert_eq!((a * b).to_array(), [i32::MAX, i32::MIN, -12, -14]);
}

#[test]
fn scalar_operands_apply_to_every_lane() {
    let a = u32x4::new([1, 2, 3, 4]);
    assert_eq!((a + 10u32).to_array(), [11, 12, 13, 14]);
    assert_eq!((a - 1u32).to_array(), [0, 1, 2, 3]);
    assert_eq!((a * 3u32).to_array(), [3, 6, 9, 12]);
    assert_eq!((a & 2u32).to_array(), [0, 2, 2, 0]);
    assert_eq!((a | 8u32).to_array(), [9, 10, 11, 12]);
    assert_eq!((a ^ 1u32).to_array(), [0, 3, 2, 5]);
}

#[test]
fn negation_wraps_also_for_unsigned() {
    let a = i32x4::new([1, -2, 0, i32::MIN]);
    assert_eq!((-a).to_array(), [-1, 2, 0, i32::MIN]);
    let b = u32x4::new([1, 0, 2, u32::MAX]);
    assert_eq!((-b).to_array(), [u32::MAX, 0, u32::MAX - 1, 1]);
    assert_eq!(-(-a), a);
}

#[test]
fn subtraction_undoes_addition() {
    let a = u64x4::new([u64::MAX, 0, 12345, 1 << 63]);
    let b = u64x4::new([7, u64::MAX, 99, 1 << 63]);
    assert_eq!((a + b) - b, a);
    assert_eq!(a + b, b + a);
}

#[test]
fn bitwise_operators() {
    let a = u32x4::new([0b1100, 0xffff_ffff, 0, 0x8000_0001]);
    let b = u32x4::new([0b1010, 0x0f0f_0f0f, 0, 0x0000_0001]);
    assert_eq!((a & b).to_array(), [0b1000, 0x0f0f_0f0f, 0, 1]);
    assert_eq!((a | b).to_array(), [0b1110, 0xffff_ffff, 0, 0x8000_0001]);
    assert_eq!((a ^ b).to_array(), [0b0110, 0xf0f0_f0f0, 0, 0x8000_0000]);
    assert_eq!((!a).to_array(), [!0b1100u32, 0, u32::MAX, 0x7fff_fffe]);
}

#[test]
fn shifts_take_the_amount_modulo_the_width() {
    let a = u32x4::new([1, 0x8000_0000, 3, 0xffff_ffff]);
    assert_eq!((a << 4u32).to_array(), [16, 0, 48, 0xffff_fff0]);
    assert_eq!((a << 33u32).to_array(), [2, 0, 6, 0xffff_fffe]);
    assert_eq!((a >> 1u32).to_array(), [0, 0x4000_0000, 1, 0x7fff_ffff]);
    let s = i32x4::new([-8, 8, -1, i32::MIN]);
    assert_eq!((s >> 2u32).to_array(), [-2, 2, -1, i32::MIN >> 2]);
}

#[test]
fn min_max_and_reductions() {
    let a = i16x8::new([3, -9, 12, 0, 7, 7, -1, 5]);
    assert_eq!(a.reduce_max(), 12);
    assert_eq!(a.reduce_min(), -9);
    let u = u32x4::new([3, 0x8000_0000, 1, 2]);
    assert_eq!(u.reduce_max(), 0x8000_0000);
    assert_eq!(u.reduce_min(), 1);
}

#[test]
fn saturating_arithmetic_clamps() {
    let a = u8x16::new([250, 5, 0, 128, 1, 1, 1, 1, 1, 1, 1, 1, 1, 1, 1, 1]);
    let b = u8x16::new([10, 5, 1, 128, 1, 1, 1, 1, 1, 1, 1, 1, 1, 1, 1, 1]);
    assert_eq!(a.saturating_add(b).to_array()[..4], [255, 10, 1, 255]);
    assert_eq!(a.saturating_sub(b).to_array()[..4], [240, 0, 0, 0]);
    let s = i8x16::new([120, -120, 0, 5, 0, 0, 0, 0, 0, 0, 0, 0, 0, 0, 0, 0]);
    let t = i8x16::new([10, 10, -128, -5, 0, 0, 0, 0, 0, 0, 0, 0, 0, 0, 0, 0]);
    assert_eq!(s.saturating_add(t).to_array()[..4], [127, -110, -128, 0]);
    assert_eq!(s.saturating_sub(t).to_array()[..4], [110, -128, 127, 10]);
}

#[test]
fn abs_and_sign_masks() {
    let a = i32x4::new([-5, 5, 0, i32::MIN]);
    assert_eq!(a.abs().to_array(), [5, 5, 0, i32::MIN]);
    assert_eq!(a.is_positive().to_array(), [0, -1, 0, 0]);
    assert_eq!(a.is_negative().to_array(), [-1, 0, 0, -1]);
}

#[test]
fn widening_multiplication_is_exact() {
    let a = u32x4::new([u32::MAX, 2, 0, 0x1_0000]);
    let b = u32x4::new([u32::MAX, 3, 9, 0x1_0000]);
    assert_eq!(
        a.widening_mul(b).to_array(),
        [0xffff_fffe_0000_0001, 6, 0, 0x1_0000_0000]
    );
    #[allow(deprecated)]
    let old = a.mul_widen(b);
    assert_eq!(old, a.widening_mul(b));
    let s = i32x4::new([i32::MIN, -3, 7, i32::MAX]);
    let t = i32x4::new([i32::MIN, 4, -7, -1]);
    assert_eq!(
        s.widening_mul(t).to_array(),
        [1i64 << 62, -12, -49, -(i32::MAX as i64)]
    );
    #[allow(deprecated)]
    let old_signed: i64x4 = s.mul_widen(t);
    assert_eq!(old_signed, s.widening_mul(t));
    let h = i16x8::new([-32768, 300, 0, 1, 1, 1, 1, 1]);
    assert_eq!(h.widening_mul(h).to_array()[..2], [1 << 30, 90000]);
}

#[test]
fn low_and_high_halves_of_products() {
    let a = u32x4::new([u32::MAX, 2, 0x1_0000, 3]);
    let b = u32x4::new([u32::MAX, 3, 0x1_0000, 0]);
    let (low, high) = a.mul_keep_low_high(b);
    assert_eq!(low.to_array(), [1, 6, 0, 0]);
    assert_eq!(high.to_array(), [0xffff_fffe, 0, 1, 0]);
    assert_eq!(a.mul_keep_high(b), high);
    let s = i32x4::new([-1, i32::MIN, 5, -5]);
    let t = i32x4::new([1, 2, -1, -1]);
    let (sl, sh) = s.mul_keep_low_high(t);
    assert_eq!(sl.to_array(), [u32::MAX, 0, (-5i32) as u32, 5]);
    assert_eq!(sh.to_array(), [-1, -1, -1, 0]);
    let w = u64x2::new([u64::MAX, 1 << 32]);
    assert_eq!(w.mul_keep_high(w).to_array(), [u64::MAX - 1, 1]);
}

#[test]
fn overflowing_multiplication_reports_overflow() {
    let a = u32x4::new([0x1_0000, 3, u32::MAX, 0]);
    let b = u32x4::new([0x1_0000, 4, 2, 5]);
    let (product, overflow) = a.overflowing_mul(b);
    assert_eq!(product.to_array(), [0, 12, u32::MAX - 1, 0]);
    assert_eq!(overflow.to_array(), [u32::MAX, 0, u32::MAX, 0]);
    let s = i16x8::new([-32768, 200, 181, -181, 1, 1, 1, 1]);
    let t = i16x8::new([-1, 200, 181, 181, 1, 1, 1, 1]);
    let (sp, so) = s.overflowing_mul(t);
    assert_eq!(sp.to_array()[..4], [-32768, -25536, 32761, -32761]);
    assert_eq!(so.to_array()[..4], [-1, -1, 0, 0]);
}

#[test]
fn dot_adds_adjacent_products() {
    let a = i16x16::new([1, 2, 3, 4, -5, 6, 7, 8, 0, 0, 1, 1, -32768, -32768, 100, -100]);
    let b = i16x16::new([5, 6, 7, 8, 1, 1, 2, 3, 9, 9, 1, 1, -32768, -32768, 100, 100]);
    assert_eq!(a.dot(b).to_array(), [17, 53, 1, 38, 0, 2, i32::MIN, 0]);
}

#[test]
fn mul_scale_round_is_fixed_point_multiplication() {
    let a = i16x16::splat(16384);
    assert_eq!(a.mul_scale_round(a).to_array(), [8192; 16]);
    let b = i16x16::splat(-32768);
    assert_eq!(b.mul_scale_round(b).to_array(), [-32768; 16]);
    let c = i16x16::splat(3);
    assert_eq!(c.mul_scale_round_n(16384).to_array(), [2; 16]);
    let d = i16x16::splat(-3);
    assert_eq!(d.mul_scale_round_n(16384).to_array(), [-1; 16]);
    let e = i16x8::splat(1000);
    assert_eq!(e.mul_scale_round_n(-32768).to_array(), [-1000; 8]);
}

#[test]
fn conversions_widen_exactly() {
    let a = i8x16::new([-128, -1, 0, 1, 127, 5, 6, 7, 8, 9, 10, 11, 12, 13, 14, 15]);
    let w = i16x16::from_i8x16(a);
    assert_eq!(w.to_array()[..5], [-128, -1, 0, 1, 127]);
    assert_eq!(i16x16::from(a), w);
    let u = u8x16::splat(200);
    assert_eq!(i16x16::from(u).to_array(), [200; 16]);
    let h = u16x8::new([0, 1, 65535, 4, 5, 6, 7, 8]);
    assert_eq!(wide::i32x8::from_u16x8(h).to_array()[..3], [0, 1, 65535]);
    let g = i16x8::new([-32768, 1, 32767, 4, 5, 6, 7, 8]);
    assert_eq!(wide::i32x8::from_i16x8(g).to_array()[..3], [-32768, 1, 32767]);
    assert_eq!(wide::i32x8::from(g), wide::i32x8::from_i16x8(g));
}
