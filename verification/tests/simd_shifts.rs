use wide::{i16x8, i32x4, u32x4, u64x2, u8x16};

#[test]
fn vector_shifts_use_each_lane_amount() {
    let a = u32x4::new([1, 1, 0x8000_0000, 0xf0]);
    let s = u32x4::new([0, 31, 1, 36]);
    assert_eq!((a << s).to_array(), [1, 0x8000_0000, 0, 0xf00]);
    assert_eq!((a >> s).to_array(), [1, 0, 0x4000_0000, 0xf]);
    let n = i32x4::new([-16, 16, -1, i32::MIN]);
    let t = u32x4::new([2, 2, 40, 31]);
    assert_eq!((n >> t).to_array(), [-4, 4, -1, -1]);
    assert_eq!((n << t).to_array(), [-64, 64, -256, 0]);
}

#[test]
fn unbounded_shifts_shift_everything_out() {
    let a = u32x4::new([1, 2, 3, 4]);
    let s = u32x4::new([1, 32, 33, 0]);
    assert_eq!(a.unbounded_shl(s).to_array(), [2, 0, 0, 4]);
    assert_eq!(a.unbounded_shr(s).to_array(), [0, 0, 0, 4]);
    let n = i16x8::new([-8, 8, -8, 8, 1, 1, 1, 1]);
    let t = wide::u16x8::new([1, 1, 16, 16, 0, 15, 100, 3]);
    assert_eq!(n.unbounded_shr(t).to_array(), [-4, 4, -1, 0, 1, 0, 0, 0]);
    assert_eq!(n.unbounded_shl(t).to_array(), [-16, 16, 0, 0, 1, i16::MIN, 0, 8]);
}

#[test]
fn unbounded_scalar_shifts() {
    let a = u64x2::new([u64::MAX, 5]);
    assert_eq!(a.unbounded_shl_scalar(4).to_array(), [u64::MAX << 4, 80]);
    assert_eq!(a.unbounded_shl_scalar(64).to_array(), [0, 0]);
    assert_eq!(a.unbounded_shr_scalar(64).to_array(), [0, 0]);
    let s = i32x4::new([-5, 5, i32::MIN, -1]);
    assert_eq!(s.unbounded_shr_scalar(1).to_array(), [-3, 2, i32::MIN / 2, -1]);
    assert_eq!(s.unbounded_shr_scalar(32).to_array(), [-1, 0, -1, -1]);
    assert_eq!(s.unbounded_shr_scalar(1000).to_array(), [-1, 0, -1, -1]);
    let b = u8x16::splat(0x81);
    assert_eq!(b.unbounded_shl_scalar(7).to_array(), [0x80; 16]);
    assert_eq!(b.unbounded_shl_scalar(8).to_array(), [0; 16]);
}
