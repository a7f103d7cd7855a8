//! Multiplication that keeps more than the low half of each product:
//! widening multiplication, the high half, and overflow detection.

use vstd::prelude::*;

use crate::element::{SimdElement, mask_lane, wrapped, lane_of, lemma_lane_of};
use crate::simd::{Simd, lemma_is_from_lanes};
use crate::ops::wrapping_product;

verus! {

broadcast use crate::simd::lemma_simd_len;

/// The full product of two `i8` lanes, split into its low half (as `u8`)
/// and its high half (as `i8`).
fn mul_halves_i8(a: i8, b: i8) -> (r: (u8, i8))
    ensures
        r.0 as int == (a * b) % 0x100,
        r.1 as int == (a * b) / 0x100,
{
    let x = a as i16;
    let y = b as i16;
    proof {
        assert(-0x80 * 0x7f <= x * y <= -0x80 * -0x80 + 0x7f * 0x7f) by (nonlinear_arith)
            requires
                -0x80 <= x <= 0x7f,
                -0x80 <= y <= 0x7f,
        ;
    }
    let p = x * y;
    proof {
        vstd::arithmetic::div_mod::lemma_mod_bound(p as int, 0x100);
        assert((p as int) / 0x100 * 0x100 <= p as int) by {
            vstd::arithmetic::div_mod::lemma_fundamental_div_mod(p as int, 0x100);
        }
    }
    (p.checked_rem_euclid(0x100).unwrap() as u8, p.checked_div_euclid(0x100).unwrap() as i8)
}

impl<const N: usize> Simd<i8, N> {
    /// Multiplies lane by lane, keeping both halves of each double-width
    /// product: the low half (as unsigned lanes) and the high half.
    pub fn mul_keep_low_high(self, rhs: Self) -> (r: (Simd<u8, N>, Self))
        ensures
            forall|i: int| 0 <= i < N ==> (#[trigger] r.0@[i]) as int == (self@[i] * rhs@[i]) % 0x100,
            forall|i: int| 0 <= i < N ==> (#[trigger] r.1@[i]) as int == (self@[i] * rhs@[i]) / 0x100,
    {
        let a = self.to_array();
        let b = rhs.to_array();
        let mut low = [0u8; N];
        let mut high = a;
        for i in 0..N
            invariant
                a@ == self@,
                b@ == rhs@,
                forall|j: int| 0 <= j < i ==> (#[trigger] low@[j]) as int == (a@[j] * b@[j]) % 0x100,
                forall|j: int| 0 <= j < i ==> (#[trigger] high@[j]) as int == (a@[j] * b@[j]) / 0x100,
        {
            let (l, h) = mul_halves_i8(a[i], b[i]);
            low[i] = l;
            high[i] = h;
        }
        (Simd::new(low), Simd::new(high))
    }

    /// Multiplies lane by lane, keeping the high half of each double-width
    /// product.
    pub fn mul_keep_high(self, rhs: Self) -> (r: Self)
        ensures
            forall|i: int| 0 <= i < N ==> (#[trigger] r@[i]) as int == (self@[i] * rhs@[i]) / 0x100,
    {
        self.mul_keep_low_high(rhs).1
    }

    /// Wrapping multiplication that also reports, as a mask, the lanes whose
    /// product does not fit in the lane type.
    pub fn overflowing_mul(self, rhs: Self) -> (r: (Self, Self))
        ensures
            r.0 == wrapping_product(self, rhs),
            forall|i: int| 0 <= i < N ==> (#[trigger] r.0@[i]) as int == wrapped::<i8>(self@[i] * rhs@[i]),
            forall|i: int|
                0 <= i < N ==> #[trigger] r.1@[i] == mask_lane::<i8>(
                    self@[i] * rhs@[i] < -0x80 || self@[i] * rhs@[i] > 0x7f,
                ),
    {
        let a = self.to_array();
        let b = rhs.to_array();
        let mut low = a;
        let mut overflow = a;
        for i in 0..N
            invariant
                a@ == self@,
                b@ == rhs@,
                forall|j: int| 0 <= j < i ==> (#[trigger] low@[j]) as int == wrapped::<i8>(a@[j] * b@[j]),
                forall|j: int|
                    0 <= j < i ==> #[trigger] overflow@[j] == mask_lane::<i8>(
                        a@[j] * b@[j] < -0x80 || a@[j] * b@[j] > 0x7f,
                    ),
        {
            let x = a[i];
            let y = b[i];
            let (l, h) = mul_halves_i8(x, y);
            let wrapped_product = x.lane_mul(y);
            let fits = if l > 0x7f as u8 { h == -1 } else { h == 0 };
            proof {
                vstd::arithmetic::div_mod::lemma_fundamental_div_mod(x * y, 0x100);
            }
            low[i] = wrapped_product;
            overflow[i] = if fits { 0 } else { -1 };
        }
        let product = Simd::new(low);
        proof {
            let s = Seq::new(N as nat, |i: int| lane_of::<i8>(self@[i].value() * rhs@[i].value()));
            assert forall|i: int| 0 <= i < N implies #[trigger] product@[i] == s[i] by {
                lemma_lane_of::<i8>(self@[i].value() * rhs@[i].value());
            }
            assert(product@ =~= s);
            lemma_is_from_lanes(product, s);
        }
        (product, Simd::new(overflow))
    }
}

impl<const N: usize> Simd<i8, N> {
    /// Widening multiplication: the exact product of each pair of lanes, in
    /// lanes of twice the width. It can never overflow.
    pub fn widening_mul(self, rhs: Self) -> (r: Simd<i16, N>)
        ensures
            forall|i: int| 0 <= i < N ==> (#[trigger] r@[i]) as int == self@[i] * rhs@[i],
    {
        let a = self.to_array();
        let b = rhs.to_array();
        let mut out = [0i16; N];
        for i in 0..N
            invariant
                a@ == self@,
                b@ == rhs@,
                forall|j: int| 0 <= j < i ==> (#[trigger] out@[j]) as int == a@[j] * b@[j],
        {
            let x = a[i] as i16;
            let y = b[i] as i16;
            proof {
                assert(-0x80 * 0x7f <= x * y <= -0x80 * -0x80 + 0x7f * 0x7f) by (nonlinear_arith)
                    requires
                        -0x80 <= x <= 0x7f,
                        -0x80 <= y <= 0x7f,
                ;
            }
            out[i] = x * y;
        }
        Simd::new(out)
    }
}

/// The full product of two `i16` lanes, split into its low half (as `u16`)
/// and its high half (as `i16`).
fn mul_halves_i16(a: i16, b: i16) -> (r: (u16, i16))
    ensures
        r.0 as int == (a * b) % 0x1_0000,
        r.1 as int == (a * b) / 0x1_0000,
{
    let x = a as i32;
    let y = b as i32;
    proof {
        assert(-0x8000 * 0x7fff <= x * y <= -0x8000 * -0x8000 + 0x7fff * 0x7fff) by (nonlinear_arith)
            requires
                -0x8000 <= x <= 0x7fff,
                -0x8000 <= y <= 0x7fff,
        ;
    }
    let p = x * y;
    proof {
        vstd::arithmetic::div_mod::lemma_mod_bound(p as int, 0x1_0000);
        assert((p as int) / 0x1_0000 * 0x1_0000 <= p as int) by {
            vstd::arithmetic::div_mod::lemma_fundamental_div_mod(p as int, 0x1_0000);
        }
    }
    (p.checked_rem_euclid(0x1_0000).unwrap() as u16, p.checked_div_euclid(0x1_0000).unwrap() as i16)
}

impl<const N: usize> Simd<i16, N> {
    /// Multiplies lane by lane, keeping both halves of each double-width
    /// product: the low half (as unsigned lanes) and the high half.
    pub fn mul_keep_low_high(self, rhs: Self) -> (r: (Simd<u16, N>, Self))
        ensures
            forall|i: int| 0 <= i < N ==> (#[trigger] r.0@[i]) as int == (self@[i] * rhs@[i]) % 0x1_0000,
            forall|i: int| 0 <= i < N ==> (#[trigger] r.1@[i]) as int == (self@[i] * rhs@[i]) / 0x1_0000,
    {
        let a = self.to_array();
        let b = rhs.to_array();
        let mut low = [0u16; N];
        let mut high = a;
        for i in 0..N
            invariant
                a@ == self@,
                b@ == rhs@,
                forall|j: int| 0 <= j < i ==> (#[trigger] low@[j]) as int == (a@[j] * b@[j]) % 0x1_0000,
                forall|j: int| 0 <= j < i ==> (#[trigger] high@[j]) as int == (a@[j] * b@[j]) / 0x1_0000,
        {
            let (l, h) = mul_halves_i16(a[i], b[i]);
            low[i] = l;
            high[i] = h;
        }
        (Simd::new(low), Simd::new(high))
    }

    /// Multiplies lane by lane, keeping the high half of each double-width
    /// product.
    pub fn mul_keep_high(self, rhs: Self) -> (r: Self)
        ensures
            forall|i: int| 0 <= i < N ==> (#[trigger] r@[i]) as int == (self@[i] * rhs@[i]) / 0x1_0000,
    {
        self.mul_keep_low_high(rhs).1
    }

    /// Wrapping multiplication that also reports, as a mask, the lanes whose
    /// product does not fit in the lane type.
    pub fn overflowing_mul(self, rhs: Self) -> (r: (Self, Self))
        ensures
            r.0 == wrapping_product(self, rhs),
            forall|i: int| 0 <= i < N ==> (#[trigger] r.0@[i]) as int == wrapped::<i16>(self@[i] * rhs@[i]),
            forall|i: int|
                0 <= i < N ==> #[trigger] r.1@[i] == mask_lane::<i16>(
                    self@[i] * rhs@[i] < -0x8000 || self@[i] * rhs@[i] > 0x7fff,
                ),
    {
        let a = self.to_array();
        let b = rhs.to_array();
        let mut low = a;
        let mut overflow = a;
        for i in 0..N
            invariant
                a@ == self@,
                b@ == rhs@,
                forall|j: int| 0 <= j < i ==> (#[trigger] low@[j]) as int == wrapped::<i16>(a@[j] * b@[j]),
                forall|j: int|
                    0 <= j < i ==> #[trigger] overflow@[j] == mask_lane::<i16>(
                        a@[j] * b@[j] < -0x8000 || a@[j] * b@[j] > 0x7fff,
                    ),
        {
            let x = a[i];
            let y = b[i];
            let (l, h) = mul_halves_i16(x, y);
            let wrapped_product = x.lane_mul(y);
            let fits = if l > 0x7fff as u16 { h == -1 } else { h == 0 };
            proof {
                vstd::arithmetic::div_mod::lemma_fundamental_div_mod(x * y, 0x1_0000);
            }
            low[i] = wrapped_product;
            overflow[i] = if fits { 0 } else { -1 };
        }
        let product = Simd::new(low);
        proof {
            let s = Seq::new(N as nat, |i: int| lane_of::<i16>(self@[i].value() * rhs@[i].value()));
            assert forall|i: int| 0 <= i < N implies #[trigger] product@[i] == s[i] by {
                lemma_lane_of::<i16>(self@[i].value() * rhs@[i].value());
            }
            assert(product@ =~= s);
            lemma_is_from_lanes(product, s);
        }
        (product, Simd::new(overflow))
    }
}

impl<const N: usize> Simd<i16, N> {
    /// Widening multiplication: the exact product of each pair of lanes, in
    /// lanes of twice the width. It can never overflow.
    pub fn widening_mul(self, rhs: Self) -> (r: Simd<i32, N>)
        ensures
            forall|i: int| 0 <= i < N ==> (#[trigger] r@[i]) as int == self@[i] * rhs@[i],
    {
        let a = self.to_array();
        let b = rhs.to_array();
        let mut out = [0i32; N];
        for i in 0..N
            invariant
                a@ == self@,
                b@ == rhs@,
                forall|j: int| 0 <= j < i ==> (#[trigger] out@[j]) as int == a@[j] * b@[j],
        {
            let x = a[i] as i32;
            let y = b[i] as i32;
            proof {
                assert(-0x8000 * 0x7fff <= x * y <= -0x8000 * -0x8000 + 0x7fff * 0x7fff) by (nonlinear_arith)
                    requires
                        -0x8000 <= x <= 0x7fff,
                        -0x8000 <= y <= 0x7fff,
                ;
            }
            out[i] = x * y;
        }
        Simd::new(out)
    }
}

/// The full product of two `i32` lanes, split into its low half (as `u32`)
/// and its high half (as `i32`).
fn mul_halves_i32(a: i32, b: i32) -> (r: (u32, i32))
    ensures
        r.0 as int == (a * b) % 0x1_0000_0000,
        r.1 as int == (a * b) / 0x1_0000_0000,
{
    let x = a as i64;
    let y = b as i64;
    proof {
        assert(-0x8000_0000 * 0x7fff_ffff <= x * y <= -0x8000_0000 * -0x8000_0000 + 0x7fff_ffff * 0x7fff_ffff) by (nonlinear_arith)
            requires
                -0x8000_0000 <= x <= 0x7fff_ffff,
                -0x8000_0000 <= y <= 0x7fff_ffff,
        ;
    }
    let p = x * y;
    proof {
        vstd::arithmetic::div_mod::lemma_mod_bound(p as int, 0x1_0000_0000);
        assert((p as int) / 0x1_0000_0000 * 0x1_0000_0000 <= p as int) by {
            vstd::arithmetic::div_mod::lemma_fundamental_div_mod(p as int, 0x1_0000_0000);
        }
    }
    (p.checked_rem_euclid(0x1_0000_0000).unwrap() as u32, p.checked_div_euclid(0x1_0000_0000).unwrap() as i32)
}

impl<const N: usize> Simd<i32, N> {
    /// Multiplies lane by lane, keeping both halves of each double-width
    /// product: the low half (as unsigned lanes) and the high half.
    pub fn mul_keep_low_high(self, rhs: Self) -> (r: (Simd<u32, N>, Self))
        ensures
            forall|i: int| 0 <= i < N ==> (#[trigger] r.0@[i]) as int == (self@[i] * rhs@[i]) % 0x1_0000_0000,
            forall|i: int| 0 <= i < N ==> (#[trigger] r.1@[i]) as int == (self@[i] * rhs@[i]) / 0x1_0000_0000,
    {
        let a = self.to_array();
        let b = rhs.to_array();
        let mut low = [0u32; N];
        let mut high = a;
        for i in 0..N
            invariant
                a@ == self@,
                b@ == rhs@,
                forall|j: int| 0 <= j < i ==> (#[trigger] low@[j]) as int == (a@[j] * b@[j]) % 0x1_0000_0000,
                forall|j: int| 0 <= j < i ==> (#[trigger] high@[j]) as int == (a@[j] * b@[j]) / 0x1_0000_0000,
        {
            let (l, h) = mul_halves_i32(a[i], b[i]);
            low[i] = l;
            high[i] = h;
        }
        (Simd::new(low), Simd::new(high))
    }

    /// Multiplies lane by lane, keeping the high half of each double-width
    /// product.
    pub fn mul_keep_high(self, rhs: Self) -> (r: Self)
        ensures
            forall|i: int| 0 <= i < N ==> (#[trigger] r@[i]) as int == (self@[i] * rhs@[i]) / 0x1_0000_0000,
    {
        self.mul_keep_low_high(rhs).1
    }

    /// Wrapping multiplication that also reports, as a mask, the lanes whose
    /// product does not fit in the lane type.
    pub fn overflowing_mul(self, rhs: Self) -> (r: (Self, Self))
        ensures
            r.0 == wrapping_product(self, rhs),
            forall|i: int| 0 <= i < N ==> (#[trigger] r.0@[i]) as int == wrapped::<i32>(self@[i] * rhs@[i]),
            forall|i: int|
                0 <= i < N ==> #[trigger] r.1@[i] == mask_lane::<i32>(
                    self@[i] * rhs@[i] < -0x8000_0000 || self@[i] * rhs@[i] > 0x7fff_ffff,
                ),
    {
        let a = self.to_array();
        let b = rhs.to_array();
        let mut low = a;
        let mut overflow = a;
        for i in 0..N
            invariant
                a@ == self@,
                b@ == rhs@,
                forall|j: int| 0 <= j < i ==> (#[trigger] low@[j]) as int == wrapped::<i32>(a@[j] * b@[j]),
                forall|j: int|
                    0 <= j < i ==> #[trigger] overflow@[j] == mask_lane::<i32>(
                        a@[j] * b@[j] < -0x8000_0000 || a@[j] * b@[j] > 0x7fff_ffff,
                    ),
        {
            let x = a[i];
            let y = b[i];
            let (l, h) = mul_halves_i32(x, y);
            let wrapped_product = x.lane_mul(y);
            let fits = if l > 0x7fff_ffff as u32 { h == -1 } else { h == 0 };
            proof {
                vstd::arithmetic::div_mod::lemma_fundamental_div_mod(x * y, 0x1_0000_0000);
            }
            low[i] = wrapped_product;
            overflow[i] = if fits { 0 } else { -1 };
        }
        let product = Simd::new(low);
        proof {
            let s = Seq::new(N as nat, |i: int| lane_of::<i32>(self@[i].value() * rhs@[i].value()));
            assert forall|i: int| 0 <= i < N implies #[trigger] product@[i] == s[i] by {
                lemma_lane_of::<i32>(self@[i].value() * rhs@[i].value());
            }
            assert(product@ =~= s);
            lemma_is_from_lanes(product, s);
        }
        (product, Simd::new(overflow))
    }
}

impl<const N: usize> Simd<i32, N> {
    /// Widening multiplication: the exact product of each pair of lanes, in
    /// lanes of twice the width. It can never overflow.
    pub fn widening_mul(self, rhs: Self) -> (r: Simd<i64, N>)
        ensures
            forall|i: int| 0 <= i < N ==> (#[trigger] r@[i]) as int == self@[i] * rhs@[i],
    {
        let a = self.to_array();
        let b = rhs.to_array();
        let mut out = [0i64; N];
        for i in 0..N
            invariant
                a@ == self@,
                b@ == rhs@,
                forall|j: int| 0 <= j < i ==> (#[trigger] out@[j]) as int == a@[j] * b@[j],
        {
            let x = a[i] as i64;
            let y = b[i] as i64;
            proof {
                assert(-0x8000_0000 * 0x7fff_ffff <= x * y <= -0x8000_0000 * -0x8000_0000 + 0x7fff_ffff * 0x7fff_ffff) by (nonlinear_arith)
                    requires
                        -0x8000_0000 <= x <= 0x7fff_ffff,
                        -0x8000_0000 <= y <= 0x7fff_ffff,
                ;
            }
            out[i] = x * y;
        }
        Simd::new(out)
    }
}

/// The full product of two `i64` lanes, split into its low half (as `u64`)
/// and its high half (as `i64`).
fn mul_halves_i64(a: i64, b: i64) -> (r: (u64, i64))
    ensures
        r.0 as int == (a * b) % 0x1_0000_0000_0000_0000,
        r.1 as int == (a * b) / 0x1_0000_0000_0000_0000,
{
    let x = a as i128;
    let y = b as i128;
    proof {
        assert(-0x8000_0000_0000_0000 * 0x7fff_ffff_ffff_ffff <= x * y <= -0x8000_0000_0000_0000 * -0x8000_0000_0000_0000 + 0x7fff_ffff_ffff_ffff * 0x7fff_ffff_ffff_ffff) by (nonlinear_arith)
            requires
                -0x8000_0000_0000_0000 <= x <= 0x7fff_ffff_ffff_ffff,
                -0x8000_0000_0000_0000 <= y <= 0x7fff_ffff_ffff_ffff,
        ;
    }
    let p = x * y;
    proof {
        vstd::arithmetic::div_mod::lemma_mod_bound(p as int, 0x1_0000_0000_0000_0000);
        assert((p as int) / 0x1_0000_0000_0000_0000 * 0x1_0000_0000_0000_0000 <= p as int) by {
            vstd::arithmetic::div_mod::lemma_fundamental_div_mod(p as int, 0x1_0000_0000_0000_0000);
        }
    }
    (p.checked_rem_euclid(0x1_0000_0000_0000_0000).unwrap() as u64, p.checked_div_euclid(0x1_0000_0000_0000_0000).unwrap() as i64)
}

impl<const N: usize> Simd<i64, N> {
    /// Multiplies lane by lane, keeping both halves of each double-width
    /// product: the low half (as unsigned lanes) and the high half.
    pub fn mul_keep_low_high(self, rhs: Self) -> (r: (Simd<u64, N>, Self))
        ensures
            forall|i: int| 0 <= i < N ==> (#[trigger] r.0@[i]) as int == (self@[i] * rhs@[i]) % 0x1_0000_0000_0000_0000,
            forall|i: int| 0 <= i < N ==> (#[trigger] r.1@[i]) as int == (self@[i] * rhs@[i]) / 0x1_0000_0000_0000_0000,
    {
        let a = self.to_array();
        let b = rhs.to_array();
        let mut low = [0u64; N];
        let mut high = a;
        for i in 0..N
            invariant
                a@ == self@,
                b@ == rhs@,
                forall|j: int| 0 <= j < i ==> (#[trigger] low@[j]) as int == (a@[j] * b@[j]) % 0x1_0000_0000_0000_0000,
                forall|j: int| 0 <= j < i ==> (#[trigger] high@[j]) as int == (a@[j] * b@[j]) / 0x1_0000_0000_0000_0000,
        {
            let (l, h) = mul_halves_i64(a[i], b[i]);
            low[i] = l;
            high[i] = h;
        }
        (Simd::new(low), Simd::new(high))
    }

    /// Multiplies lane by lane, keeping the high half of each double-width
    /// product.
    pub fn mul_keep_high(self, rhs: Self) -> (r: Self)
        ensures
            forall|i: int| 0 <= i < N ==> (#[trigger] r@[i]) as int == (self@[i] * rhs@[i]) / 0x1_0000_0000_0000_0000,
    {
        self.mul_keep_low_high(rhs).1
    }

    /// Wrapping multiplication that also reports, as a mask, the lanes whose
    /// product does not fit in the lane type.
    pub fn overflowing_mul(self, rhs: Self) -> (r: (Self, Self))
        ensures
            r.0 == wrapping_product(self, rhs),
            forall|i: int| 0 <= i < N ==> (#[trigger] r.0@[i]) as int == wrapped::<i64>(self@[i] * rhs@[i]),
            forall|i: int|
                0 <= i < N ==> #[trigger] r.1@[i] == mask_lane::<i64>(
                    self@[i] * rhs@[i] < -0x8000_0000_0000_0000 || self@[i] * rhs@[i] > 0x7fff_ffff_ffff_ffff,
                ),
    {
        let a = self.to_array();
        let b = rhs.to_array();
        let mut low = a;
        let mut overflow = a;
        for i in 0..N
            invariant
                a@ == self@,
                b@ == rhs@,
                forall|j: int| 0 <= j < i ==> (#[trigger] low@[j]) as int == wrapped::<i64>(a@[j] * b@[j]),
                forall|j: int|
                    0 <= j < i ==> #[trigger] overflow@[j] == mask_lane::<i64>(
                        a@[j] * b@[j] < -0x8000_0000_0000_0000 || a@[j] * b@[j] > 0x7fff_ffff_ffff_ffff,
                    ),
        {
            let x = a[i];
            let y = b[i];
            let (l, h) = mul_halves_i64(x, y);
            let wrapped_product = x.lane_mul(y);
            let fits = if l > 0x7fff_ffff_ffff_ffff as u64 { h == -1 } else { h == 0 };
            proof {
                vstd::arithmetic::div_mod::lemma_fundamental_div_mod(x * y, 0x1_0000_0000_0000_0000);
            }
            low[i] = wrapped_product;
            overflow[i] = if fits { 0 } else { -1 };
        }
        let product = Simd::new(low);
        proof {
            let s = Seq::new(N as nat, |i: int| lane_of::<i64>(self@[i].value() * rhs@[i].value()));
            assert forall|i: int| 0 <= i < N implies #[trigger] product@[i] == s[i] by {
                lemma_lane_of::<i64>(self@[i].value() * rhs@[i].value());
            }
            assert(product@ =~= s);
            lemma_is_from_lanes(product, s);
        }
        (product, Simd::new(overflow))
    }
}

/// The full product of two `u8` lanes, split into its low half (as `u8`)
/// and its high half (as `u8`).
fn mul_halves_u8(a: u8, b: u8) -> (r: (u8, u8))
    ensures
        r.0 as int == (a * b) % 0x100,
        r.1 as int == (a * b) / 0x100,
{
    let x = a as u16;
    let y = b as u16;
    proof {
        assert(0 * 0xff <= x * y <= 0 * 0 + 0xff * 0xff) by (nonlinear_arith)
            requires
                0 <= x <= 0xff,
                0 <= y <= 0xff,
        ;
    }
    let p = x * y;
    proof {
        vstd::arithmetic::div_mod::lemma_mod_bound(p as int, 0x100);
        assert((p as int) / 0x100 * 0x100 <= p as int) by {
            vstd::arithmetic::div_mod::lemma_fundamental_div_mod(p as int, 0x100);
        }
    }
    ((p % 0x100) as u8, (p / 0x100) as u8)
}

impl<const N: usize> Simd<u8, N> {
    /// Multiplies lane by lane, keeping both halves of each double-width
    /// product: the low half (as unsigned lanes) and the high half.
    pub fn mul_keep_low_high(self, rhs: Self) -> (r: (Simd<u8, N>, Self))
        ensures
            forall|i: int| 0 <= i < N ==> (#[trigger] r.0@[i]) as int == (self@[i] * rhs@[i]) % 0x100,
            forall|i: int| 0 <= i < N ==> (#[trigger] r.1@[i]) as int == (self@[i] * rhs@[i]) / 0x100,
    {
        let a = self.to_array();
        let b = rhs.to_array();
        let mut low = [0u8; N];
        let mut high = a;
        for i in 0..N
            invariant
                a@ == self@,
                b@ == rhs@,
                forall|j: int| 0 <= j < i ==> (#[trigger] low@[j]) as int == (a@[j] * b@[j]) % 0x100,
                forall|j: int| 0 <= j < i ==> (#[trigger] high@[j]) as int == (a@[j] * b@[j]) / 0x100,
        {
            let (l, h) = mul_halves_u8(a[i], b[i]);
            low[i] = l;
            high[i] = h;
        }
        (Simd::new(low), Simd::new(high))
    }

    /// Multiplies lane by lane, keeping the high half of each double-width
    /// product.
    pub fn mul_keep_high(self, rhs: Self) -> (r: Self)
        ensures
            forall|i: int| 0 <= i < N ==> (#[trigger] r@[i]) as int == (self@[i] * rhs@[i]) / 0x100,
    {
        self.mul_keep_low_high(rhs).1
    }

    /// Wrapping multiplication that also reports, as a mask, the lanes whose
    /// product does not fit in the lane type.
    pub fn overflowing_mul(self, rhs: Self) -> (r: (Self, Self))
        ensures
            r.0 == wrapping_product(self, rhs),
            forall|i: int| 0 <= i < N ==> (#[trigger] r.0@[i]) as int == wrapped::<u8>(self@[i] * rhs@[i]),
            forall|i: int|
                0 <= i < N ==> #[trigger] r.1@[i] == mask_lane::<u8>(
                    self@[i] * rhs@[i] < 0 || self@[i] * rhs@[i] > 0xff,
                ),
    {
        let a = self.to_array();
        let b = rhs.to_array();
        let mut low = a;
        let mut overflow = a;
        for i in 0..N
            invariant
                a@ == self@,
                b@ == rhs@,
                forall|j: int| 0 <= j < i ==> (#[trigger] low@[j]) as int == wrapped::<u8>(a@[j] * b@[j]),
                forall|j: int|
                    0 <= j < i ==> #[trigger] overflow@[j] == mask_lane::<u8>(
                        a@[j] * b@[j] < 0 || a@[j] * b@[j] > 0xff,
                    ),
        {
            let x = a[i];
            let y = b[i];
            let (l, h) = mul_halves_u8(x, y);
            let wrapped_product = x.lane_mul(y);
            let fits = h == 0;
            proof {
                vstd::arithmetic::div_mod::lemma_fundamental_div_mod(x * y, 0x100);
            }
            low[i] = wrapped_product;
            overflow[i] = if fits { 0 } else { u8::MAX };
        }
        let product = Simd::new(low);
        proof {
            let s = Seq::new(N as nat, |i: int| lane_of::<u8>(self@[i].value() * rhs@[i].value()));
            assert forall|i: int| 0 <= i < N implies #[trigger] product@[i] == s[i] by {
                lemma_lane_of::<u8>(self@[i].value() * rhs@[i].value());
            }
            assert(product@ =~= s);
            lemma_is_from_lanes(product, s);
        }
        (product, Simd::new(overflow))
    }
}

impl<const N: usize> Simd<u8, N> {
    /// Widening multiplication: the exact product of each pair of lanes, in
    /// lanes of twice the width. It can never overflow.
    pub fn widening_mul(self, rhs: Self) -> (r: Simd<u16, N>)
        ensures
            forall|i: int| 0 <= i < N ==> (#[trigger] r@[i]) as int == self@[i] * rhs@[i],
    {
        let a = self.to_array();
        let b = rhs.to_array();
        let mut out = [0u16; N];
        for i in 0..N
            invariant
                a@ == self@,
                b@ == rhs@,
                forall|j: int| 0 <= j < i ==> (#[trigger] out@[j]) as int == a@[j] * b@[j],
        {
            let x = a[i] as u16;
            let y = b[i] as u16;
            proof {
                assert(0 * 0xff <= x * y <= 0 * 0 + 0xff * 0xff) by (nonlinear_arith)
                    requires
                        0 <= x <= 0xff,
                        0 <= y <= 0xff,
                ;
            }
            out[i] = x * y;
        }
        Simd::new(out)
    }
}

/// The full product of two `u16` lanes, split into its low half (as `u16`)
/// and its high half (as `u16`).
fn mul_halves_u16(a: u16, b: u16) -> (r: (u16, u16))
    ensures
        r.0 as int == (a * b) % 0x1_0000,
        r.1 as int == (a * b) / 0x1_0000,
{
    let x = a as u32;
    let y = b as u32;
    proof {
        assert(0 * 0xffff <= x * y <= 0 * 0 + 0xffff * 0xffff) by (nonlinear_arith)
            requires
                0 <= x <= 0xffff,
                0 <= y <= 0xffff,
        ;
    }
    let p = x * y;
    proof {
        vstd::arithmetic::div_mod::lemma_mod_bound(p as int, 0x1_0000);
        assert((p as int) / 0x1_0000 * 0x1_0000 <= p as int) by {
            vstd::arithmetic::div_mod::lemma_fundamental_div_mod(p as int, 0x1_0000);
        }
    }
    ((p % 0x1_0000) as u16, (p / 0x1_0000) as u16)
}

impl<const N: usize> Simd<u16, N> {
    /// Multiplies lane by lane, keeping both halves of each double-width
    /// product: the low half (as unsigned lanes) and the high half.
    pub fn mul_keep_low_high(self, rhs: Self) -> (r: (Simd<u16, N>, Self))
        ensures
            forall|i: int| 0 <= i < N ==> (#[trigger] r.0@[i]) as int == (self@[i] * rhs@[i]) % 0x1_0000,
            forall|i: int| 0 <= i < N ==> (#[trigger] r.1@[i]) as int == (self@[i] * rhs@[i]) / 0x1_0000,
    {
        let a = self.to_array();
        let b = rhs.to_array();
        let mut low = [0u16; N];
        let mut high = a;
        for i in 0..N
            invariant
                a@ == self@,
                b@ == rhs@,
                forall|j: int| 0 <= j < i ==> (#[trigger] low@[j]) as int == (a@[j] * b@[j]) % 0x1_0000,
                forall|j: int| 0 <= j < i ==> (#[trigger] high@[j]) as int == (a@[j] * b@[j]) / 0x1_0000,
        {
            let (l, h) = mul_halves_u16(a[i], b[i]);
            low[i] = l;
            high[i] = h;
        }
        (Simd::new(low), Simd::new(high))
    }

    /// Multiplies lane by lane, keeping the high half of each double-width
    /// product.
    pub fn mul_keep_high(self, rhs: Self) -> (r: Self)
        ensures
            forall|i: int| 0 <= i < N ==> (#[trigger] r@[i]) as int == (self@[i] * rhs@[i]) / 0x1_0000,
    {
        self.mul_keep_low_high(rhs).1
    }

    /// Wrapping multiplication that also reports, as a mask, the lanes whose
    /// product does not fit in the lane type.
    pub fn overflowing_mul(self, rhs: Self) -> (r: (Self, Self))
        ensures
            r.0 == wrapping_product(self, rhs),
            forall|i: int| 0 <= i < N ==> (#[trigger] r.0@[i]) as int == wrapped::<u16>(self@[i] * rhs@[i]),
            forall|i: int|
                0 <= i < N ==> #[trigger] r.1@[i] == mask_lane::<u16>(
                    self@[i] * rhs@[i] < 0 || self@[i] * rhs@[i] > 0xffff,
                ),
    {
        let a = self.to_array();
        let b = rhs.to_array();
        let mut low = a;
        let mut overflow = a;
        for i in 0..N
            invariant
                a@ == self@,
                b@ == rhs@,
                forall|j: int| 0 <= j < i ==> (#[trigger] low@[j]) as int == wrapped::<u16>(a@[j] * b@[j]),
                forall|j: int|
                    0 <= j < i ==> #[trigger] overflow@[j] == mask_lane::<u16>(
                        a@[j] * b@[j] < 0 || a@[j] * b@[j] > 0xffff,
                    ),
        {
            let x = a[i];
            let y = b[i];
            let (l, h) = mul_halves_u16(x, y);
            let wrapped_product = x.lane_mul(y);
            let fits = h == 0;
            proof {
                vstd::arithmetic::div_mod::lemma_fundamental_div_mod(x * y, 0x1_0000);
            }
            low[i] = wrapped_product;
            overflow[i] = if fits { 0 } else { u16::MAX };
        }
        let product = Simd::new(low);
        proof {
            let s = Seq::new(N as nat, |i: int| lane_of::<u16>(self@[i].value() * rhs@[i].value()));
            assert forall|i: int| 0 <= i < N implies #[trigger] product@[i] == s[i] by {
                lemma_lane_of::<u16>(self@[i].value() * rhs@[i].value());
            }
            assert(product@ =~= s);
            lemma_is_from_lanes(product, s);
        }
        (product, Simd::new(overflow))
    }
}

impl<const N: usize> Simd<u16, N> {
    /// Widening multiplication: the exact product of each pair of lanes, in
    /// lanes of twice the width. It can never overflow.
    pub fn widening_mul(self, rhs: Self) -> (r: Simd<u32, N>)
        ensures
            forall|i: int| 0 <= i < N ==> (#[trigger] r@[i]) as int == self@[i] * rhs@[i],
    {
        let a = self.to_array();
        let b = rhs.to_array();
        let mut out = [0u32; N];
        for i in 0..N
            invariant
                a@ == self@,
                b@ == rhs@,
                forall|j: int| 0 <= j < i ==> (#[trigger] out@[j]) as int == a@[j] * b@[j],
        {
            let x = a[i] as u32;
            let y = b[i] as u32;
            proof {
                assert(0 * 0xffff <= x * y <= 0 * 0 + 0xffff * 0xffff) by (nonlinear_arith)
                    requires
                        0 <= x <= 0xffff,
                        0 <= y <= 0xffff,
                ;
            }
            out[i] = x * y;
        }
        Simd::new(out)
    }
}

/// The full product of two `u32` lanes, split into its low half (as `u32`)
/// and its high half (as `u32`).
fn mul_halves_u32(a: u32, b: u32) -> (r: (u32, u32))
    ensures
        r.0 as int == (a * b) % 0x1_0000_0000,
        r.1 as int == (a * b) / 0x1_0000_0000,
{
    let x = a as u64;
    let y = b as u64;
    proof {
        assert(0 * 0xffff_ffff <= x * y <= 0 * 0 + 0xffff_ffff * 0xffff_ffff) by (nonlinear_arith)
            requires
                0 <= x <= 0xffff_ffff,
                0 <= y <= 0xffff_ffff,
        ;
    }
    let p = x * y;
    proof {
        vstd::arithmetic::div_mod::lemma_mod_bound(p as int, 0x1_0000_0000);
        assert((p as int) / 0x1_0000_0000 * 0x1_0000_0000 <= p as int) by {
            vstd::arithmetic::div_mod::lemma_fundamental_div_mod(p as int, 0x1_0000_0000);
        }
    }
    ((p % 0x1_0000_0000) as u32, (p / 0x1_0000_0000) as u32)
}

impl<const N: usize> Simd<u32, N> {
    /// Multiplies lane by lane, keeping both halves of each double-width
    /// product: the low half (as unsigned lanes) and the high half.
    pub fn mul_keep_low_high(self, rhs: Self) -> (r: (Simd<u32, N>, Self))
        ensures
            forall|i: int| 0 <= i < N ==> (#[trigger] r.0@[i]) as int == (self@[i] * rhs@[i]) % 0x1_0000_0000,
            forall|i: int| 0 <= i < N ==> (#[trigger] r.1@[i]) as int == (self@[i] * rhs@[i]) / 0x1_0000_0000,
    {
        let a = self.to_array();
        let b = rhs.to_array();
        let mut low = [0u32; N];
        let mut high = a;
        for i in 0..N
            invariant
                a@ == self@,
                b@ == rhs@,
                forall|j: int| 0 <= j < i ==> (#[trigger] low@[j]) as int == (a@[j] * b@[j]) % 0x1_0000_0000,
                forall|j: int| 0 <= j < i ==> (#[trigger] high@[j]) as int == (a@[j] * b@[j]) / 0x1_0000_0000,
        {
            let (l, h) = mul_halves_u32(a[i], b[i]);
            low[i] = l;
            high[i] = h;
        }
        (Simd::new(low), Simd::new(high))
    }

    /// Multiplies lane by lane, keeping the high half of each double-width
    /// product.
    pub fn mul_keep_high(self, rhs: Self) -> (r: Self)
        ensures
            forall|i: int| 0 <= i < N ==> (#[trigger] r@[i]) as int == (self@[i] * rhs@[i]) / 0x1_0000_0000,
    {
        self.mul_keep_low_high(rhs).1
    }

    /// Wrapping multiplication that also reports, as a mask, the lanes whose
    /// product does not fit in the lane type.
    pub fn overflowing_mul(self, rhs: Self) -> (r: (Self, Self))
        ensures
            r.0 == wrapping_product(self, rhs),
            forall|i: int| 0 <= i < N ==> (#[trigger] r.0@[i]) as int == wrapped::<u32>(self@[i] * rhs@[i]),
            forall|i: int|
                0 <= i < N ==> #[trigger] r.1@[i] == mask_lane::<u32>(
                    self@[i] * rhs@[i] < 0 || self@[i] * rhs@[i] > 0xffff_ffff,
                ),
    {
        let a = self.to_array();
        let b = rhs.to_array();
        let mut low = a;
        let mut overflow = a;
        for i in 0..N
            invariant
                a@ == self@,
                b@ == rhs@,
                forall|j: int| 0 <= j < i ==> (#[trigger] low@[j]) as int == wrapped::<u32>(a@[j] * b@[j]),
                forall|j: int|
                    0 <= j < i ==> #[trigger] overflow@[j] == mask_lane::<u32>(
                        a@[j] * b@[j] < 0 || a@[j] * b@[j] > 0xffff_ffff,
                    ),
        {
            let x = a[i];
            let y = b[i];
            let (l, h) = mul_halves_u32(x, y);
            let wrapped_product = x.lane_mul(y);
            let fits = h == 0;
            proof {
                vstd::arithmetic::div_mod::lemma_fundamental_div_mod(x * y, 0x1_0000_0000);
            }
            low[i] = wrapped_product;
            overflow[i] = if fits { 0 } else { u32::MAX };
        }
        let product = Simd::new(low);
        proof {
            let s = Seq::new(N as nat, |i: int| lane_of::<u32>(self@[i].value() * rhs@[i].value()));
            assert forall|i: int| 0 <= i < N implies #[trigger] product@[i] == s[i] by {
                lemma_lane_of::<u32>(self@[i].value() * rhs@[i].value());
            }
            assert(product@ =~= s);
            lemma_is_from_lanes(product, s);
        }
        (product, Simd::new(overflow))
    }
}

impl<const N: usize> Simd<u32, N> {
    /// Widening multiplication: the exact product of each pair of lanes, in
    /// lanes of twice the width. It can never overflow.
    pub fn widening_mul(self, rhs: Self) -> (r: Simd<u64, N>)
        ensures
            forall|i: int| 0 <= i < N ==> (#[trigger] r@[i]) as int == self@[i] * rhs@[i],
    {
        let a = self.to_array();
        let b = rhs.to_array();
        let mut out = [0u64; N];
        for i in 0..N
            invariant
                a@ == self@,
                b@ == rhs@,
                forall|j: int| 0 <= j < i ==> (#[trigger] out@[j]) as int == a@[j] * b@[j],
        {
            let x = a[i] as u64;
            let y = b[i] as u64;
            proof {
                assert(0 * 0xffff_ffff <= x * y <= 0 * 0 + 0xffff_ffff * 0xffff_ffff) by (nonlinear_arith)
                    requires
                        0 <= x <= 0xffff_ffff,
                        0 <= y <= 0xffff_ffff,
                ;
            }
            out[i] = x * y;
        }
        Simd::new(out)
    }
}

/// The full product of two `u64` lanes, split into its low half (as `u64`)
/// and its high half (as `u64`).
fn mul_halves_u64(a: u64, b: u64) -> (r: (u64, u64))
    ensures
        r.0 as int == (a * b) % 0x1_0000_0000_0000_0000,
        r.1 as int == (a * b) / 0x1_0000_0000_0000_0000,
{
    let x = a as u128;
    let y = b as u128;
    proof {
        assert(0 * 0xffff_ffff_ffff_ffff <= x * y <= 0 * 0 + 0xffff_ffff_ffff_ffff * 0xffff_ffff_ffff_ffff) by (nonlinear_arith)
            requires
                0 <= x <= 0xffff_ffff_ffff_ffff,
                0 <= y <= 0xffff_ffff_ffff_ffff,
        ;
    }
    let p = x * y;
    proof {
        vstd::arithmetic::div_mod::lemma_mod_bound(p as int, 0x1_0000_0000_0000_0000);
        assert((p as int) / 0x1_0000_0000_0000_0000 * 0x1_0000_0000_0000_0000 <= p as int) by {
            vstd::arithmetic::div_mod::lemma_fundamental_div_mod(p as int, 0x1_0000_0000_0000_0000);
        }
    }
    ((p % 0x1_0000_0000_0000_0000) as u64, (p / 0x1_0000_0000_0000_0000) as u64)
}

impl<const N: usize> Simd<u64, N> {
    /// Multiplies lane by lane, keeping both halves of each double-width
    /// product: the low half (as unsigned lanes) and the high half.
    pub fn mul_keep_low_high(self, rhs: Self) -> (r: (Simd<u64, N>, Self))
        ensures
            forall|i: int| 0 <= i < N ==> (#[trigger] r.0@[i]) as int == (self@[i] * rhs@[i]) % 0x1_0000_0000_0000_0000,
            forall|i: int| 0 <= i < N ==> (#[trigger] r.1@[i]) as int == (self@[i] * rhs@[i]) / 0x1_0000_0000_0000_0000,
    {
        let a = self.to_array();
        let b = rhs.to_array();
        let mut low = [0u64; N];
        let mut high = a;
        for i in 0..N
            invariant
                a@ == self@,
                b@ == rhs@,
                forall|j: int| 0 <= j < i ==> (#[trigger] low@[j]) as int == (a@[j] * b@[j]) % 0x1_0000_0000_0000_0000,
                forall|j: int| 0 <= j < i ==> (#[trigger] high@[j]) as int == (a@[j] * b@[j]) / 0x1_0000_0000_0000_0000,
        {
            let (l, h) = mul_halves_u64(a[i], b[i]);
            low[i] = l;
            high[i] = h;
        }
        (Simd::new(low), Simd::new(high))
    }

    /// Multiplies lane by lane, keeping the high half of each double-width
    /// product.
    pub fn mul_keep_high(self, rhs: Self) -> (r: Self)
        ensures
            forall|i: int| 0 <= i < N ==> (#[trigger] r@[i]) as int == (self@[i] * rhs@[i]) / 0x1_0000_0000_0000_0000,
    {
        self.mul_keep_low_high(rhs).1
    }

    /// Wrapping multiplication that also reports, as a mask, the lanes whose
    /// product does not fit in the lane type.
    pub fn overflowing_mul(self, rhs: Self) -> (r: (Self, Self))
        ensures
            r.0 == wrapping_product(self, rhs),
            forall|i: int| 0 <= i < N ==> (#[trigger] r.0@[i]) as int == wrapped::<u64>(self@[i] * rhs@[i]),
            forall|i: int|
                0 <= i < N ==> #[trigger] r.1@[i] == mask_lane::<u64>(
                    self@[i] * rhs@[i] < 0 || self@[i] * rhs@[i] > 0xffff_ffff_ffff_ffff,
                ),
    {
        let a = self.to_array();
        let b = rhs.to_array();
        let mut low = a;
        let mut overflow = a;
        for i in 0..N
            invariant
                a@ == self@,
                b@ == rhs@,
                forall|j: int| 0 <= j < i ==> (#[trigger] low@[j]) as int == wrapped::<u64>(a@[j] * b@[j]),
                forall|j: int|
                    0 <= j < i ==> #[trigger] overflow@[j] == mask_lane::<u64>(
                        a@[j] * b@[j] < 0 || a@[j] * b@[j] > 0xffff_ffff_ffff_ffff,
                    ),
        {
            let x = a[i];
            let y = b[i];
            let (l, h) = mul_halves_u64(x, y);
            let wrapped_product = x.lane_mul(y);
            let fits = h == 0;
            proof {
                vstd::arithmetic::div_mod::lemma_fundamental_div_mod(x * y, 0x1_0000_0000_0000_0000);
            }
            low[i] = wrapped_product;
            overflow[i] = if fits { 0 } else { u64::MAX };
        }
        let product = Simd::new(low);
        proof {
            let s = Seq::new(N as nat, |i: int| lane_of::<u64>(self@[i].value() * rhs@[i].value()));
            assert forall|i: int| 0 <= i < N implies #[trigger] product@[i] == s[i] by {
                lemma_lane_of::<u64>(self@[i].value() * rhs@[i].value());
            }
            assert(product@ =~= s);
            lemma_is_from_lanes(product, s);
        }
        (product, Simd::new(overflow))
    }
}

impl Simd<i32, 4> {
    /// Widening multiplication, the former name of
    /// [`widening_mul`](Self::widening_mul): the exact product of each pair
    /// of lanes, in 64-bit lanes. It can never overflow.
    pub fn mul_widen(self, rhs: Self) -> (r: Simd<i64, 4>)
        ensures
            forall|i: int| 0 <= i < 4 ==> (#[trigger] r@[i]) as int == self@[i] * rhs@[i],
    {
        self.widening_mul(rhs)
    }
}

impl Simd<u32, 4> {
    /// Widening multiplication, the former name of
    /// [`widening_mul`](Self::widening_mul): the exact product of each pair
    /// of lanes, in 64-bit lanes. It can never overflow.
    pub fn mul_widen(self, rhs: Self) -> (r: Simd<u64, 4>)
        ensures
            forall|i: int| 0 <= i < 4 ==> (#[trigger] r@[i]) as int == self@[i] * rhs@[i],
    {
        self.widening_mul(rhs)
    }
}

} // verus!
