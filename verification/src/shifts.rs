//! Shifts of each lane: by one amount for all lanes or by the matching
//! lane of a second vector, wrapping the amount modulo the lane width or
//! shifting out all bits when it reaches the width.

use vstd::prelude::*;

use vstd::std_specs::ops::{ShlSpecImpl, ShrSpecImpl};

use vstd::arithmetic::power2::{pow2, lemma_pow2_pos, lemma_pow2_adds, lemma_pow2_strictly_increases};

use crate::element::{SimdElement, wrapped};
use crate::simd::{Simd, from_lanes, lemma_is_from_lanes};

verus! {

broadcast use crate::simd::lemma_simd_len;

/// Shifting a lane right by any amount, shifting out all bits once the
/// amount reaches the width, divides it by two to the amount, rounding down.
pub proof fn lemma_unbounded_shr_value<T: SimdElement>(x: T, s: nat)
    ensures
        (if s < T::bits() {
            x.shr_bits(s as u32)
        } else {
            x.sign_fill()
        }).value() == x.value() / (pow2(s) as int),
{
    T::lemma_width();
    T::lemma_value(x, x);
    lemma_pow2_pos(s);
    if s < T::bits() {
        x.lemma_shr_value(s as u32);
        vstd::arithmetic::div_mod::lemma_small_mod(s, T::bits() as nat);
    } else {
        x.lemma_sign_fill_value();
        let b = T::bits() as nat;
        if b < s {
            lemma_pow2_strictly_increases(b, s);
        }
        let p = pow2(s) as int;
        let v = x.value();
        if v < 0 {
            vstd::arithmetic::div_mod::lemma_fundamental_div_mod_converse(v, p, -1, v + p);
        } else {
            vstd::arithmetic::div_mod::lemma_fundamental_div_mod_converse(v, p, 0, v);
        }
    }
}

/// Shifting a lane left by any amount, giving zero once the amount reaches
/// the width, multiplies it by two to the amount, wrapping.
pub proof fn lemma_unbounded_shl_value<T: SimdElement>(x: T, s: nat)
    ensures
        (if s < T::bits() {
            x.shl_bits(s as u32)
        } else {
            T::spec_zero()
        }).value() == wrapped::<T>(x.value() * pow2(s)),
{
    T::lemma_width();
    if s < T::bits() {
        x.lemma_shl_value(s as u32);
        vstd::arithmetic::div_mod::lemma_small_mod(s, T::bits() as nat);
    } else {
        T::lemma_masks();
        let b = T::bits() as nat;
        let m = T::modulus();
        let e = (s - b) as nat;
        lemma_pow2_adds(b, e);
        assert(b + e == s);
        let q = pow2(e) as int;
        let v = x.value();
        assert(v * (pow2(s) as int) == m * (v * q)) by (nonlinear_arith)
            requires
                pow2(s) == pow2(b) * pow2(e),
                pow2(b) == m,
                q == pow2(e),
        ;
        vstd::arithmetic::div_mod::lemma_mod_multiples_vanish(v * q, -T::min_value(), m);
        vstd::arithmetic::div_mod::lemma_small_mod((-T::min_value()) as nat, m as nat);
    }
}

impl<T: SimdElement, const N: usize> Simd<T, N> {
    /// Shifts each lane left by `rhs`; an amount of the lane width or more
    /// shifts out all bits, giving zero.
    pub fn unbounded_shl_scalar(self, rhs: u32) -> (r: Self)
        ensures
            forall|i: int|
                0 <= i < N ==> #[trigger] r@[i] == (if rhs < T::bits() {
                    self@[i].shl_bits(rhs)
                } else {
                    T::spec_zero()
                }),
            forall|i: int|
                0 <= i < N ==> (#[trigger] r@[i]).value() == wrapped::<T>(self@[i].value() * pow2(rhs as nat)),
    {
        let a = self.to_array();
        let mut out = a;
        let bits = T::lane_bits();
        for i in 0..N
            invariant
                a@ == self@,
                bits == T::bits(),
                forall|j: int|
                    0 <= j < i ==> #[trigger] out@[j] == (if rhs < T::bits() {
                        a@[j].shl_bits(rhs)
                    } else {
                        T::spec_zero()
                    }),
        {
            out[i] = if rhs < bits { a[i].lane_shl(rhs) } else { T::zero() };
        }
        let r = Simd::new(out);
        proof {
            assert forall|i: int| 0 <= i < N implies (#[trigger] r@[i]).value() == wrapped::<T>(
                self@[i].value() * pow2(rhs as nat),
            ) by {
                lemma_unbounded_shl_value(self@[i], rhs as nat);
            }
        }
        r
    }

    /// Shifts each lane right by `rhs` (arithmetically for signed lanes); an
    /// amount of the lane width or more shifts out all bits, giving zero, or
    /// all ones for a negative signed lane.
    pub fn unbounded_shr_scalar(self, rhs: u32) -> (r: Self)
        ensures
            forall|i: int|
                0 <= i < N ==> #[trigger] r@[i] == (if rhs < T::bits() {
                    self@[i].shr_bits(rhs)
                } else {
                    self@[i].sign_fill()
                }),
            forall|i: int|
                0 <= i < N ==> (#[trigger] r@[i]).value() == self@[i].value() / (pow2(rhs as nat) as int),
    {
        let a = self.to_array();
        let mut out = a;
        let bits = T::lane_bits();
        for i in 0..N
            invariant
                a@ == self@,
                bits == T::bits(),
                forall|j: int|
                    0 <= j < i ==> #[trigger] out@[j] == (if rhs < T::bits() {
                        a@[j].shr_bits(rhs)
                    } else {
                        a@[j].sign_fill()
                    }),
        {
            out[i] = if rhs < bits { a[i].lane_shr(rhs) } else { a[i].lane_sign_fill() };
        }
        let r = Simd::new(out);
        proof {
            assert forall|i: int| 0 <= i < N implies (#[trigger] r@[i]).value() == self@[i].value() / (pow2(
                rhs as nat,
            ) as int) by {
                lemma_unbounded_shr_value(self@[i], rhs as nat);
            }
        }
        r
    }
}

/// Lane `i` of `a` shifted left by lane `i` of `b` modulo the lane
/// width.
pub open spec fn i8_shl_by<const N: usize>(a: Simd<i8, N>, b: Simd<u8, N>) -> Simd<i8, N> {
    from_lanes(Seq::new(N as nat, |i: int| a@[i].shl_bits((b@[i] % 8) as u32)))
}

impl<const N: usize> core::ops::Shl<Simd<u8, N>> for Simd<i8, N> {
    type Output = Self;

    /// Shifts each lane left by the matching lane of `rhs` modulo the
    /// lane width.
    fn shl(self, rhs: Simd<u8, N>) -> (r: Self)
        ensures
            r == i8_shl_by(self, rhs),
            forall|i: int| 0 <= i < N ==> #[trigger] r@[i] == self@[i].shl_bits((rhs@[i] % 8) as u32),
    {
        let a = self.to_array();
        let b = rhs.to_array();
        let mut out = a;
        for i in 0..N
            invariant
                a@ == self@,
                b@ == rhs@,
                forall|j: int| 0 <= j < i ==> #[trigger] out@[j] == a@[j].shl_bits((b@[j] % 8) as u32),
        {
            out[i] = a[i].lane_shl((b[i] % 8) as u32);
        }
        let r = Simd::new(out);
        proof {
            let s = Seq::new(N as nat, |i: int| self@[i].shl_bits((rhs@[i] % 8) as u32));
            assert(r@ =~= s);
            lemma_is_from_lanes(r, s);
        }
        r
    }
}

impl<const N: usize> ShlSpecImpl<Simd<u8, N>> for Simd<i8, N> {
    open spec fn obeys_shl_spec() -> bool {
        true
    }

    open spec fn shl_req(self, rhs: Simd<u8, N>) -> bool {
        true
    }

    open spec fn shl_spec(self, rhs: Simd<u8, N>) -> Self {
        i8_shl_by(self, rhs)
    }
}

/// Lane `i` of `a` shifted right (arithmetically) by lane `i` of `b` modulo the lane
/// width.
pub open spec fn i8_shr_by<const N: usize>(a: Simd<i8, N>, b: Simd<u8, N>) -> Simd<i8, N> {
    from_lanes(Seq::new(N as nat, |i: int| a@[i].shr_bits((b@[i] % 8) as u32)))
}

impl<const N: usize> core::ops::Shr<Simd<u8, N>> for Simd<i8, N> {
    type Output = Self;

    /// Shifts each lane right (arithmetically) by the matching lane of `rhs` modulo the
    /// lane width.
    fn shr(self, rhs: Simd<u8, N>) -> (r: Self)
        ensures
            r == i8_shr_by(self, rhs),
            forall|i: int| 0 <= i < N ==> #[trigger] r@[i] == self@[i].shr_bits((rhs@[i] % 8) as u32),
    {
        let a = self.to_array();
        let b = rhs.to_array();
        let mut out = a;
        for i in 0..N
            invariant
                a@ == self@,
                b@ == rhs@,
                forall|j: int| 0 <= j < i ==> #[trigger] out@[j] == a@[j].shr_bits((b@[j] % 8) as u32),
        {
            out[i] = a[i].lane_shr((b[i] % 8) as u32);
        }
        let r = Simd::new(out);
        proof {
            let s = Seq::new(N as nat, |i: int| self@[i].shr_bits((rhs@[i] % 8) as u32));
            assert(r@ =~= s);
            lemma_is_from_lanes(r, s);
        }
        r
    }
}

impl<const N: usize> ShrSpecImpl<Simd<u8, N>> for Simd<i8, N> {
    open spec fn obeys_shr_spec() -> bool {
        true
    }

    open spec fn shr_req(self, rhs: Simd<u8, N>) -> bool {
        true
    }

    open spec fn shr_spec(self, rhs: Simd<u8, N>) -> Self {
        i8_shr_by(self, rhs)
    }
}

impl<const N: usize> Simd<i8, N> {
    /// Shifts each lane left by the matching lane of `rhs`; an amount of the
    /// lane width or more shifts out all bits, giving zero.
    pub fn unbounded_shl(self, rhs: Simd<u8, N>) -> (r: Self)
        ensures
            forall|i: int|
                0 <= i < N ==> #[trigger] r@[i] == (if rhs@[i] < 8 {
                    self@[i].shl_bits(rhs@[i] as u32)
                } else {
                    0i8
                }),
            forall|i: int|
                0 <= i < N ==> (#[trigger] r@[i]).value() == wrapped::<i8>(
                    self@[i].value() * pow2(rhs@[i] as nat),
                ),
    {
        let a = self.to_array();
        let b = rhs.to_array();
        let mut out = a;
        for i in 0..N
            invariant
                a@ == self@,
                b@ == rhs@,
                forall|j: int|
                    0 <= j < i ==> #[trigger] out@[j] == (if b@[j] < 8 {
                        a@[j].shl_bits(b@[j] as u32)
                    } else {
                        0i8
                    }),
        {
            out[i] = if b[i] < 8 { a[i].lane_shl(b[i] as u32) } else { 0 };
        }
        let r = Simd::new(out);
        proof {
            assert forall|i: int| 0 <= i < N implies (#[trigger] r@[i]).value() == wrapped::<i8>(
                self@[i].value() * pow2(rhs@[i] as nat),
            ) by {
                lemma_unbounded_shl_value(self@[i], rhs@[i] as nat);
            }
        }
        r
    }

    /// Shifts each lane right by the matching lane of `rhs` (arithmetically); an amount
    /// of the lane width or more shifts out all bits, leaving all ones for a
    /// negative lane and zero otherwise.
    pub fn unbounded_shr(self, rhs: Simd<u8, N>) -> (r: Self)
        ensures
            forall|i: int|
                0 <= i < N ==> #[trigger] r@[i] == (if rhs@[i] < 8 {
                    self@[i].shr_bits(rhs@[i] as u32)
                } else {
                    self@[i].sign_fill()
                }),
            forall|i: int|
                0 <= i < N ==> (#[trigger] r@[i]).value() == self@[i].value() / (pow2(rhs@[i] as nat) as int),
    {
        let a = self.to_array();
        let b = rhs.to_array();
        let mut out = a;
        for i in 0..N
            invariant
                a@ == self@,
                b@ == rhs@,
                forall|j: int|
                    0 <= j < i ==> #[trigger] out@[j] == (if b@[j] < 8 {
                        a@[j].shr_bits(b@[j] as u32)
                    } else {
                        a@[j].sign_fill()
                    }),
        {
            out[i] = if b[i] < 8 { a[i].lane_shr(b[i] as u32) } else { a[i].lane_sign_fill() };
        }
        let r = Simd::new(out);
        proof {
            assert forall|i: int| 0 <= i < N implies (#[trigger] r@[i]).value() == self@[i].value() / (pow2(
                rhs@[i] as nat,
            ) as int) by {
                lemma_unbounded_shr_value(self@[i], rhs@[i] as nat);
            }
        }
        r
    }
}

/// Lane `i` of `a` shifted left by lane `i` of `b` modulo the lane
/// width.
pub open spec fn i16_shl_by<const N: usize>(a: Simd<i16, N>, b: Simd<u16, N>) -> Simd<i16, N> {
    from_lanes(Seq::new(N as nat, |i: int| a@[i].shl_bits((b@[i] % 16) as u32)))
}

impl<const N: usize> core::ops::Shl<Simd<u16, N>> for Simd<i16, N> {
    type Output = Self;

    /// Shifts each lane left by the matching lane of `rhs` modulo the
    /// lane width.
    fn shl(self, rhs: Simd<u16, N>) -> (r: Self)
        ensures
            r == i16_shl_by(self, rhs),
            forall|i: int| 0 <= i < N ==> #[trigger] r@[i] == self@[i].shl_bits((rhs@[i] % 16) as u32),
    {
        let a = self.to_array();
        let b = rhs.to_array();
        let mut out = a;
        for i in 0..N
            invariant
                a@ == self@,
                b@ == rhs@,
                forall|j: int| 0 <= j < i ==> #[trigger] out@[j] == a@[j].shl_bits((b@[j] % 16) as u32),
        {
            out[i] = a[i].lane_shl((b[i] % 16) as u32);
        }
        let r = Simd::new(out);
        proof {
            let s = Seq::new(N as nat, |i: int| self@[i].shl_bits((rhs@[i] % 16) as u32));
            assert(r@ =~= s);
            lemma_is_from_lanes(r, s);
        }
        r
    }
}

impl<const N: usize> ShlSpecImpl<Simd<u16, N>> for Simd<i16, N> {
    open spec fn obeys_shl_spec() -> bool {
        true
    }

    open spec fn shl_req(self, rhs: Simd<u16, N>) -> bool {
        true
    }

    open spec fn shl_spec(self, rhs: Simd<u16, N>) -> Self {
        i16_shl_by(self, rhs)
    }
}

/// Lane `i` of `a` shifted right (arithmetically) by lane `i` of `b` modulo the lane
/// width.
pub open spec fn i16_shr_by<const N: usize>(a: Simd<i16, N>, b: Simd<u16, N>) -> Simd<i16, N> {
    from_lanes(Seq::new(N as nat, |i: int| a@[i].shr_bits((b@[i] % 16) as u32)))
}

impl<const N: usize> core::ops::Shr<Simd<u16, N>> for Simd<i16, N> {
    type Output = Self;

    /// Shifts each lane right (arithmetically) by the matching lane of `rhs` modulo the
    /// lane width.
    fn shr(self, rhs: Simd<u16, N>) -> (r: Self)
        ensures
            r == i16_shr_by(self, rhs),
            forall|i: int| 0 <= i < N ==> #[trigger] r@[i] == self@[i].shr_bits((rhs@[i] % 16) as u32),
    {
        let a = self.to_array();
        let b = rhs.to_array();
        let mut out = a;
        for i in 0..N
            invariant
                a@ == self@,
                b@ == rhs@,
                forall|j: int| 0 <= j < i ==> #[trigger] out@[j] == a@[j].shr_bits((b@[j] % 16) as u32),
        {
            out[i] = a[i].lane_shr((b[i] % 16) as u32);
        }
        let r = Simd::new(out);
        proof {
            let s = Seq::new(N as nat, |i: int| self@[i].shr_bits((rhs@[i] % 16) as u32));
            assert(r@ =~= s);
            lemma_is_from_lanes(r, s);
        }
        r
    }
}

impl<const N: usize> ShrSpecImpl<Simd<u16, N>> for Simd<i16, N> {
    open spec fn obeys_shr_spec() -> bool {
        true
    }

    open spec fn shr_req(self, rhs: Simd<u16, N>) -> bool {
        true
    }

    open spec fn shr_spec(self, rhs: Simd<u16, N>) -> Self {
        i16_shr_by(self, rhs)
    }
}

impl<const N: usize> Simd<i16, N> {
    /// Shifts each lane left by the matching lane of `rhs`; an amount of the
    /// lane width or more shifts out all bits, giving zero.
    pub fn unbounded_shl(self, rhs: Simd<u16, N>) -> (r: Self)
        ensures
            forall|i: int|
                0 <= i < N ==> #[trigger] r@[i] == (if rhs@[i] < 16 {
                    self@[i].shl_bits(rhs@[i] as u32)
                } else {
                    0i16
                }),
            forall|i: int|
                0 <= i < N ==> (#[trigger] r@[i]).value() == wrapped::<i16>(
                    self@[i].value() * pow2(rhs@[i] as nat),
                ),
    {
        let a = self.to_array();
        let b = rhs.to_array();
        let mut out = a;
        for i in 0..N
            invariant
                a@ == self@,
                b@ == rhs@,
                forall|j: int|
                    0 <= j < i ==> #[trigger] out@[j] == (if b@[j] < 16 {
                        a@[j].shl_bits(b@[j] as u32)
                    } else {
                        0i16
                    }),
        {
            out[i] = if b[i] < 16 { a[i].lane_shl(b[i] as u32) } else { 0 };
        }
        let r = Simd::new(out);
        proof {
            assert forall|i: int| 0 <= i < N implies (#[trigger] r@[i]).value() == wrapped::<i16>(
                self@[i].value() * pow2(rhs@[i] as nat),
            ) by {
                lemma_unbounded_shl_value(self@[i], rhs@[i] as nat);
            }
        }
        r
    }

    /// Shifts each lane right by the matching lane of `rhs` (arithmetically); an amount
    /// of the lane width or more shifts out all bits, leaving all ones for a
    /// negative lane and zero otherwise.
    pub fn unbounded_shr(self, rhs: Simd<u16, N>) -> (r: Self)
        ensures
            forall|i: int|
                0 <= i < N ==> #[trigger] r@[i] == (if rhs@[i] < 16 {
                    self@[i].shr_bits(rhs@[i] as u32)
                } else {
                    self@[i].sign_fill()
                }),
            forall|i: int|
                0 <= i < N ==> (#[trigger] r@[i]).value() == self@[i].value() / (pow2(rhs@[i] as nat) as int),
    {
        let a = self.to_array();
        let b = rhs.to_array();
        let mut out = a;
        for i in 0..N
            invariant
                a@ == self@,
                b@ == rhs@,
                forall|j: int|
                    0 <= j < i ==> #[trigger] out@[j] == (if b@[j] < 16 {
                        a@[j].shr_bits(b@[j] as u32)
                    } else {
                        a@[j].sign_fill()
                    }),
        {
            out[i] = if b[i] < 16 { a[i].lane_shr(b[i] as u32) } else { a[i].lane_sign_fill() };
        }
        let r = Simd::new(out);
        proof {
            assert forall|i: int| 0 <= i < N implies (#[trigger] r@[i]).value() == self@[i].value() / (pow2(
                rhs@[i] as nat,
            ) as int) by {
                lemma_unbounded_shr_value(self@[i], rhs@[i] as nat);
            }
        }
        r
    }
}

/// Lane `i` of `a` shifted left by lane `i` of `b` modulo the lane
/// width.
pub open spec fn i32_shl_by<const N: usize>(a: Simd<i32, N>, b: Simd<u32, N>) -> Simd<i32, N> {
    from_lanes(Seq::new(N as nat, |i: int| a@[i].shl_bits((b@[i] % 32) as u32)))
}

impl<const N: usize> core::ops::Shl<Simd<u32, N>> for Simd<i32, N> {
    type Output = Self;

    /// Shifts each lane left by the matching lane of `rhs` modulo the
    /// lane width.
    fn shl(self, rhs: Simd<u32, N>) -> (r: Self)
        ensures
            r == i32_shl_by(self, rhs),
            forall|i: int| 0 <= i < N ==> #[trigger] r@[i] == self@[i].shl_bits((rhs@[i] % 32) as u32),
    {
        let a = self.to_array();
        let b = rhs.to_array();
        let mut out = a;
        for i in 0..N
            invariant
                a@ == self@,
                b@ == rhs@,
                forall|j: int| 0 <= j < i ==> #[trigger] out@[j] == a@[j].shl_bits((b@[j] % 32) as u32),
        {
            out[i] = a[i].lane_shl((b[i] % 32) as u32);
        }
        let r = Simd::new(out);
        proof {
            let s = Seq::new(N as nat, |i: int| self@[i].shl_bits((rhs@[i] % 32) as u32));
            assert(r@ =~= s);
            lemma_is_from_lanes(r, s);
        }
        r
    }
}

impl<const N: usize> ShlSpecImpl<Simd<u32, N>> for Simd<i32, N> {
    open spec fn obeys_shl_spec() -> bool {
        true
    }

    open spec fn shl_req(self, rhs: Simd<u32, N>) -> bool {
        true
    }

    open spec fn shl_spec(self, rhs: Simd<u32, N>) -> Self {
        i32_shl_by(self, rhs)
    }
}

/// Lane `i` of `a` shifted right (arithmetically) by lane `i` of `b` modulo the lane
/// width.
pub open spec fn i32_shr_by<const N: usize>(a: Simd<i32, N>, b: Simd<u32, N>) -> Simd<i32, N> {
    from_lanes(Seq::new(N as nat, |i: int| a@[i].shr_bits((b@[i] % 32) as u32)))
}

impl<const N: usize> core::ops::Shr<Simd<u32, N>> for Simd<i32, N> {
    type Output = Self;

    /// Shifts each lane right (arithmetically) by the matching lane of `rhs` modulo the
    /// lane width.
    fn shr(self, rhs: Simd<u32, N>) -> (r: Self)
        ensures
            r == i32_shr_by(self, rhs),
            forall|i: int| 0 <= i < N ==> #[trigger] r@[i] == self@[i].shr_bits((rhs@[i] % 32) as u32),
    {
        let a = self.to_array();
        let b = rhs.to_array();
        let mut out = a;
        for i in 0..N
            invariant
                a@ == self@,
                b@ == rhs@,
                forall|j: int| 0 <= j < i ==> #[trigger] out@[j] == a@[j].shr_bits((b@[j] % 32) as u32),
        {
            out[i] = a[i].lane_shr((b[i] % 32) as u32);
        }
        let r = Simd::new(out);
        proof {
            let s = Seq::new(N as nat, |i: int| self@[i].shr_bits((rhs@[i] % 32) as u32));
            assert(r@ =~= s);
            lemma_is_from_lanes(r, s);
        }
        r
    }
}

impl<const N: usize> ShrSpecImpl<Simd<u32, N>> for Simd<i32, N> {
    open spec fn obeys_shr_spec() -> bool {
        true
    }

    open spec fn shr_req(self, rhs: Simd<u32, N>) -> bool {
        true
    }

    open spec fn shr_spec(self, rhs: Simd<u32, N>) -> Self {
        i32_shr_by(self, rhs)
    }
}

impl<const N: usize> Simd<i32, N> {
    /// Shifts each lane left by the matching lane of `rhs`; an amount of the
    /// lane width or more shifts out all bits, giving zero.
    pub fn unbounded_shl(self, rhs: Simd<u32, N>) -> (r: Self)
        ensures
            forall|i: int|
                0 <= i < N ==> #[trigger] r@[i] == (if rhs@[i] < 32 {
                    self@[i].shl_bits(rhs@[i] as u32)
                } else {
                    0i32
                }),
            forall|i: int|
                0 <= i < N ==> (#[trigger] r@[i]).value() == wrapped::<i32>(
                    self@[i].value() * pow2(rhs@[i] as nat),
                ),
    {
        let a = self.to_array();
        let b = rhs.to_array();
        let mut out = a;
        for i in 0..N
            invariant
                a@ == self@,
                b@ == rhs@,
                forall|j: int|
                    0 <= j < i ==> #[trigger] out@[j] == (if b@[j] < 32 {
                        a@[j].shl_bits(b@[j] as u32)
                    } else {
                        0i32
                    }),
        {
            out[i] = if b[i] < 32 { a[i].lane_shl(b[i] as u32) } else { 0 };
        }
        let r = Simd::new(out);
        proof {
            assert forall|i: int| 0 <= i < N implies (#[trigger] r@[i]).value() == wrapped::<i32>(
                self@[i].value() * pow2(rhs@[i] as nat),
            ) by {
                lemma_unbounded_shl_value(self@[i], rhs@[i] as nat);
            }
        }
        r
    }

    /// Shifts each lane right by the matching lane of `rhs` (arithmetically); an amount
    /// of the lane width or more shifts out all bits, leaving all ones for a
    /// negative lane and zero otherwise.
    pub fn unbounded_shr(self, rhs: Simd<u32, N>) -> (r: Self)
        ensures
            forall|i: int|
                0 <= i < N ==> #[trigger] r@[i] == (if rhs@[i] < 32 {
                    self@[i].shr_bits(rhs@[i] as u32)
                } else {
                    self@[i].sign_fill()
                }),
            forall|i: int|
                0 <= i < N ==> (#[trigger] r@[i]).value() == self@[i].value() / (pow2(rhs@[i] as nat) as int),
    {
        let a = self.to_array();
        let b = rhs.to_array();
        let mut out = a;
        for i in 0..N
            invariant
                a@ == self@,
                b@ == rhs@,
                forall|j: int|
                    0 <= j < i ==> #[trigger] out@[j] == (if b@[j] < 32 {
                        a@[j].shr_bits(b@[j] as u32)
                    } else {
                        a@[j].sign_fill()
                    }),
        {
            out[i] = if b[i] < 32 { a[i].lane_shr(b[i] as u32) } else { a[i].lane_sign_fill() };
        }
        let r = Simd::new(out);
        proof {
            assert forall|i: int| 0 <= i < N implies (#[trigger] r@[i]).value() == self@[i].value() / (pow2(
                rhs@[i] as nat,
            ) as int) by {
                lemma_unbounded_shr_value(self@[i], rhs@[i] as nat);
            }
        }
        r
    }
}

/// Lane `i` of `a` shifted left by lane `i` of `b` modulo the lane
/// width.
pub open spec fn i64_shl_by<const N: usize>(a: Simd<i64, N>, b: Simd<u64, N>) -> Simd<i64, N> {
    from_lanes(Seq::new(N as nat, |i: int| a@[i].shl_bits((b@[i] % 64) as u32)))
}

impl<const N: usize> core::ops::Shl<Simd<u64, N>> for Simd<i64, N> {
    type Output = Self;

    /// Shifts each lane left by the matching lane of `rhs` modulo the
    /// lane width.
    fn shl(self, rhs: Simd<u64, N>) -> (r: Self)
        ensures
            r == i64_shl_by(self, rhs),
            forall|i: int| 0 <= i < N ==> #[trigger] r@[i] == self@[i].shl_bits((rhs@[i] % 64) as u32),
    {
        let a = self.to_array();
        let b = rhs.to_array();
        let mut out = a;
        for i in 0..N
            invariant
                a@ == self@,
                b@ == rhs@,
                forall|j: int| 0 <= j < i ==> #[trigger] out@[j] == a@[j].shl_bits((b@[j] % 64) as u32),
        {
            out[i] = a[i].lane_shl((b[i] % 64) as u32);
        }
        let r = Simd::new(out);
        proof {
            let s = Seq::new(N as nat, |i: int| self@[i].shl_bits((rhs@[i] % 64) as u32));
            assert(r@ =~= s);
            lemma_is_from_lanes(r, s);
        }
        r
    }
}

impl<const N: usize> ShlSpecImpl<Simd<u64, N>> for Simd<i64, N> {
    open spec fn obeys_shl_spec() -> bool {
        true
    }

    open spec fn shl_req(self, rhs: Simd<u64, N>) -> bool {
        true
    }

    open spec fn shl_spec(self, rhs: Simd<u64, N>) -> Self {
        i64_shl_by(self, rhs)
    }
}

/// Lane `i` of `a` shifted right (arithmetically) by lane `i` of `b` modulo the lane
/// width.
pub open spec fn i64_shr_by<const N: usize>(a: Simd<i64, N>, b: Simd<u64, N>) -> Simd<i64, N> {
    from_lanes(Seq::new(N as nat, |i: int| a@[i].shr_bits((b@[i] % 64) as u32)))
}

impl<const N: usize> core::ops::Shr<Simd<u64, N>> for Simd<i64, N> {
    type Output = Self;

    /// Shifts each lane right (arithmetically) by the matching lane of `rhs` modulo the
    /// lane width.
    fn shr(self, rhs: Simd<u64, N>) -> (r: Self)
        ensures
            r == i64_shr_by(self, rhs),
            forall|i: int| 0 <= i < N ==> #[trigger] r@[i] == self@[i].shr_bits((rhs@[i] % 64) as u32),
    {
        let a = self.to_array();
        let b = rhs.to_array();
        let mut out = a;
        for i in 0..N
            invariant
                a@ == self@,
                b@ == rhs@,
                forall|j: int| 0 <= j < i ==> #[trigger] out@[j] == a@[j].shr_bits((b@[j] % 64) as u32),
        {
            out[i] = a[i].lane_shr((b[i] % 64) as u32);
        }
        let r = Simd::new(out);
        proof {
            let s = Seq::new(N as nat, |i: int| self@[i].shr_bits((rhs@[i] % 64) as u32));
            assert(r@ =~= s);
            lemma_is_from_lanes(r, s);
        }
        r
    }
}

impl<const N: usize> ShrSpecImpl<Simd<u64, N>> for Simd<i64, N> {
    open spec fn obeys_shr_spec() -> bool {
        true
    }

    open spec fn shr_req(self, rhs: Simd<u64, N>) -> bool {
        true
    }

    open spec fn shr_spec(self, rhs: Simd<u64, N>) -> Self {
        i64_shr_by(self, rhs)
    }
}

impl<const N: usize> Simd<i64, N> {
    /// Shifts each lane left by the matching lane of `rhs`; an amount of the
    /// lane width or more shifts out all bits, giving zero.
    pub fn unbounded_shl(self, rhs: Simd<u64, N>) -> (r: Self)
        ensures
            forall|i: int|
                0 <= i < N ==> #[trigger] r@[i] == (if rhs@[i] < 64 {
                    self@[i].shl_bits(rhs@[i] as u32)
                } else {
                    0i64
                }),
            forall|i: int|
                0 <= i < N ==> (#[trigger] r@[i]).value() == wrapped::<i64>(
                    self@[i].value() * pow2(rhs@[i] as nat),
                ),
    {
        let a = self.to_array();
        let b = rhs.to_array();
        let mut out = a;
        for i in 0..N
            invariant
                a@ == self@,
                b@ == rhs@,
                forall|j: int|
                    0 <= j < i ==> #[trigger] out@[j] == (if b@[j] < 64 {
                        a@[j].shl_bits(b@[j] as u32)
                    } else {
                        0i64
                    }),
        {
            out[i] = if b[i] < 64 { a[i].lane_shl(b[i] as u32) } else { 0 };
        }
        let r = Simd::new(out);
        proof {
            assert forall|i: int| 0 <= i < N implies (#[trigger] r@[i]).value() == wrapped::<i64>(
                self@[i].value() * pow2(rhs@[i] as nat),
            ) by {
                lemma_unbounded_shl_value(self@[i], rhs@[i] as nat);
            }
        }
        r
    }

    /// Shifts each lane right by the matching lane of `rhs` (arithmetically); an amount
    /// of the lane width or more shifts out all bits, leaving all ones for a
    /// negative lane and zero otherwise.
    pub fn unbounded_shr(self, rhs: Simd<u64, N>) -> (r: Self)
        ensures
            forall|i: int|
                0 <= i < N ==> #[trigger] r@[i] == (if rhs@[i] < 64 {
                    self@[i].shr_bits(rhs@[i] as u32)
                } else {
                    self@[i].sign_fill()
                }),
            forall|i: int|
                0 <= i < N ==> (#[trigger] r@[i]).value() == self@[i].value() / (pow2(rhs@[i] as nat) as int),
    {
        let a = self.to_array();
        let b = rhs.to_array();
        let mut out = a;
        for i in 0..N
            invariant
                a@ == self@,
                b@ == rhs@,
                forall|j: int|
                    0 <= j < i ==> #[trigger] out@[j] == (if b@[j] < 64 {
                        a@[j].shr_bits(b@[j] as u32)
                    } else {
                        a@[j].sign_fill()
                    }),
        {
            out[i] = if b[i] < 64 { a[i].lane_shr(b[i] as u32) } else { a[i].lane_sign_fill() };
        }
        let r = Simd::new(out);
        proof {
            assert forall|i: int| 0 <= i < N implies (#[trigger] r@[i]).value() == self@[i].value() / (pow2(
                rhs@[i] as nat,
            ) as int) by {
                lemma_unbounded_shr_value(self@[i], rhs@[i] as nat);
            }
        }
        r
    }
}

/// Lane `i` of `a` shifted left by lane `i` of `b` modulo the lane
/// width.
pub open spec fn u8_shl_by<const N: usize>(a: Simd<u8, N>, b: Simd<u8, N>) -> Simd<u8, N> {
    from_lanes(Seq::new(N as nat, |i: int| a@[i].shl_bits((b@[i] % 8) as u32)))
}

impl<const N: usize> core::ops::Shl<Simd<u8, N>> for Simd<u8, N> {
    type Output = Self;

    /// Shifts each lane left by the matching lane of `rhs` modulo the
    /// lane width.
    fn shl(self, rhs: Simd<u8, N>) -> (r: Self)
        ensures
            r == u8_shl_by(self, rhs),
            forall|i: int| 0 <= i < N ==> #[trigger] r@[i] == self@[i].shl_bits((rhs@[i] % 8) as u32),
    {
        let a = self.to_array();
        let b = rhs.to_array();
        let mut out = a;
        for i in 0..N
            invariant
                a@ == self@,
                b@ == rhs@,
                forall|j: int| 0 <= j < i ==> #[trigger] out@[j] == a@[j].shl_bits((b@[j] % 8) as u32),
        {
            out[i] = a[i].lane_shl((b[i] % 8) as u32);
        }
        let r = Simd::new(out);
        proof {
            let s = Seq::new(N as nat, |i: int| self@[i].shl_bits((rhs@[i] % 8) as u32));
            assert(r@ =~= s);
            lemma_is_from_lanes(r, s);
        }
        r
    }
}

impl<const N: usize> ShlSpecImpl<Simd<u8, N>> for Simd<u8, N> {
    open spec fn obeys_shl_spec() -> bool {
        true
    }

    open spec fn shl_req(self, rhs: Simd<u8, N>) -> bool {
        true
    }

    open spec fn shl_spec(self, rhs: Simd<u8, N>) -> Self {
        u8_shl_by(self, rhs)
    }
}

/// Lane `i` of `a` shifted right by lane `i` of `b` modulo the lane
/// width.
pub open spec fn u8_shr_by<const N: usize>(a: Simd<u8, N>, b: Simd<u8, N>) -> Simd<u8, N> {
    from_lanes(Seq::new(N as nat, |i: int| a@[i].shr_bits((b@[i] % 8) as u32)))
}

impl<const N: usize> core::ops::Shr<Simd<u8, N>> for Simd<u8, N> {
    type Output = Self;

    /// Shifts each lane right by the matching lane of `rhs` modulo the
    /// lane width.
    fn shr(self, rhs: Simd<u8, N>) -> (r: Self)
        ensures
            r == u8_shr_by(self, rhs),
            forall|i: int| 0 <= i < N ==> #[trigger] r@[i] == self@[i].shr_bits((rhs@[i] % 8) as u32),
    {
        let a = self.to_array();
        let b = rhs.to_array();
        let mut out = a;
        for i in 0..N
            invariant
                a@ == self@,
                b@ == rhs@,
                forall|j: int| 0 <= j < i ==> #[trigger] out@[j] == a@[j].shr_bits((b@[j] % 8) as u32),
        {
            out[i] = a[i].lane_shr((b[i] % 8) as u32);
        }
        let r = Simd::new(out);
        proof {
            let s = Seq::new(N as nat, |i: int| self@[i].shr_bits((rhs@[i] % 8) as u32));
            assert(r@ =~= s);
            lemma_is_from_lanes(r, s);
        }
        r
    }
}

impl<const N: usize> ShrSpecImpl<Simd<u8, N>> for Simd<u8, N> {
    open spec fn obeys_shr_spec() -> bool {
        true
    }

    open spec fn shr_req(self, rhs: Simd<u8, N>) -> bool {
        true
    }

    open spec fn shr_spec(self, rhs: Simd<u8, N>) -> Self {
        u8_shr_by(self, rhs)
    }
}

impl<const N: usize> Simd<u8, N> {
    /// Shifts each lane left by the matching lane of `rhs`; an amount of the
    /// lane width or more shifts out all bits, giving zero.
    pub fn unbounded_shl(self, rhs: Simd<u8, N>) -> (r: Self)
        ensures
            forall|i: int|
                0 <= i < N ==> #[trigger] r@[i] == (if rhs@[i] < 8 {
                    self@[i].shl_bits(rhs@[i] as u32)
                } else {
                    0u8
                }),
            forall|i: int|
                0 <= i < N ==> (#[trigger] r@[i]).value() == wrapped::<u8>(
                    self@[i].value() * pow2(rhs@[i] as nat),
                ),
    {
        let a = self.to_array();
        let b = rhs.to_array();
        let mut out = a;
        for i in 0..N
            invariant
                a@ == self@,
                b@ == rhs@,
                forall|j: int|
                    0 <= j < i ==> #[trigger] out@[j] == (if b@[j] < 8 {
                        a@[j].shl_bits(b@[j] as u32)
                    } else {
                        0u8
                    }),
        {
            out[i] = if b[i] < 8 { a[i].lane_shl(b[i] as u32) } else { 0 };
        }
        let r = Simd::new(out);
        proof {
            assert forall|i: int| 0 <= i < N implies (#[trigger] r@[i]).value() == wrapped::<u8>(
                self@[i].value() * pow2(rhs@[i] as nat),
            ) by {
                lemma_unbounded_shl_value(self@[i], rhs@[i] as nat);
            }
        }
        r
    }

    /// Shifts each lane right by the matching lane of `rhs`; an amount
    /// of the lane width or more shifts out all bits, leaving zero.
    pub fn unbounded_shr(self, rhs: Simd<u8, N>) -> (r: Self)
        ensures
            forall|i: int|
                0 <= i < N ==> #[trigger] r@[i] == (if rhs@[i] < 8 {
                    self@[i].shr_bits(rhs@[i] as u32)
                } else {
                    self@[i].sign_fill()
                }),
            forall|i: int|
                0 <= i < N ==> (#[trigger] r@[i]).value() == self@[i].value() / (pow2(rhs@[i] as nat) as int),
    {
        let a = self.to_array();
        let b = rhs.to_array();
        let mut out = a;
        for i in 0..N
            invariant
                a@ == self@,
                b@ == rhs@,
                forall|j: int|
                    0 <= j < i ==> #[trigger] out@[j] == (if b@[j] < 8 {
                        a@[j].shr_bits(b@[j] as u32)
                    } else {
                        a@[j].sign_fill()
                    }),
        {
            out[i] = if b[i] < 8 { a[i].lane_shr(b[i] as u32) } else { a[i].lane_sign_fill() };
        }
        let r = Simd::new(out);
        proof {
            assert forall|i: int| 0 <= i < N implies (#[trigger] r@[i]).value() == self@[i].value() / (pow2(
                rhs@[i] as nat,
            ) as int) by {
                lemma_unbounded_shr_value(self@[i], rhs@[i] as nat);
            }
        }
        r
    }
}

/// Lane `i` of `a` shifted left by lane `i` of `b` modulo the lane
/// width.
pub open spec fn u16_shl_by<const N: usize>(a: Simd<u16, N>, b: Simd<u16, N>) -> Simd<u16, N> {
    from_lanes(Seq::new(N as nat, |i: int| a@[i].shl_bits((b@[i] % 16) as u32)))
}

impl<const N: usize> core::ops::Shl<Simd<u16, N>> for Simd<u16, N> {
    type Output = Self;

    /// Shifts each lane left by the matching lane of `rhs` modulo the
    /// lane width.
    fn shl(self, rhs: Simd<u16, N>) -> (r: Self)
        ensures
            r == u16_shl_by(self, rhs),
            forall|i: int| 0 <= i < N ==> #[trigger] r@[i] == self@[i].shl_bits((rhs@[i] % 16) as u32),
    {
        let a = self.to_array();
        let b = rhs.to_array();
        let mut out = a;
        for i in 0..N
            invariant
                a@ == self@,
                b@ == rhs@,
                forall|j: int| 0 <= j < i ==> #[trigger] out@[j] == a@[j].shl_bits((b@[j] % 16) as u32),
        {
            out[i] = a[i].lane_shl((b[i] % 16) as u32);
        }
        let r = Simd::new(out);
        proof {
            let s = Seq::new(N as nat, |i: int| self@[i].shl_bits((rhs@[i] % 16) as u32));
            assert(r@ =~= s);
            lemma_is_from_lanes(r, s);
        }
        r
    }
}

impl<const N: usize> ShlSpecImpl<Simd<u16, N>> for Simd<u16, N> {
    open spec fn obeys_shl_spec() -> bool {
        true
    }

    open spec fn shl_req(self, rhs: Simd<u16, N>) -> bool {
        true
    }

    open spec fn shl_spec(self, rhs: Simd<u16, N>) -> Self {
        u16_shl_by(self, rhs)
    }
}

/// Lane `i` of `a` shifted right by lane `i` of `b` modulo the lane
/// width.
pub open spec fn u16_shr_by<const N: usize>(a: Simd<u16, N>, b: Simd<u16, N>) -> Simd<u16, N> {
    from_lanes(Seq::new(N as nat, |i: int| a@[i].shr_bits((b@[i] % 16) as u32)))
}

impl<const N: usize> core::ops::Shr<Simd<u16, N>> for Simd<u16, N> {
    type Output = Self;

    /// Shifts each lane right by the matching lane of `rhs` modulo the
    /// lane width.
    fn shr(self, rhs: Simd<u16, N>) -> (r: Self)
        ensures
            r == u16_shr_by(self, rhs),
            forall|i: int| 0 <= i < N ==> #[trigger] r@[i] == self@[i].shr_bits((rhs@[i] % 16) as u32),
    {
        let a = self.to_array();
        let b = rhs.to_array();
        let mut out = a;
        for i in 0..N
            invariant
                a@ == self@,
                b@ == rhs@,
                forall|j: int| 0 <= j < i ==> #[trigger] out@[j] == a@[j].shr_bits((b@[j] % 16) as u32),
        {
            out[i] = a[i].lane_shr((b[i] % 16) as u32);
        }
        let r = Simd::new(out);
        proof {
            let s = Seq::new(N as nat, |i: int| self@[i].shr_bits((rhs@[i] % 16) as u32));
            assert(r@ =~= s);
            lemma_is_from_lanes(r, s);
        }
        r
    }
}

impl<const N: usize> ShrSpecImpl<Simd<u16, N>> for Simd<u16, N> {
    open spec fn obeys_shr_spec() -> bool {
        true
    }

    open spec fn shr_req(self, rhs: Simd<u16, N>) -> bool {
        true
    }

    open spec fn shr_spec(self, rhs: Simd<u16, N>) -> Self {
        u16_shr_by(self, rhs)
    }
}

impl<const N: usize> Simd<u16, N> {
    /// Shifts each lane left by the matching lane of `rhs`; an amount of the
    /// lane width or more shifts out all bits, giving zero.
    pub fn unbounded_shl(self, rhs: Simd<u16, N>) -> (r: Self)
        ensures
            forall|i: int|
                0 <= i < N ==> #[trigger] r@[i] == (if rhs@[i] < 16 {
                    self@[i].shl_bits(rhs@[i] as u32)
                } else {
                    0u16
                }),
            forall|i: int|
                0 <= i < N ==> (#[trigger] r@[i]).value() == wrapped::<u16>(
                    self@[i].value() * pow2(rhs@[i] as nat),
                ),
    {
        let a = self.to_array();
        let b = rhs.to_array();
        let mut out = a;
        for i in 0..N
            invariant
                a@ == self@,
                b@ == rhs@,
                forall|j: int|
                    0 <= j < i ==> #[trigger] out@[j] == (if b@[j] < 16 {
                        a@[j].shl_bits(b@[j] as u32)
                    } else {
                        0u16
                    }),
        {
            out[i] = if b[i] < 16 { a[i].lane_shl(b[i] as u32) } else { 0 };
        }
        let r = Simd::new(out);
        proof {
            assert forall|i: int| 0 <= i < N implies (#[trigger] r@[i]).value() == wrapped::<u16>(
                self@[i].value() * pow2(rhs@[i] as nat),
            ) by {
                lemma_unbounded_shl_value(self@[i], rhs@[i] as nat);
            }
        }
        r
    }

    /// Shifts each lane right by the matching lane of `rhs`; an amount
    /// of the lane width or more shifts out all bits, leaving zero.
    pub fn unbounded_shr(self, rhs: Simd<u16, N>) -> (r: Self)
        ensures
            forall|i: int|
                0 <= i < N ==> #[trigger] r@[i] == (if rhs@[i] < 16 {
                    self@[i].shr_bits(rhs@[i] as u32)
                } else {
                    self@[i].sign_fill()
                }),
            forall|i: int|
                0 <= i < N ==> (#[trigger] r@[i]).value() == self@[i].value() / (pow2(rhs@[i] as nat) as int),
    {
        let a = self.to_array();
        let b = rhs.to_array();
        let mut out = a;
        for i in 0..N
            invariant
                a@ == self@,
                b@ == rhs@,
                forall|j: int|
                    0 <= j < i ==> #[trigger] out@[j] == (if b@[j] < 16 {
                        a@[j].shr_bits(b@[j] as u32)
                    } else {
                        a@[j].sign_fill()
                    }),
        {
            out[i] = if b[i] < 16 { a[i].lane_shr(b[i] as u32) } else { a[i].lane_sign_fill() };
        }
        let r = Simd::new(out);
        proof {
            assert forall|i: int| 0 <= i < N implies (#[trigger] r@[i]).value() == self@[i].value() / (pow2(
                rhs@[i] as nat,
            ) as int) by {
                lemma_unbounded_shr_value(self@[i], rhs@[i] as nat);
            }
        }
        r
    }
}

/// Lane `i` of `a` shifted left by lane `i` of `b` modulo the lane
/// width.
pub open spec fn u32_shl_by<const N: usize>(a: Simd<u32, N>, b: Simd<u32, N>) -> Simd<u32, N> {
    from_lanes(Seq::new(N as nat, |i: int| a@[i].shl_bits((b@[i] % 32) as u32)))
}

impl<const N: usize> core::ops::Shl<Simd<u32, N>> for Simd<u32, N> {
    type Output = Self;

    /// Shifts each lane left by the matching lane of `rhs` modulo the
    /// lane width.
    fn shl(self, rhs: Simd<u32, N>) -> (r: Self)
        ensures
            r == u32_shl_by(self, rhs),
            forall|i: int| 0 <= i < N ==> #[trigger] r@[i] == self@[i].shl_bits((rhs@[i] % 32) as u32),
    {
        let a = self.to_array();
        let b = rhs.to_array();
        let mut out = a;
        for i in 0..N
            invariant
                a@ == self@,
                b@ == rhs@,
                forall|j: int| 0 <= j < i ==> #[trigger] out@[j] == a@[j].shl_bits((b@[j] % 32) as u32),
        {
            out[i] = a[i].lane_shl((b[i] % 32) as u32);
        }
        let r = Simd::new(out);
        proof {
            let s = Seq::new(N as nat, |i: int| self@[i].shl_bits((rhs@[i] % 32) as u32));
            assert(r@ =~= s);
            lemma_is_from_lanes(r, s);
        }
        r
    }
}

impl<const N: usize> ShlSpecImpl<Simd<u32, N>> for Simd<u32, N> {
    open spec fn obeys_shl_spec() -> bool {
        true
    }

    open spec fn shl_req(self, rhs: Simd<u32, N>) -> bool {
        true
    }

    open spec fn shl_spec(self, rhs: Simd<u32, N>) -> Self {
        u32_shl_by(self, rhs)
    }
}

/// Lane `i` of `a` shifted right by lane `i` of `b` modulo the lane
/// width.
pub open spec fn u32_shr_by<const N: usize>(a: Simd<u32, N>, b: Simd<u32, N>) -> Simd<u32, N> {
    from_lanes(Seq::new(N as nat, |i: int| a@[i].shr_bits((b@[i] % 32) as u32)))
}

impl<const N: usize> core::ops::Shr<Simd<u32, N>> for Simd<u32, N> {
    type Output = Self;

    /// Shifts each lane right by the matching lane of `rhs` modulo the
    /// lane width.
    fn shr(self, rhs: Simd<u32, N>) -> (r: Self)
        ensures
            r == u32_shr_by(self, rhs),
            forall|i: int| 0 <= i < N ==> #[trigger] r@[i] == self@[i].shr_bits((rhs@[i] % 32) as u32),
    {
        let a = self.to_array();
        let b = rhs.to_array();
        let mut out = a;
        for i in 0..N
            invariant
                a@ == self@,
                b@ == rhs@,
                forall|j: int| 0 <= j < i ==> #[trigger] out@[j] == a@[j].shr_bits((b@[j] % 32) as u32),
        {
            out[i] = a[i].lane_shr((b[i] % 32) as u32);
        }
        let r = Simd::new(out);
        proof {
            let s = Seq::new(N as nat, |i: int| self@[i].shr_bits((rhs@[i] % 32) as u32));
            assert(r@ =~= s);
            lemma_is_from_lanes(r, s);
        }
        r
    }
}

impl<const N: usize> ShrSpecImpl<Simd<u32, N>> for Simd<u32, N> {
    open spec fn obeys_shr_spec() -> bool {
        true
    }

    open spec fn shr_req(self, rhs: Simd<u32, N>) -> bool {
        true
    }

    open spec fn shr_spec(self, rhs: Simd<u32, N>) -> Self {
        u32_shr_by(self, rhs)
    }
}

impl<const N: usize> Simd<u32, N> {
    /// Shifts each lane left by the matching lane of `rhs`; an amount of the
    /// lane width or more shifts out all bits, giving zero.
    pub fn unbounded_shl(self, rhs: Simd<u32, N>) -> (r: Self)
        ensures
            forall|i: int|
                0 <= i < N ==> #[trigger] r@[i] == (if rhs@[i] < 32 {
                    self@[i].shl_bits(rhs@[i] as u32)
                } else {
                    0u32
                }),
            forall|i: int|
                0 <= i < N ==> (#[trigger] r@[i]).value() == wrapped::<u32>(
                    self@[i].value() * pow2(rhs@[i] as nat),
                ),
    {
        let a = self.to_array();
        let b = rhs.to_array();
        let mut out = a;
        for i in 0..N
            invariant
                a@ == self@,
                b@ == rhs@,
                forall|j: int|
                    0 <= j < i ==> #[trigger] out@[j] == (if b@[j] < 32 {
                        a@[j].shl_bits(b@[j] as u32)
                    } else {
                        0u32
                    }),
        {
            out[i] = if b[i] < 32 { a[i].lane_shl(b[i] as u32) } else { 0 };
        }
        let r = Simd::new(out);
        proof {
            assert forall|i: int| 0 <= i < N implies (#[trigger] r@[i]).value() == wrapped::<u32>(
                self@[i].value() * pow2(rhs@[i] as nat),
            ) by {
                lemma_unbounded_shl_value(self@[i], rhs@[i] as nat);
            }
        }
        r
    }

    /// Shifts each lane right by the matching lane of `rhs`; an amount
    /// of the lane width or more shifts out all bits, leaving zero.
    pub fn unbounded_shr(self, rhs: Simd<u32, N>) -> (r: Self)
        ensures
            forall|i: int|
                0 <= i < N ==> #[trigger] r@[i] == (if rhs@[i] < 32 {
                    self@[i].shr_bits(rhs@[i] as u32)
                } else {
                    self@[i].sign_fill()
                }),
            forall|i: int|
                0 <= i < N ==> (#[trigger] r@[i]).value() == self@[i].value() / (pow2(rhs@[i] as nat) as int),
    {
        let a = self.to_array();
        let b = rhs.to_array();
        let mut out = a;
        for i in 0..N
            invariant
                a@ == self@,
                b@ == rhs@,
                forall|j: int|
                    0 <= j < i ==> #[trigger] out@[j] == (if b@[j] < 32 {
                        a@[j].shr_bits(b@[j] as u32)
                    } else {
                        a@[j].sign_fill()
                    }),
        {
            out[i] = if b[i] < 32 { a[i].lane_shr(b[i] as u32) } else { a[i].lane_sign_fill() };
        }
        let r = Simd::new(out);
        proof {
            assert forall|i: int| 0 <= i < N implies (#[trigger] r@[i]).value() == self@[i].value() / (pow2(
                rhs@[i] as nat,
            ) as int) by {
                lemma_unbounded_shr_value(self@[i], rhs@[i] as nat);
            }
        }
        r
    }
}

/// Lane `i` of `a` shifted left by lane `i` of `b` modulo the lane
/// width.
pub open spec fn u64_shl_by<const N: usize>(a: Simd<u64, N>, b: Simd<u64, N>) -> Simd<u64, N> {
    from_lanes(Seq::new(N as nat, |i: int| a@[i].shl_bits((b@[i] % 64) as u32)))
}

impl<const N: usize> core::ops::Shl<Simd<u64, N>> for Simd<u64, N> {
    type Output = Self;

    /// Shifts each lane left by the matching lane of `rhs` modulo the
    /// lane width.
    fn shl(self, rhs: Simd<u64, N>) -> (r: Self)
        ensures
            r == u64_shl_by(self, rhs),
            forall|i: int| 0 <= i < N ==> #[trigger] r@[i] == self@[i].shl_bits((rhs@[i] % 64) as u32),
    {
        let a = self.to_array();
        let b = rhs.to_array();
        let mut out = a;
        for i in 0..N
            invariant
                a@ == self@,
                b@ == rhs@,
                forall|j: int| 0 <= j < i ==> #[trigger] out@[j] == a@[j].shl_bits((b@[j] % 64) as u32),
        {
            out[i] = a[i].lane_shl((b[i] % 64) as u32);
        }
        let r = Simd::new(out);
        proof {
            let s = Seq::new(N as nat, |i: int| self@[i].shl_bits((rhs@[i] % 64) as u32));
            assert(r@ =~= s);
            lemma_is_from_lanes(r, s);
        }
        r
    }
}

impl<const N: usize> ShlSpecImpl<Simd<u64, N>> for Simd<u64, N> {
    open spec fn obeys_shl_spec() -> bool {
        true
    }

    open spec fn shl_req(self, rhs: Simd<u64, N>) -> bool {
        true
    }

    open spec fn shl_spec(self, rhs: Simd<u64, N>) -> Self {
        u64_shl_by(self, rhs)
    }
}

/// Lane `i` of `a` shifted right by lane `i` of `b` modulo the lane
/// width.
pub open spec fn u64_shr_by<const N: usize>(a: Simd<u64, N>, b: Simd<u64, N>) -> Simd<u64, N> {
    from_lanes(Seq::new(N as nat, |i: int| a@[i].shr_bits((b@[i] % 64) as u32)))
}

impl<const N: usize> core::ops::Shr<Simd<u64, N>> for Simd<u64, N> {
    type Output = Self;

    /// Shifts each lane right by the matching lane of `rhs` modulo the
    /// lane width.
    fn shr(self, rhs: Simd<u64, N>) -> (r: Self)
        ensures
            r == u64_shr_by(self, rhs),
            forall|i: int| 0 <= i < N ==> #[trigger] r@[i] == self@[i].shr_bits((rhs@[i] % 64) as u32),
    {
        let a = self.to_array();
        let b = rhs.to_array();
        let mut out = a;
        for i in 0..N
            invariant
                a@ == self@,
                b@ == rhs@,
                forall|j: int| 0 <= j < i ==> #[trigger] out@[j] == a@[j].shr_bits((b@[j] % 64) as u32),
        {
            out[i] = a[i].lane_shr((b[i] % 64) as u32);
        }
        let r = Simd::new(out);
        proof {
            let s = Seq::new(N as nat, |i: int| self@[i].shr_bits((rhs@[i] % 64) as u32));
            assert(r@ =~= s);
            lemma_is_from_lanes(r, s);
        }
        r
    }
}

impl<const N: usize> ShrSpecImpl<Simd<u64, N>> for Simd<u64, N> {
    open spec fn obeys_shr_spec() -> bool {
        true
    }

    open spec fn shr_req(self, rhs: Simd<u64, N>) -> bool {
        true
    }

    open spec fn shr_spec(self, rhs: Simd<u64, N>) -> Self {
        u64_shr_by(self, rhs)
    }
}

impl<const N: usize> Simd<u64, N> {
    /// Shifts each lane left by the matching lane of `rhs`; an amount of the
    /// lane width or more shifts out all bits, giving zero.
    pub fn unbounded_shl(self, rhs: Simd<u64, N>) -> (r: Self)
        ensures
            forall|i: int|
                0 <= i < N ==> #[trigger] r@[i] == (if rhs@[i] < 64 {
                    self@[i].shl_bits(rhs@[i] as u32)
                } else {
                    0u64
                }),
            forall|i: int|
                0 <= i < N ==> (#[trigger] r@[i]).value() == wrapped::<u64>(
                    self@[i].value() * pow2(rhs@[i] as nat),
                ),
    {
        let a = self.to_array();
        let b = rhs.to_array();
        let mut out = a;
        for i in 0..N
            invariant
                a@ == self@,
                b@ == rhs@,
                forall|j: int|
                    0 <= j < i ==> #[trigger] out@[j] == (if b@[j] < 64 {
                        a@[j].shl_bits(b@[j] as u32)
                    } else {
                        0u64
                    }),
        {
            out[i] = if b[i] < 64 { a[i].lane_shl(b[i] as u32) } else { 0 };
        }
        let r = Simd::new(out);
        proof {
            assert forall|i: int| 0 <= i < N implies (#[trigger] r@[i]).value() == wrapped::<u64>(
                self@[i].value() * pow2(rhs@[i] as nat),
            ) by {
                lemma_unbounded_shl_value(self@[i], rhs@[i] as nat);
            }
        }
        r
    }

    /// Shifts each lane right by the matching lane of `rhs`; an amount
    /// of the lane width or more shifts out all bits, leaving zero.
    pub fn unbounded_shr(self, rhs: Simd<u64, N>) -> (r: Self)
        ensures
            forall|i: int|
                0 <= i < N ==> #[trigger] r@[i] == (if rhs@[i] < 64 {
                    self@[i].shr_bits(rhs@[i] as u32)
                } else {
                    self@[i].sign_fill()
                }),
            forall|i: int|
                0 <= i < N ==> (#[trigger] r@[i]).value() == self@[i].value() / (pow2(rhs@[i] as nat) as int),
    {
        let a = self.to_array();
        let b = rhs.to_array();
        let mut out = a;
        for i in 0..N
            invariant
                a@ == self@,
                b@ == rhs@,
                forall|j: int|
                    0 <= j < i ==> #[trigger] out@[j] == (if b@[j] < 64 {
                        a@[j].shr_bits(b@[j] as u32)
                    } else {
                        a@[j].sign_fill()
                    }),
        {
            out[i] = if b[i] < 64 { a[i].lane_shr(b[i] as u32) } else { a[i].lane_sign_fill() };
        }
        let r = Simd::new(out);
        proof {
            assert forall|i: int| 0 <= i < N implies (#[trigger] r@[i]).value() == self@[i].value() / (pow2(
                rhs@[i] as nat,
            ) as int) by {
                lemma_unbounded_shr_value(self@[i], rhs@[i] as nat);
            }
        }
        r
    }
}

} // verus!
