//! The arithmetic and bitwise operators on SIMD vectors. Integer
//! arithmetic wraps around, as the vector instructions do.

use vstd::prelude::*;

use vstd::std_specs::ops::{
    NegSpecImpl,
    NotSpecImpl,
    AddSpecImpl,
    SubSpecImpl,
    MulSpecImpl,
    DivSpecImpl,
    RemSpecImpl,
    BitAndSpecImpl,
    BitOrSpecImpl,
    BitXorSpecImpl,
    ShlSpecImpl,
    ShrSpecImpl,
};

use crate::element::{SimdElement, wrapped, lane_of, lemma_lane_of, trunc_div, trunc_rem};
use crate::simd::{Simd, from_lanes, splatted, lemma_is_from_lanes};

verus! {

/// The vector whose lane `i` is `a[i] + b[i]`, wrapped into the lane type.
pub open spec fn wrapping_sum<T: SimdElement, const N: usize>(a: Simd<T, N>, b: Simd<T, N>) -> Simd<T, N> {
    from_lanes(Seq::new(N as nat, |i: int| lane_of::<T>(a@[i].value() + b@[i].value())))
}

impl<T: SimdElement, const N: usize> core::ops::Add for Simd<T, N> {
    type Output = Self;

    /// Computes addition for each element of `self` and the corresponding element
    /// of `rhs`, with wrapping arithmetic.
    fn add(self, rhs: Self) -> (r: Self)
        ensures
            r == wrapping_sum(self, rhs),
            forall|i: int|
                0 <= i < N ==> (#[trigger] r@[i]).value() == wrapped::<T>(self@[i].value() + rhs@[i].value()),
    {
        let a = self.to_array();
        let b = rhs.to_array();
        let mut out = a;
        for i in 0..N
            invariant
                a@ == self@,
                b@ == rhs@,
                forall|j: int|
                    0 <= j < i ==> #[trigger] out@[j] == lane_of::<T>(a@[j].value() + b@[j].value()),
        {
            let x = a[i].lane_add(b[i]);
            proof {
                lemma_lane_of::<T>(a@[i as int].value() + b@[i as int].value());
                T::lemma_value(x, lane_of::<T>(a@[i as int].value() + b@[i as int].value()));
            }
            out[i] = x;
        }
        let r = Simd::new(out);
        proof {
            let s = Seq::new(N as nat, |i: int| lane_of::<T>(self@[i].value() + rhs@[i].value()));
            assert(r@ =~= s);
            lemma_is_from_lanes(r, s);
            assert forall|i: int| 0 <= i < N implies (#[trigger] r@[i]).value() == wrapped::<T>(
                self@[i].value() + rhs@[i].value(),
            ) by {
                lemma_lane_of::<T>(self@[i].value() + rhs@[i].value());
            }
        }
        r
    }
}

impl<T: SimdElement, const N: usize> AddSpecImpl for Simd<T, N> {
    open spec fn obeys_add_spec() -> bool {
        true
    }

    open spec fn add_req(self, rhs: Self) -> bool {
        true
    }

    open spec fn add_spec(self, rhs: Self) -> Self {
        wrapping_sum(self, rhs)
    }
}

/// The vector whose lane `i` is `a[i] - b[i]`, wrapped into the lane type.
pub open spec fn wrapping_difference<T: SimdElement, const N: usize>(a: Simd<T, N>, b: Simd<T, N>) -> Simd<T, N> {
    from_lanes(Seq::new(N as nat, |i: int| lane_of::<T>(a@[i].value() - b@[i].value())))
}

impl<T: SimdElement, const N: usize> core::ops::Sub for Simd<T, N> {
    type Output = Self;

    /// Computes subtraction for each element of `self` and the corresponding
    /// element of `rhs`, with wrapping arithmetic.
    fn sub(self, rhs: Self) -> (r: Self)
        ensures
            r == wrapping_difference(self, rhs),
            forall|i: int|
                0 <= i < N ==> (#[trigger] r@[i]).value() == wrapped::<T>(self@[i].value() - rhs@[i].value()),
    {
        let a = self.to_array();
        let b = rhs.to_array();
        let mut out = a;
        for i in 0..N
            invariant
                a@ == self@,
                b@ == rhs@,
                forall|j: int|
                    0 <= j < i ==> #[trigger] out@[j] == lane_of::<T>(a@[j].value() - b@[j].value()),
        {
            let x = a[i].lane_sub(b[i]);
            proof {
                lemma_lane_of::<T>(a@[i as int].value() - b@[i as int].value());
                T::lemma_value(x, lane_of::<T>(a@[i as int].value() - b@[i as int].value()));
            }
            out[i] = x;
        }
        let r = Simd::new(out);
        proof {
            let s = Seq::new(N as nat, |i: int| lane_of::<T>(self@[i].value() - rhs@[i].value()));
            assert(r@ =~= s);
            lemma_is_from_lanes(r, s);
            assert forall|i: int| 0 <= i < N implies (#[trigger] r@[i]).value() == wrapped::<T>(
                self@[i].value() - rhs@[i].value(),
            ) by {
                lemma_lane_of::<T>(self@[i].value() - rhs@[i].value());
            }
        }
        r
    }
}

impl<T: SimdElement, const N: usize> SubSpecImpl for Simd<T, N> {
    open spec fn obeys_sub_spec() -> bool {
        true
    }

    open spec fn sub_req(self, rhs: Self) -> bool {
        true
    }

    open spec fn sub_spec(self, rhs: Self) -> Self {
        wrapping_difference(self, rhs)
    }
}

/// The vector whose lane `i` is `a[i] * b[i]`, wrapped into the lane type.
pub open spec fn wrapping_product<T: SimdElement, const N: usize>(a: Simd<T, N>, b: Simd<T, N>) -> Simd<T, N> {
    from_lanes(Seq::new(N as nat, |i: int| lane_of::<T>(a@[i].value() * b@[i].value())))
}

impl<T: SimdElement, const N: usize> core::ops::Mul for Simd<T, N> {
    type Output = Self;

    /// Computes multiplication for each element of `self` and the corresponding
    /// element of `rhs`, with wrapping arithmetic.
    fn mul(self, rhs: Self) -> (r: Self)
        ensures
            r == wrapping_product(self, rhs),
            forall|i: int|
                0 <= i < N ==> (#[trigger] r@[i]).value() == wrapped::<T>(self@[i].value() * rhs@[i].value()),
    {
        let a = self.to_array();
        let b = rhs.to_array();
        let mut out = a;
        for i in 0..N
            invariant
                a@ == self@,
                b@ == rhs@,
                forall|j: int|
                    0 <= j < i ==> #[trigger] out@[j] == lane_of::<T>(a@[j].value() * b@[j].value()),
        {
            let x = a[i].lane_mul(b[i]);
            proof {
                lemma_lane_of::<T>(a@[i as int].value() * b@[i as int].value());
                T::lemma_value(x, lane_of::<T>(a@[i as int].value() * b@[i as int].value()));
            }
            out[i] = x;
        }
        let r = Simd::new(out);
        proof {
            let s = Seq::new(N as nat, |i: int| lane_of::<T>(self@[i].value() * rhs@[i].value()));
            assert(r@ =~= s);
            lemma_is_from_lanes(r, s);
            assert forall|i: int| 0 <= i < N implies (#[trigger] r@[i]).value() == wrapped::<T>(
                self@[i].value() * rhs@[i].value(),
            ) by {
                lemma_lane_of::<T>(self@[i].value() * rhs@[i].value());
            }
        }
        r
    }
}

impl<T: SimdElement, const N: usize> MulSpecImpl for Simd<T, N> {
    open spec fn obeys_mul_spec() -> bool {
        true
    }

    open spec fn mul_req(self, rhs: Self) -> bool {
        true
    }

    open spec fn mul_spec(self, rhs: Self) -> Self {
        wrapping_product(self, rhs)
    }
}

/// The vector whose lane `i` is the bitwise AND of `a[i]` and `b[i]`.
pub open spec fn lanewise_and<T: SimdElement, const N: usize>(a: Simd<T, N>, b: Simd<T, N>) -> Simd<T, N> {
    from_lanes(Seq::new(N as nat, |i: int| a@[i].bit_and(b@[i])))
}

impl<T: SimdElement, const N: usize> core::ops::BitAnd for Simd<T, N> {
    type Output = Self;

    /// Computes bitwise AND for each element of `self` and the corresponding
    /// element of `rhs`.
    fn bitand(self, rhs: Self) -> (r: Self)
        ensures
            r == lanewise_and(self, rhs),
            forall|i: int| 0 <= i < N ==> #[trigger] r@[i] == self@[i].bit_and(rhs@[i]),
    {
        let a = self.to_array();
        let b = rhs.to_array();
        let mut out = a;
        for i in 0..N
            invariant
                a@ == self@,
                b@ == rhs@,
                forall|j: int| 0 <= j < i ==> #[trigger] out@[j] == a@[j].bit_and(b@[j]),
        {
            out[i] = a[i].lane_and(b[i]);
        }
        let r = Simd::new(out);
        proof {
            let s = Seq::new(N as nat, |i: int| self@[i].bit_and(rhs@[i]));
            assert(r@ =~= s);
            lemma_is_from_lanes(r, s);
        }
        r
    }
}

impl<T: SimdElement, const N: usize> BitAndSpecImpl for Simd<T, N> {
    open spec fn obeys_bitand_spec() -> bool {
        true
    }

    open spec fn bitand_req(self, rhs: Self) -> bool {
        true
    }

    open spec fn bitand_spec(self, rhs: Self) -> Self {
        lanewise_and(self, rhs)
    }
}

/// The vector whose lane `i` is the bitwise OR of `a[i]` and `b[i]`.
pub open spec fn lanewise_or<T: SimdElement, const N: usize>(a: Simd<T, N>, b: Simd<T, N>) -> Simd<T, N> {
    from_lanes(Seq::new(N as nat, |i: int| a@[i].bit_or(b@[i])))
}

impl<T: SimdElement, const N: usize> core::ops::BitOr for Simd<T, N> {
    type Output = Self;

    /// Computes bitwise OR for each element of `self` and the corresponding
    /// element of `rhs`.
    fn bitor(self, rhs: Self) -> (r: Self)
        ensures
            r == lanewise_or(self, rhs),
            forall|i: int| 0 <= i < N ==> #[trigger] r@[i] == self@[i].bit_or(rhs@[i]),
    {
        let a = self.to_array();
        let b = rhs.to_array();
        let mut out = a;
        for i in 0..N
            invariant
                a@ == self@,
                b@ == rhs@,
                forall|j: int| 0 <= j < i ==> #[trigger] out@[j] == a@[j].bit_or(b@[j]),
        {
            out[i] = a[i].lane_or(b[i]);
        }
        let r = Simd::new(out);
        proof {
            let s = Seq::new(N as nat, |i: int| self@[i].bit_or(rhs@[i]));
            assert(r@ =~= s);
            lemma_is_from_lanes(r, s);
        }
        r
    }
}

impl<T: SimdElement, const N: usize> BitOrSpecImpl for Simd<T, N> {
    open spec fn obeys_bitor_spec() -> bool {
        true
    }

    open spec fn bitor_req(self, rhs: Self) -> bool {
        true
    }

    open spec fn bitor_spec(self, rhs: Self) -> Self {
        lanewise_or(self, rhs)
    }
}

/// The vector whose lane `i` is the bitwise XOR of `a[i]` and `b[i]`.
pub open spec fn lanewise_xor<T: SimdElement, const N: usize>(a: Simd<T, N>, b: Simd<T, N>) -> Simd<T, N> {
    from_lanes(Seq::new(N as nat, |i: int| a@[i].bit_xor(b@[i])))
}

impl<T: SimdElement, const N: usize> core::ops::BitXor for Simd<T, N> {
    type Output = Self;

    /// Computes bitwise XOR for each element of `self` and the corresponding
    /// element of `rhs`.
    fn bitxor(self, rhs: Self) -> (r: Self)
        ensures
            r == lanewise_xor(self, rhs),
            forall|i: int| 0 <= i < N ==> #[trigger] r@[i] == self@[i].bit_xor(rhs@[i]),
    {
        let a = self.to_array();
        let b = rhs.to_array();
        let mut out = a;
        for i in 0..N
            invariant
                a@ == self@,
                b@ == rhs@,
                forall|j: int| 0 <= j < i ==> #[trigger] out@[j] == a@[j].bit_xor(b@[j]),
        {
            out[i] = a[i].lane_xor(b[i]);
        }
        let r = Simd::new(out);
        proof {
            let s = Seq::new(N as nat, |i: int| self@[i].bit_xor(rhs@[i]));
            assert(r@ =~= s);
            lemma_is_from_lanes(r, s);
        }
        r
    }
}

impl<T: SimdElement, const N: usize> BitXorSpecImpl for Simd<T, N> {
    open spec fn obeys_bitxor_spec() -> bool {
        true
    }

    open spec fn bitxor_req(self, rhs: Self) -> bool {
        true
    }

    open spec fn bitxor_spec(self, rhs: Self) -> Self {
        lanewise_xor(self, rhs)
    }
}

/// The vector whose lane `i` is `-a[i]`, wrapped into the lane type.
pub open spec fn wrapping_negation<T: SimdElement, const N: usize>(a: Simd<T, N>) -> Simd<T, N> {
    from_lanes(Seq::new(N as nat, |i: int| lane_of::<T>(-a@[i].value())))
}

impl<T: SimdElement, const N: usize> core::ops::Neg for Simd<T, N> {
    type Output = Self;

    /// Negates each element of `self`, with wrapping arithmetic (also for
    /// unsigned lanes).
    fn neg(self) -> (r: Self)
        ensures
            r == wrapping_negation(self),
            forall|i: int| 0 <= i < N ==> (#[trigger] r@[i]).value() == wrapped::<T>(-self@[i].value()),
    {
        let a = self.to_array();
        let mut out = a;
        for i in 0..N
            invariant
                a@ == self@,
                forall|j: int| 0 <= j < i ==> #[trigger] out@[j] == lane_of::<T>(-a@[j].value()),
        {
            let x = a[i].lane_neg();
            proof {
                lemma_lane_of::<T>(-a@[i as int].value());
                T::lemma_value(x, lane_of::<T>(-a@[i as int].value()));
            }
            out[i] = x;
        }
        let r = Simd::new(out);
        proof {
            let s = Seq::new(N as nat, |i: int| lane_of::<T>(-self@[i].value()));
            assert(r@ =~= s);
            lemma_is_from_lanes(r, s);
            assert forall|i: int| 0 <= i < N implies (#[trigger] r@[i]).value() == wrapped::<T>(-self@[i].value()) by {
                lemma_lane_of::<T>(-self@[i].value());
            }
        }
        r
    }
}

impl<T: SimdElement, const N: usize> NegSpecImpl for Simd<T, N> {
    open spec fn obeys_neg_spec() -> bool {
        true
    }

    open spec fn neg_req(self) -> bool {
        true
    }

    open spec fn neg_spec(self) -> Self {
        wrapping_negation(self)
    }
}

/// The vector whose lane `i` is the bitwise NOT of `a[i]`.
pub open spec fn lanewise_not<T: SimdElement, const N: usize>(a: Simd<T, N>) -> Simd<T, N> {
    from_lanes(Seq::new(N as nat, |i: int| a@[i].bit_not()))
}

impl<T: SimdElement, const N: usize> core::ops::Not for Simd<T, N> {
    type Output = Self;

    /// Flips all bits of all elements.
    fn not(self) -> (r: Self)
        ensures
            r == lanewise_not(self),
            forall|i: int| 0 <= i < N ==> #[trigger] r@[i] == self@[i].bit_not(),
    {
        let a = self.to_array();
        let mut out = a;
        for i in 0..N
            invariant
                a@ == self@,
                forall|j: int| 0 <= j < i ==> #[trigger] out@[j] == a@[j].bit_not(),
        {
            out[i] = a[i].lane_not();
        }
        let r = Simd::new(out);
        proof {
            let s = Seq::new(N as nat, |i: int| self@[i].bit_not());
            assert(r@ =~= s);
            lemma_is_from_lanes(r, s);
        }
        r
    }
}

impl<T: SimdElement, const N: usize> NotSpecImpl for Simd<T, N> {
    open spec fn obeys_not_spec() -> bool {
        true
    }

    open spec fn not_req(self) -> bool {
        true
    }

    open spec fn not_spec(self) -> Self {
        lanewise_not(self)
    }
}

/// The vector whose lane `i` is `a[i]` shifted by `amount` modulo the lane
/// width.
pub open spec fn lanewise_shl<T: SimdElement, const N: usize>(a: Simd<T, N>, amount: u32) -> Simd<T, N> {
    from_lanes(Seq::new(N as nat, |i: int| a@[i].shl_bits(amount)))
}

impl<T: SimdElement, const N: usize> core::ops::Shl<u32> for Simd<T, N> {
    type Output = Self;

    /// Shifts each element of `self` left by `rhs` modulo the lane width.
    fn shl(self, rhs: u32) -> (r: Self)
        ensures
            r == lanewise_shl(self, rhs),
            forall|i: int| 0 <= i < N ==> #[trigger] r@[i] == self@[i].shl_bits(rhs),
    {
        let a = self.to_array();
        let mut out = a;
        for i in 0..N
            invariant
                a@ == self@,
                forall|j: int| 0 <= j < i ==> #[trigger] out@[j] == a@[j].shl_bits(rhs),
        {
            out[i] = a[i].lane_shl(rhs);
        }
        let r = Simd::new(out);
        proof {
            let s = Seq::new(N as nat, |i: int| self@[i].shl_bits(rhs));
            assert(r@ =~= s);
            lemma_is_from_lanes(r, s);
        }
        r
    }
}

impl<T: SimdElement, const N: usize> ShlSpecImpl<u32> for Simd<T, N> {
    open spec fn obeys_shl_spec() -> bool {
        true
    }

    open spec fn shl_req(self, rhs: u32) -> bool {
        true
    }

    open spec fn shl_spec(self, rhs: u32) -> Self {
        lanewise_shl(self, rhs)
    }
}

/// The vector whose lane `i` is `a[i]` shifted by `amount` modulo the lane
/// width.
pub open spec fn lanewise_shr<T: SimdElement, const N: usize>(a: Simd<T, N>, amount: u32) -> Simd<T, N> {
    from_lanes(Seq::new(N as nat, |i: int| a@[i].shr_bits(amount)))
}

impl<T: SimdElement, const N: usize> core::ops::Shr<u32> for Simd<T, N> {
    type Output = Self;

    /// Shifts each element of `self` right by `rhs` modulo the lane width
    /// (an arithmetic shift for signed lanes).
    fn shr(self, rhs: u32) -> (r: Self)
        ensures
            r == lanewise_shr(self, rhs),
            forall|i: int| 0 <= i < N ==> #[trigger] r@[i] == self@[i].shr_bits(rhs),
    {
        let a = self.to_array();
        let mut out = a;
        for i in 0..N
            invariant
                a@ == self@,
                forall|j: int| 0 <= j < i ==> #[trigger] out@[j] == a@[j].shr_bits(rhs),
        {
            out[i] = a[i].lane_shr(rhs);
        }
        let r = Simd::new(out);
        proof {
            let s = Seq::new(N as nat, |i: int| self@[i].shr_bits(rhs));
            assert(r@ =~= s);
            lemma_is_from_lanes(r, s);
        }
        r
    }
}

impl<T: SimdElement, const N: usize> ShrSpecImpl<u32> for Simd<T, N> {
    open spec fn obeys_shr_spec() -> bool {
        true
    }

    open spec fn shr_req(self, rhs: u32) -> bool {
        true
    }

    open spec fn shr_spec(self, rhs: u32) -> Self {
        lanewise_shr(self, rhs)
    }
}

impl<T: SimdElement, const N: usize> core::ops::Add<T> for Simd<T, N> {
    type Output = Self;

    /// Computes addition for each element of `self` and the uniform scalar
    /// `rhs`, with wrapping arithmetic.
    fn add(self, rhs: T) -> (r: Self)
        ensures
            r == wrapping_sum(self, splatted::<T, N>(rhs)),
    {
        let s = Self::splat(rhs);
        core::ops::Add::add(self, s)
    }
}

impl<T: SimdElement, const N: usize> AddSpecImpl<T> for Simd<T, N> {
    open spec fn obeys_add_spec() -> bool {
        true
    }

    open spec fn add_req(self, rhs: T) -> bool {
        true
    }

    open spec fn add_spec(self, rhs: T) -> Self {
        wrapping_sum(self, splatted::<T, N>(rhs))
    }
}

impl<T: SimdElement, const N: usize> core::ops::Sub<T> for Simd<T, N> {
    type Output = Self;

    /// Computes subtraction for each element of `self` and the uniform scalar
    /// `rhs`, with wrapping arithmetic.
    fn sub(self, rhs: T) -> (r: Self)
        ensures
            r == wrapping_difference(self, splatted::<T, N>(rhs)),
    {
        let s = Self::splat(rhs);
        core::ops::Sub::sub(self, s)
    }
}

impl<T: SimdElement, const N: usize> SubSpecImpl<T> for Simd<T, N> {
    open spec fn obeys_sub_spec() -> bool {
        true
    }

    open spec fn sub_req(self, rhs: T) -> bool {
        true
    }

    open spec fn sub_spec(self, rhs: T) -> Self {
        wrapping_difference(self, splatted::<T, N>(rhs))
    }
}

impl<T: SimdElement, const N: usize> core::ops::Mul<T> for Simd<T, N> {
    type Output = Self;

    /// Computes multiplication for each element of `self` and the uniform
    /// scalar `rhs`, with wrapping arithmetic.
    fn mul(self, rhs: T) -> (r: Self)
        ensures
            r == wrapping_product(self, splatted::<T, N>(rhs)),
    {
        let s = Self::splat(rhs);
        core::ops::Mul::mul(self, s)
    }
}

impl<T: SimdElement, const N: usize> MulSpecImpl<T> for Simd<T, N> {
    open spec fn obeys_mul_spec() -> bool {
        true
    }

    open spec fn mul_req(self, rhs: T) -> bool {
        true
    }

    open spec fn mul_spec(self, rhs: T) -> Self {
        wrapping_product(self, splatted::<T, N>(rhs))
    }
}

impl<T: SimdElement, const N: usize> core::ops::BitAnd<T> for Simd<T, N> {
    type Output = Self;

    /// Computes bitwise AND for each element of `self` and the uniform scalar
    /// `rhs`.
    fn bitand(self, rhs: T) -> (r: Self)
        ensures
            r == lanewise_and(self, splatted::<T, N>(rhs)),
    {
        let s = Self::splat(rhs);
        core::ops::BitAnd::bitand(self, s)
    }
}

impl<T: SimdElement, const N: usize> BitAndSpecImpl<T> for Simd<T, N> {
    open spec fn obeys_bitand_spec() -> bool {
        true
    }

    open spec fn bitand_req(self, rhs: T) -> bool {
        true
    }

    open spec fn bitand_spec(self, rhs: T) -> Self {
        lanewise_and(self, splatted::<T, N>(rhs))
    }
}

impl<T: SimdElement, const N: usize> core::ops::BitOr<T> for Simd<T, N> {
    type Output = Self;

    /// Computes bitwise OR for each element of `self` and the uniform scalar
    /// `rhs`.
    fn bitor(self, rhs: T) -> (r: Self)
        ensures
            r == lanewise_or(self, splatted::<T, N>(rhs)),
    {
        let s = Self::splat(rhs);
        core::ops::BitOr::bitor(self, s)
    }
}

impl<T: SimdElement, const N: usize> BitOrSpecImpl<T> for Simd<T, N> {
    open spec fn obeys_bitor_spec() -> bool {
        true
    }

    open spec fn bitor_req(self, rhs: T) -> bool {
        true
    }

    open spec fn bitor_spec(self, rhs: T) -> Self {
        lanewise_or(self, splatted::<T, N>(rhs))
    }
}

impl<T: SimdElement, const N: usize> core::ops::BitXor<T> for Simd<T, N> {
    type Output = Self;

    /// Computes bitwise XOR for each element of `self` and the uniform scalar
    /// `rhs`.
    fn bitxor(self, rhs: T) -> (r: Self)
        ensures
            r == lanewise_xor(self, splatted::<T, N>(rhs)),
    {
        let s = Self::splat(rhs);
        core::ops::BitXor::bitxor(self, s)
    }
}

impl<T: SimdElement, const N: usize> BitXorSpecImpl<T> for Simd<T, N> {
    open spec fn obeys_bitxor_spec() -> bool {
        true
    }

    open spec fn bitxor_req(self, rhs: T) -> bool {
        true
    }

    open spec fn bitxor_spec(self, rhs: T) -> Self {
        lanewise_xor(self, splatted::<T, N>(rhs))
    }
}

/// No lane of `b` is zero: the condition under which `b` can divide.
pub open spec fn nonzero_lanes<T: SimdElement, const N: usize>(b: Simd<T, N>) -> bool {
    forall|i: int| 0 <= i < N ==> (#[trigger] b@[i]).value() != 0
}

/// The vector whose lane `i` is `a[i] / b[i]` rounded toward zero, wrapped
/// into the lane type.
pub open spec fn wrapping_quotient<T: SimdElement, const N: usize>(a: Simd<T, N>, b: Simd<T, N>) -> Simd<T, N> {
    from_lanes(Seq::new(N as nat, |i: int| lane_of::<T>(trunc_div(a@[i].value(), b@[i].value()))))
}

/// The vector whose lane `i` is the remainder of `a[i] / b[i]` rounded
/// toward zero.
pub open spec fn truncated_remainder<T: SimdElement, const N: usize>(a: Simd<T, N>, b: Simd<T, N>) -> Simd<T, N> {
    from_lanes(Seq::new(N as nat, |i: int| lane_of::<T>(trunc_rem(a@[i].value(), b@[i].value()))))
}

impl<T: SimdElement, const N: usize> core::ops::Div for Simd<T, N> {
    type Output = Self;

    /// Computes division for each element of `self` and the corresponding
    /// element of `rhs`, rounded toward zero, with wrapping arithmetic (the
    /// minimum divided by -1 is the minimum). No element of `rhs` may be zero.
    fn div(self, rhs: Self) -> (r: Self)
        ensures
            r == wrapping_quotient(self, rhs),
            forall|i: int|
                0 <= i < N ==> (#[trigger] r@[i]).value() == wrapped::<T>(
                    trunc_div(self@[i].value(), rhs@[i].value()),
                ),
    {
        let a = self.to_array();
        let b = rhs.to_array();
        let mut out = a;
        for i in 0..N
            invariant
                a@ == self@,
                b@ == rhs@,
                nonzero_lanes(rhs),
                forall|j: int|
                    0 <= j < i ==> #[trigger] out@[j] == lane_of::<T>(trunc_div(a@[j].value(), b@[j].value())),
        {
            assert(b@[i as int].value() != 0);
            let x = a[i].lane_div(b[i]);
            proof {
                lemma_lane_of::<T>(trunc_div(a@[i as int].value(), b@[i as int].value()));
                T::lemma_value(x, lane_of::<T>(trunc_div(a@[i as int].value(), b@[i as int].value())));
            }
            out[i] = x;
        }
        let r = Simd::new(out);
        proof {
            let s = Seq::new(N as nat, |i: int| lane_of::<T>(trunc_div(self@[i].value(), rhs@[i].value())));
            assert(r@ =~= s);
            lemma_is_from_lanes(r, s);
            assert forall|i: int| 0 <= i < N implies (#[trigger] r@[i]).value() == wrapped::<T>(
                trunc_div(self@[i].value(), rhs@[i].value()),
            ) by {
                lemma_lane_of::<T>(trunc_div(self@[i].value(), rhs@[i].value()));
            }
        }
        r
    }
}

impl<T: SimdElement, const N: usize> DivSpecImpl for Simd<T, N> {
    open spec fn obeys_div_spec() -> bool {
        true
    }

    open spec fn div_req(self, rhs: Self) -> bool {
        nonzero_lanes(rhs)
    }

    open spec fn div_spec(self, rhs: Self) -> Self {
        wrapping_quotient(self, rhs)
    }
}

impl<T: SimdElement, const N: usize> core::ops::Rem for Simd<T, N> {
    type Output = Self;

    /// Computes remainder for each element of `self` and the corresponding
    /// element of `rhs`, of the division rounded toward zero (the result has
    /// the sign of `self`). No element of `rhs` may be zero.
    fn rem(self, rhs: Self) -> (r: Self)
        ensures
            r == truncated_remainder(self, rhs),
            forall|i: int|
                0 <= i < N ==> (#[trigger] r@[i]).value() == trunc_rem(self@[i].value(), rhs@[i].value()),
    {
        let a = self.to_array();
        let b = rhs.to_array();
        let mut out = a;
        for i in 0..N
            invariant
                a@ == self@,
                b@ == rhs@,
                nonzero_lanes(rhs),
                forall|j: int|
                    0 <= j < i ==> (#[trigger] out@[j]).value() == trunc_rem(a@[j].value(), b@[j].value()),
        {
            assert(b@[i as int].value() != 0);
            out[i] = a[i].lane_rem(b[i]);
        }
        let r = Simd::new(out);
        proof {
            let s = Seq::new(N as nat, |i: int| lane_of::<T>(trunc_rem(self@[i].value(), rhs@[i].value())));
            assert forall|i: int| 0 <= i < N implies r@[i] == s[i] by {
                let v = trunc_rem(self@[i].value(), rhs@[i].value());
                T::lemma_range();
                T::lemma_value(r@[i], r@[i]);
                vstd::arithmetic::div_mod::lemma_small_mod((v - T::min_value()) as nat, T::modulus() as nat);
                lemma_lane_of::<T>(v);
                T::lemma_value(r@[i], lane_of::<T>(v));
            }
            assert(r@ =~= s);
            lemma_is_from_lanes(r, s);
        }
        r
    }
}

impl<T: SimdElement, const N: usize> RemSpecImpl for Simd<T, N> {
    open spec fn obeys_rem_spec() -> bool {
        true
    }

    open spec fn rem_req(self, rhs: Self) -> bool {
        nonzero_lanes(rhs)
    }

    open spec fn rem_spec(self, rhs: Self) -> Self {
        truncated_remainder(self, rhs)
    }
}

impl<T: SimdElement, const N: usize> core::ops::Div<T> for Simd<T, N> {
    type Output = Self;

    /// Computes division for each element of `self` and the uniform scalar
    /// `rhs`, rounded toward zero, with wrapping arithmetic. `rhs` may not be
    /// zero.
    fn div(self, rhs: T) -> (r: Self)
        ensures
            r == wrapping_quotient(self, splatted::<T, N>(rhs)),
    {
        let s = Self::splat(rhs);
        core::ops::Div::div(self, s)
    }
}

impl<T: SimdElement, const N: usize> DivSpecImpl<T> for Simd<T, N> {
    open spec fn obeys_div_spec() -> bool {
        true
    }

    open spec fn div_req(self, rhs: T) -> bool {
        rhs.value() != 0
    }

    open spec fn div_spec(self, rhs: T) -> Self {
        wrapping_quotient(self, splatted::<T, N>(rhs))
    }
}

impl<T: SimdElement, const N: usize> core::ops::Rem<T> for Simd<T, N> {
    type Output = Self;

    /// Computes remainder for each element of `self` and the uniform scalar
    /// `rhs`, of the division rounded toward zero. `rhs` may not be zero.
    fn rem(self, rhs: T) -> (r: Self)
        ensures
            r == truncated_remainder(self, splatted::<T, N>(rhs)),
    {
        let s = Self::splat(rhs);
        core::ops::Rem::rem(self, s)
    }
}

impl<T: SimdElement, const N: usize> RemSpecImpl<T> for Simd<T, N> {
    open spec fn obeys_rem_spec() -> bool {
        true
    }

    open spec fn rem_req(self, rhs: T) -> bool {
        rhs.value() != 0
    }

    open spec fn rem_spec(self, rhs: T) -> Self {
        truncated_remainder(self, splatted::<T, N>(rhs))
    }
}

} // verus!
