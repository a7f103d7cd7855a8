//! Lane-wise integer operations beyond the operators: minimum and maximum,
//! saturating arithmetic, and sign tests.

use vstd::prelude::*;

use crate::element::{SimdElement, clamped, wrapped, mask_lane};
use crate::primitive_traits::PrimitiveSigned;
use crate::simd::{Simd, from_lanes, lemma_is_from_lanes};

verus! {

broadcast use crate::simd::lemma_simd_len;

/// The lane-wise maximum of `a` and `b`.
pub open spec fn lanewise_max<T: SimdElement, const N: usize>(a: Simd<T, N>, b: Simd<T, N>) -> Simd<T, N> {
    from_lanes(Seq::new(N as nat, |i: int| if a@[i].value() < b@[i].value() { b@[i] } else { a@[i] }))
}

/// The lane-wise minimum of `a` and `b`.
pub open spec fn lanewise_min<T: SimdElement, const N: usize>(a: Simd<T, N>, b: Simd<T, N>) -> Simd<T, N> {
    from_lanes(Seq::new(N as nat, |i: int| if b@[i].value() < a@[i].value() { b@[i] } else { a@[i] }))
}

impl<T: SimdElement, const N: usize> Simd<T, N> {
    /// The lane-wise maximum of `self` and `rhs`.
    pub fn max(self, rhs: Self) -> (r: Self)
        ensures
            r == lanewise_max(self, rhs),
            forall|i: int|
                0 <= i < N ==> #[trigger] r@[i] == (if self@[i].value() < rhs@[i].value() {
                    rhs@[i]
                } else {
                    self@[i]
                }),
    {
        let a = self.to_array();
        let b = rhs.to_array();
        let mut out = a;
        for i in 0..N
            invariant
                a@ == self@,
                b@ == rhs@,
                forall|j: int|
                    0 <= j < i ==> #[trigger] out@[j] == (if a@[j].value() < b@[j].value() {
                        b@[j]
                    } else {
                        a@[j]
                    }),
        {
            out[i] = if a[i].lane_lt(b[i]) { b[i] } else { a[i] };
        }
        let r = Simd::new(out);
        proof {
            let s = Seq::new(
                N as nat,
                |i: int| if self@[i].value() < rhs@[i].value() { rhs@[i] } else { self@[i] },
            );
            assert(r@ =~= s);
            lemma_is_from_lanes(r, s);
        }
        r
    }

    /// The lane-wise minimum of `self` and `rhs`.
    pub fn min(self, rhs: Self) -> (r: Self)
        ensures
            r == lanewise_min(self, rhs),
            forall|i: int|
                0 <= i < N ==> #[trigger] r@[i] == (if rhs@[i].value() < self@[i].value() {
                    rhs@[i]
                } else {
                    self@[i]
                }),
    {
        let a = self.to_array();
        let b = rhs.to_array();
        let mut out = a;
        for i in 0..N
            invariant
                a@ == self@,
                b@ == rhs@,
                forall|j: int|
                    0 <= j < i ==> #[trigger] out@[j] == (if b@[j].value() < a@[j].value() {
                        b@[j]
                    } else {
                        a@[j]
                    }),
        {
            out[i] = if b[i].lane_lt(a[i]) { b[i] } else { a[i] };
        }
        let r = Simd::new(out);
        proof {
            let s = Seq::new(
                N as nat,
                |i: int| if rhs@[i].value() < self@[i].value() { rhs@[i] } else { self@[i] },
            );
            assert(r@ =~= s);
            lemma_is_from_lanes(r, s);
        }
        r
    }

    /// The largest element of `self`.
    pub fn reduce_max(self) -> (r: T)
        requires
            N > 0,
        ensures
            exists|i: int| 0 <= i < N && self@[i] == r,
            forall|i: int| 0 <= i < N ==> (#[trigger] self@[i]).value() <= r.value(),
    {
        let a = self.to_array();
        let mut best = a[0];
        for i in 1..N
            invariant
                N > 0,
                a@ == self@,
                exists|j: int| 0 <= j < i && a@[j] == best,
                forall|j: int| 0 <= j < i ==> (#[trigger] a@[j]).value() <= best.value(),
        {
            if best.lane_lt(a[i]) {
                best = a[i];
            }
        }
        best
    }

    /// The smallest element of `self`.
    pub fn reduce_min(self) -> (r: T)
        requires
            N > 0,
        ensures
            exists|i: int| 0 <= i < N && self@[i] == r,
            forall|i: int| 0 <= i < N ==> r.value() <= (#[trigger] self@[i]).value(),
    {
        let a = self.to_array();
        let mut best = a[0];
        for i in 1..N
            invariant
                N > 0,
                a@ == self@,
                exists|j: int| 0 <= j < i && a@[j] == best,
                forall|j: int| 0 <= j < i ==> best.value() <= (#[trigger] a@[j]).value(),
        {
            if a[i].lane_lt(best) {
                best = a[i];
            }
        }
        best
    }

    /// Lane-wise addition that saturates at the bounds of the lane type.
    pub fn saturating_add(self, rhs: Self) -> (r: Self)
        ensures
            forall|i: int| 0 <= i < N ==> (#[trigger] r@[i]).value() == clamped::<T>(self@[i].value() + rhs@[i].value()),
    {
        let a = self.to_array();
        let b = rhs.to_array();
        let mut out = a;
        for i in 0..N
            invariant
                a@ == self@,
                b@ == rhs@,
                forall|j: int|
                    0 <= j < i ==> (#[trigger] out@[j]).value() == clamped::<T>(a@[j].value() + b@[j].value()),
        {
            out[i] = a[i].lane_saturating_add(b[i]);
        }
        Simd::new(out)
    }

    /// Lane-wise subtraction that saturates at the bounds of the lane type.
    pub fn saturating_sub(self, rhs: Self) -> (r: Self)
        ensures
            forall|i: int| 0 <= i < N ==> (#[trigger] r@[i]).value() == clamped::<T>(self@[i].value() - rhs@[i].value()),
    {
        let a = self.to_array();
        let b = rhs.to_array();
        let mut out = a;
        for i in 0..N
            invariant
                a@ == self@,
                b@ == rhs@,
                forall|j: int|
                    0 <= j < i ==> (#[trigger] out@[j]).value() == clamped::<T>(a@[j].value() - b@[j].value()),
        {
            out[i] = a[i].lane_saturating_sub(b[i]);
        }
        Simd::new(out)
    }
}

impl<T: PrimitiveSigned, const N: usize> Simd<T, N> {
    /// The lane-wise absolute value, with wrapping arithmetic (the smallest
    /// value stays as it is).
    pub fn abs(self) -> (r: Self)
        ensures
            forall|i: int|
                0 <= i < N ==> (#[trigger] r@[i]).value() == wrapped::<T>(if self@[i].value() < 0 {
                    -self@[i].value()
                } else {
                    self@[i].value()
                }),
    {
        let a = self.to_array();
        let mut out = a;
        for i in 0..N
            invariant
                a@ == self@,
                forall|j: int|
                    0 <= j < i ==> (#[trigger] out@[j]).value() == wrapped::<T>(if a@[j].value() < 0 {
                        -a@[j].value()
                    } else {
                        a@[j].value()
                    }),
        {
            out[i] = a[i].lane_abs();
        }
        Simd::new(out)
    }

    /// A mask of the lanes that are greater than zero.
    pub fn is_positive(self) -> (r: Self)
        ensures
            forall|i: int| 0 <= i < N ==> #[trigger] r@[i] == mask_lane::<T>(self@[i].value() > 0),
    {
        let zero = Self::zeroed();
        proof {
            T::lemma_masks();
        }
        self.lanes_gt(zero)
    }

    /// A mask of the lanes that are less than zero.
    pub fn is_negative(self) -> (r: Self)
        ensures
            forall|i: int| 0 <= i < N ==> #[trigger] r@[i] == mask_lane::<T>(self@[i].value() < 0),
    {
        let zero = Self::zeroed();
        proof {
            T::lemma_masks();
        }
        self.lanes_lt(zero)
    }
}

} // verus!
