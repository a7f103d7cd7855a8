//! Comparison of a vector with another vector or with a scalar, lane by
//! lane. A scalar stands for the vector with that value in every lane.

use vstd::prelude::*;

use crate::element::SimdElement;
use crate::simd::{Simd, splatted, mask_eq, mask_ne, mask_lt, mask_gt, mask_le, mask_ge};

verus! {

/// Lane-wise "equal to" of a vector and a right-hand side, giving a mask.
pub trait CmpEq<Rhs = Self>: Sized {
    /// The mask with lane `i` true exactly when lane `i` of `self` is equal to
    /// the right-hand side's lane `i`.
    spec fn eq_mask(self, other: Rhs) -> Self;

    /// Returns the mask [`CmpEq::eq_mask`].
    fn simd_eq(self, other: Rhs) -> (r: Self)
        ensures
            r == self.eq_mask(other),
    ;
}

impl<T: SimdElement, const N: usize> CmpEq for Simd<T, N> {
    open spec fn eq_mask(self, other: Self) -> Self {
        mask_eq(self, other)
    }

    fn simd_eq(self, other: Self) -> (r: Self) {
        self.lanes_eq(other)
    }
}

impl<T: SimdElement, const N: usize> CmpEq<T> for Simd<T, N> {
    open spec fn eq_mask(self, other: T) -> Self {
        mask_eq(self, splatted::<T, N>(other))
    }

    fn simd_eq(self, other: T) -> (r: Self) {
        let v = Self::splat(other);
        self.lanes_eq(v)
    }
}

/// Lane-wise "not equal to" of a vector and a right-hand side, giving a mask.
pub trait CmpNe<Rhs = Self>: Sized {
    /// The mask with lane `i` true exactly when lane `i` of `self` is not equal to
    /// the right-hand side's lane `i`.
    spec fn ne_mask(self, other: Rhs) -> Self;

    /// Returns the mask [`CmpNe::ne_mask`].
    fn simd_ne(self, other: Rhs) -> (r: Self)
        ensures
            r == self.ne_mask(other),
    ;
}

impl<T: SimdElement, const N: usize> CmpNe for Simd<T, N> {
    open spec fn ne_mask(self, other: Self) -> Self {
        mask_ne(self, other)
    }

    fn simd_ne(self, other: Self) -> (r: Self) {
        self.lanes_ne(other)
    }
}

impl<T: SimdElement, const N: usize> CmpNe<T> for Simd<T, N> {
    open spec fn ne_mask(self, other: T) -> Self {
        mask_ne(self, splatted::<T, N>(other))
    }

    fn simd_ne(self, other: T) -> (r: Self) {
        let v = Self::splat(other);
        self.lanes_ne(v)
    }
}

/// Lane-wise "less than" of a vector and a right-hand side, giving a mask.
pub trait CmpLt<Rhs = Self>: Sized {
    /// The mask with lane `i` true exactly when lane `i` of `self` is less than
    /// the right-hand side's lane `i`.
    spec fn lt_mask(self, other: Rhs) -> Self;

    /// Returns the mask [`CmpLt::lt_mask`].
    fn simd_lt(self, other: Rhs) -> (r: Self)
        ensures
            r == self.lt_mask(other),
    ;
}

impl<T: SimdElement, const N: usize> CmpLt for Simd<T, N> {
    open spec fn lt_mask(self, other: Self) -> Self {
        mask_lt(self, other)
    }

    fn simd_lt(self, other: Self) -> (r: Self) {
        self.lanes_lt(other)
    }
}

impl<T: SimdElement, const N: usize> CmpLt<T> for Simd<T, N> {
    open spec fn lt_mask(self, other: T) -> Self {
        mask_lt(self, splatted::<T, N>(other))
    }

    fn simd_lt(self, other: T) -> (r: Self) {
        let v = Self::splat(other);
        self.lanes_lt(v)
    }
}

/// Lane-wise "greater than" of a vector and a right-hand side, giving a mask.
pub trait CmpGt<Rhs = Self>: Sized {
    /// The mask with lane `i` true exactly when lane `i` of `self` is greater than
    /// the right-hand side's lane `i`.
    spec fn gt_mask(self, other: Rhs) -> Self;

    /// Returns the mask [`CmpGt::gt_mask`].
    fn simd_gt(self, other: Rhs) -> (r: Self)
        ensures
            r == self.gt_mask(other),
    ;
}

impl<T: SimdElement, const N: usize> CmpGt for Simd<T, N> {
    open spec fn gt_mask(self, other: Self) -> Self {
        mask_gt(self, other)
    }

    fn simd_gt(self, other: Self) -> (r: Self) {
        self.lanes_gt(other)
    }
}

impl<T: SimdElement, const N: usize> CmpGt<T> for Simd<T, N> {
    open spec fn gt_mask(self, other: T) -> Self {
        mask_gt(self, splatted::<T, N>(other))
    }

    fn simd_gt(self, other: T) -> (r: Self) {
        let v = Self::splat(other);
        self.lanes_gt(v)
    }
}

/// Lane-wise "less than or equal to" of a vector and a right-hand side, giving a mask.
pub trait CmpLe<Rhs = Self>: Sized {
    /// The mask with lane `i` true exactly when lane `i` of `self` is less than or equal to
    /// the right-hand side's lane `i`.
    spec fn le_mask(self, other: Rhs) -> Self;

    /// Returns the mask [`CmpLe::le_mask`].
    fn simd_le(self, other: Rhs) -> (r: Self)
        ensures
            r == self.le_mask(other),
    ;
}

impl<T: SimdElement, const N: usize> CmpLe for Simd<T, N> {
    open spec fn le_mask(self, other: Self) -> Self {
        mask_le(self, other)
    }

    fn simd_le(self, other: Self) -> (r: Self) {
        self.lanes_le(other)
    }
}

impl<T: SimdElement, const N: usize> CmpLe<T> for Simd<T, N> {
    open spec fn le_mask(self, other: T) -> Self {
        mask_le(self, splatted::<T, N>(other))
    }

    fn simd_le(self, other: T) -> (r: Self) {
        let v = Self::splat(other);
        self.lanes_le(v)
    }
}

/// Lane-wise "greater than or equal to" of a vector and a right-hand side, giving a mask.
pub trait CmpGe<Rhs = Self>: Sized {
    /// The mask with lane `i` true exactly when lane `i` of `self` is greater than or equal to
    /// the right-hand side's lane `i`.
    spec fn ge_mask(self, other: Rhs) -> Self;

    /// Returns the mask [`CmpGe::ge_mask`].
    fn simd_ge(self, other: Rhs) -> (r: Self)
        ensures
            r == self.ge_mask(other),
    ;
}

impl<T: SimdElement, const N: usize> CmpGe for Simd<T, N> {
    open spec fn ge_mask(self, other: Self) -> Self {
        mask_ge(self, other)
    }

    fn simd_ge(self, other: Self) -> (r: Self) {
        self.lanes_ge(other)
    }
}

impl<T: SimdElement, const N: usize> CmpGe<T> for Simd<T, N> {
    open spec fn ge_mask(self, other: T) -> Self {
        mask_ge(self, splatted::<T, N>(other))
    }

    fn simd_ge(self, other: T) -> (r: Self) {
        let v = Self::splat(other);
        self.lanes_ge(v)
    }
}

} // verus!
