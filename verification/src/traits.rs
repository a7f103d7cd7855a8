//! The standard traits of SIMD vectors: equality, default and conversions.

use vstd::prelude::*;

use vstd::std_specs::cmp::PartialEqSpecImpl;
use vstd::std_specs::convert::FromSpecImpl;

use crate::element::{SimdElement, mask_lane};
use crate::simd::{Simd, from_lanes, splatted, lemma_is_from_lanes, all_top_bits};

verus! {

broadcast use crate::simd::lemma_simd_len;

impl<T: SimdElement, const N: usize> PartialEq for Simd<T, N> {
    /// Two vectors are equal when every lane is equal: the mask of equal
    /// lanes is all true.
    fn eq(&self, other: &Self) -> (r: bool) {
        let m = self.lanes_eq(*other);
        let r = m.all();
        proof {
            T::lemma_masks();
            if r {
                assert forall|i: int| 0 <= i < N implies self@[i] == other@[i] by {
                    assert(m@[i].top_bit());
                }
                assert(self@ =~= other@);
            }
            if self@ == other@ {
                assert(all_top_bits(m@)) by {
                    assert forall|i: int| 0 <= i < m@.len() implies (#[trigger] m@[i]).top_bit() by {
                        assert(m@[i] == mask_lane::<T>(self@[i] == other@[i]));
                    }
                }
            }
        }
        r
    }
}

impl<T: SimdElement, const N: usize> PartialEqSpecImpl for Simd<T, N> {
    open spec fn obeys_eq_spec() -> bool {
        true
    }

    open spec fn eq_spec(&self, other: &Self) -> bool {
        self@ == other@
    }
}

impl<T: SimdElement, const N: usize> Eq for Simd<T, N> {}

impl<T: SimdElement, const N: usize> Default for Simd<T, N> {
    /// The vector with all lanes zero.
    fn default() -> (r: Self)
        ensures
            forall|i: int| 0 <= i < N ==> #[trigger] r@[i] == T::spec_zero(),
    {
        Self::zeroed()
    }
}

impl<T: SimdElement, const N: usize> From<[T; N]> for Simd<T, N> {
    /// Converts an array to a SIMD vector.
    fn from(value: [T; N]) -> (r: Self)
        ensures
            r@ == value@,
    {
        let r = Self::new(value);
        proof {
            lemma_is_from_lanes(r, value@);
        }
        r
    }
}

impl<T: SimdElement, const N: usize> FromSpecImpl<[T; N]> for Simd<T, N> {
    open spec fn obeys_from_spec() -> bool {
        true
    }

    open spec fn from_spec(v: [T; N]) -> Self {
        from_lanes(v@)
    }
}

/// The array whose elements are the lanes of `v`.
pub open spec fn array_of<T: SimdElement, const N: usize>(v: Simd<T, N>) -> [T; N] {
    choose|a: [T; N]| a@ == v@
}

impl<T: SimdElement, const N: usize> From<Simd<T, N>> for [T; N] {
    /// Converts a SIMD vector to an array.
    fn from(value: Simd<T, N>) -> (r: Self)
        ensures
            r@ == value@,
    {
        let r = value.to_array();
        proof {
            broadcast use vstd::array::axiom_array_ext_equal;

            assert(array_of(value)@ == value@);
            assert(r =~= array_of(value));
        }
        r
    }
}

impl<T: SimdElement, const N: usize> FromSpecImpl<Simd<T, N>> for [T; N] {
    open spec fn obeys_from_spec() -> bool {
        true
    }

    open spec fn from_spec(v: Simd<T, N>) -> Self {
        array_of(v)
    }
}

impl<T: SimdElement, const N: usize> From<T> for Simd<T, N> {
    /// Converts a single value to a SIMD vector by setting all elements to
    /// that value.
    fn from(value: T) -> (r: Self)
        ensures
            forall|i: int| 0 <= i < N ==> #[trigger] r@[i] == value,
    {
        Self::splat(value)
    }
}

impl<T: SimdElement, const N: usize> FromSpecImpl<T> for Simd<T, N> {
    open spec fn obeys_from_spec() -> bool {
        true
    }

    open spec fn from_spec(v: T) -> Self {
        splatted(v)
    }
}

} // verus!
