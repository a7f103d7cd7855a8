//! The operators in the forms that take references, and with the scalar on
//! the left. Each gives the same vector as the form on values: a scalar
//! stands for the vector with that value in every lane.

use vstd::prelude::*;

use vstd::std_specs::ops::{
    NegSpecImpl,
    NotSpecImpl,
    AddSpecImpl,
    SubSpecImpl,
    MulSpecImpl,
    DivSpecImpl,
    RemSpecImpl,
    BitAndSpecImpl,
    BitOrSpecImpl,
    BitXorSpecImpl,
};

use crate::element::SimdElement;
use crate::simd::{Simd, splatted};
use crate::ops::{
    wrapping_sum,
    wrapping_difference,
    wrapping_product,
    wrapping_quotient,
    truncated_remainder,
    nonzero_lanes,
    wrapping_negation,
    lanewise_and,
    lanewise_or,
    lanewise_xor,
    lanewise_not,
};

verus! {

impl<'a, T: SimdElement, const N: usize> core::ops::Add<&'a Simd<T, N>> for Simd<T, N> {
    type Output = Simd<T, N>;

    /// Computes addition for each element of `self` and the corresponding element of `rhs`, with wrapping arithmetic.
    fn add(self, rhs: &'a Simd<T, N>) -> (r: Simd<T, N>)
        ensures
            r == wrapping_sum(self, *rhs),
    {
        core::ops::Add::add(self, *rhs)
    }
}

impl<'a, T: SimdElement, const N: usize> AddSpecImpl<&'a Simd<T, N>> for Simd<T, N> {
    open spec fn obeys_add_spec() -> bool {
        true
    }

    open spec fn add_req(self, rhs: &'a Simd<T, N>) -> bool {
        true
    }

    open spec fn add_spec(self, rhs: &'a Simd<T, N>) -> Simd<T, N> {
        wrapping_sum(self, *rhs)
    }
}

impl<'a, T: SimdElement, const N: usize> core::ops::Add<&'a T> for Simd<T, N> {
    type Output = Simd<T, N>;

    /// Computes addition for each element of `self` and the uniform scalar `rhs`, with wrapping arithmetic.
    fn add(self, rhs: &'a T) -> (r: Simd<T, N>)
        ensures
            r == wrapping_sum(self, splatted::<T, N>(*rhs)),
    {
        core::ops::Add::add(self, *rhs)
    }
}

impl<'a, T: SimdElement, const N: usize> AddSpecImpl<&'a T> for Simd<T, N> {
    open spec fn obeys_add_spec() -> bool {
        true
    }

    open spec fn add_req(self, rhs: &'a T) -> bool {
        true
    }

    open spec fn add_spec(self, rhs: &'a T) -> Simd<T, N> {
        wrapping_sum(self, splatted::<T, N>(*rhs))
    }
}

impl<'a, T: SimdElement, const N: usize> core::ops::Add<Simd<T, N>> for &'a Simd<T, N> {
    type Output = Simd<T, N>;

    /// Computes addition for each element of `self` and the corresponding element of `rhs`, with wrapping arithmetic.
    fn add(self, rhs: Simd<T, N>) -> (r: Simd<T, N>)
        ensures
            r == wrapping_sum(*self, rhs),
    {
        core::ops::Add::add(*self, rhs)
    }
}

impl<'a, T: SimdElement, const N: usize> AddSpecImpl<Simd<T, N>> for &'a Simd<T, N> {
    open spec fn obeys_add_spec() -> bool {
        true
    }

    open spec fn add_req(self, rhs: Simd<T, N>) -> bool {
        true
    }

    open spec fn add_spec(self, rhs: Simd<T, N>) -> Simd<T, N> {
        wrapping_sum(*self, rhs)
    }
}

impl<'a, T: SimdElement, const N: usize> core::ops::Add<T> for &'a Simd<T, N> {
    type Output = Simd<T, N>;

    /// Computes addition for each element of `self` and the uniform scalar `rhs`, with wrapping arithmetic.
    fn add(self, rhs: T) -> (r: Simd<T, N>)
        ensures
            r == wrapping_sum(*self, splatted::<T, N>(rhs)),
    {
        core::ops::Add::add(*self, rhs)
    }
}

impl<'a, T: SimdElement, const N: usize> AddSpecImpl<T> for &'a Simd<T, N> {
    open spec fn obeys_add_spec() -> bool {
        true
    }

    open spec fn add_req(self, rhs: T) -> bool {
        true
    }

    open spec fn add_spec(self, rhs: T) -> Simd<T, N> {
        wrapping_sum(*self, splatted::<T, N>(rhs))
    }
}

impl<'a, 'b, T: SimdElement, const N: usize> core::ops::Add<&'b Simd<T, N>> for &'a Simd<T, N> {
    type Output = Simd<T, N>;

    /// Computes addition for each element of `self` and the corresponding element of `rhs`, with wrapping arithmetic.
    fn add(self, rhs: &'b Simd<T, N>) -> (r: Simd<T, N>)
        ensures
            r == wrapping_sum(*self, *rhs),
    {
        core::ops::Add::add(*self, *rhs)
    }
}

impl<'a, 'b, T: SimdElement, const N: usize> AddSpecImpl<&'b Simd<T, N>> for &'a Simd<T, N> {
    open spec fn obeys_add_spec() -> bool {
        true
    }

    open spec fn add_req(self, rhs: &'b Simd<T, N>) -> bool {
        true
    }

    open spec fn add_spec(self, rhs: &'b Simd<T, N>) -> Simd<T, N> {
        wrapping_sum(*self, *rhs)
    }
}

impl<'a, 'b, T: SimdElement, const N: usize> core::ops::Add<&'b T> for &'a Simd<T, N> {
    type Output = Simd<T, N>;

    /// Computes addition for each element of `self` and the uniform scalar `rhs`, with wrapping arithmetic.
    fn add(self, rhs: &'b T) -> (r: Simd<T, N>)
        ensures
            r == wrapping_sum(*self, splatted::<T, N>(*rhs)),
    {
        core::ops::Add::add(*self, *rhs)
    }
}

impl<'a, 'b, T: SimdElement, const N: usize> AddSpecImpl<&'b T> for &'a Simd<T, N> {
    open spec fn obeys_add_spec() -> bool {
        true
    }

    open spec fn add_req(self, rhs: &'b T) -> bool {
        true
    }

    open spec fn add_spec(self, rhs: &'b T) -> Simd<T, N> {
        wrapping_sum(*self, splatted::<T, N>(*rhs))
    }
}

impl<const N: usize> core::ops::Add<Simd<u8, N>> for u8 {
    type Output = Simd<u8, N>;

    /// Computes addition for the uniform scalar `self` and each element of `rhs`, with wrapping arithmetic.
    fn add(self, rhs: Simd<u8, N>) -> (r: Simd<u8, N>)
        ensures
            r == wrapping_sum(splatted::<u8, N>(self), rhs),
    {
        core::ops::Add::add(Simd::<u8, N>::splat(self), rhs)
    }
}

impl<const N: usize> AddSpecImpl<Simd<u8, N>> for u8 {
    open spec fn obeys_add_spec() -> bool {
        true
    }

    open spec fn add_req(self, rhs: Simd<u8, N>) -> bool {
        true
    }

    open spec fn add_spec(self, rhs: Simd<u8, N>) -> Simd<u8, N> {
        wrapping_sum(splatted::<u8, N>(self), rhs)
    }
}

impl<'a, const N: usize> core::ops::Add<&'a Simd<u8, N>> for u8 {
    type Output = Simd<u8, N>;

    /// Computes addition for the uniform scalar `self` and each element of `rhs`, with wrapping arithmetic.
    fn add(self, rhs: &'a Simd<u8, N>) -> (r: Simd<u8, N>)
        ensures
            r == wrapping_sum(splatted::<u8, N>(self), *rhs),
    {
        core::ops::Add::add(Simd::<u8, N>::splat(self), *rhs)
    }
}

impl<'a, const N: usize> AddSpecImpl<&'a Simd<u8, N>> for u8 {
    open spec fn obeys_add_spec() -> bool {
        true
    }

    open spec fn add_req(self, rhs: &'a Simd<u8, N>) -> bool {
        true
    }

    open spec fn add_spec(self, rhs: &'a Simd<u8, N>) -> Simd<u8, N> {
        wrapping_sum(splatted::<u8, N>(self), *rhs)
    }
}

impl<'a, const N: usize> core::ops::Add<Simd<u8, N>> for &'a u8 {
    type Output = Simd<u8, N>;

    /// Computes addition for the uniform scalar `self` and each element of `rhs`, with wrapping arithmetic.
    fn add(self, rhs: Simd<u8, N>) -> (r: Simd<u8, N>)
        ensures
            r == wrapping_sum(splatted::<u8, N>(*self), rhs),
    {
        core::ops::Add::add(Simd::<u8, N>::splat(*self), rhs)
    }
}

impl<'a, const N: usize> AddSpecImpl<Simd<u8, N>> for &'a u8 {
    open spec fn obeys_add_spec() -> bool {
        true
    }

    open spec fn add_req(self, rhs: Simd<u8, N>) -> bool {
        true
    }

    open spec fn add_spec(self, rhs: Simd<u8, N>) -> Simd<u8, N> {
        wrapping_sum(splatted::<u8, N>(*self), rhs)
    }
}

impl<'a, 'b, const N: usize> core::ops::Add<&'b Simd<u8, N>> for &'a u8 {
    type Output = Simd<u8, N>;

    /// Computes addition for the uniform scalar `self` and each element of `rhs`, with wrapping arithmetic.
    fn add(self, rhs: &'b Simd<u8, N>) -> (r: Simd<u8, N>)
        ensures
            r == wrapping_sum(splatted::<u8, N>(*self), *rhs),
    {
        core::ops::Add::add(Simd::<u8, N>::splat(*self), *rhs)
    }
}

impl<'a, 'b, const N: usize> AddSpecImpl<&'b Simd<u8, N>> for &'a u8 {
    open spec fn obeys_add_spec() -> bool {
        true
    }

    open spec fn add_req(self, rhs: &'b Simd<u8, N>) -> bool {
        true
    }

    open spec fn add_spec(self, rhs: &'b Simd<u8, N>) -> Simd<u8, N> {
        wrapping_sum(splatted::<u8, N>(*self), *rhs)
    }
}

impl<const N: usize> core::ops::Add<Simd<u16, N>> for u16 {
    type Output = Simd<u16, N>;

    /// Computes addition for the uniform scalar `self` and each element of `rhs`, with wrapping arithmetic.
    fn add(self, rhs: Simd<u16, N>) -> (r: Simd<u16, N>)
        ensures
            r == wrapping_sum(splatted::<u16, N>(self), rhs),
    {
        core::ops::Add::add(Simd::<u16, N>::splat(self), rhs)
    }
}

impl<const N: usize> AddSpecImpl<Simd<u16, N>> for u16 {
    open spec fn obeys_add_spec() -> bool {
        true
    }

    open spec fn add_req(self, rhs: Simd<u16, N>) -> bool {
        true
    }

    open spec fn add_spec(self, rhs: Simd<u16, N>) -> Simd<u16, N> {
        wrapping_sum(splatted::<u16, N>(self), rhs)
    }
}

impl<'a, const N: usize> core::ops::Add<&'a Simd<u16, N>> for u16 {
    type Output = Simd<u16, N>;

    /// Computes addition for the uniform scalar `self` and each element of `rhs`, with wrapping arithmetic.
    fn add(self, rhs: &'a Simd<u16, N>) -> (r: Simd<u16, N>)
        ensures
            r == wrapping_sum(splatted::<u16, N>(self), *rhs),
    {
        core::ops::Add::add(Simd::<u16, N>::splat(self), *rhs)
    }
}

impl<'a, const N: usize> AddSpecImpl<&'a Simd<u16, N>> for u16 {
    open spec fn obeys_add_spec() -> bool {
        true
    }

    open spec fn add_req(self, rhs: &'a Simd<u16, N>) -> bool {
        true
    }

    open spec fn add_spec(self, rhs: &'a Simd<u16, N>) -> Simd<u16, N> {
        wrapping_sum(splatted::<u16, N>(self), *rhs)
    }
}

impl<'a, const N: usize> core::ops::Add<Simd<u16, N>> for &'a u16 {
    type Output = Simd<u16, N>;

    /// Computes addition for the uniform scalar `self` and each element of `rhs`, with wrapping arithmetic.
    fn add(self, rhs: Simd<u16, N>) -> (r: Simd<u16, N>)
        ensures
            r == wrapping_sum(splatted::<u16, N>(*self), rhs),
    {
        core::ops::Add::add(Simd::<u16, N>::splat(*self), rhs)
    }
}

impl<'a, const N: usize> AddSpecImpl<Simd<u16, N>> for &'a u16 {
    open spec fn obeys_add_spec() -> bool {
        true
    }

    open spec fn add_req(self, rhs: Simd<u16, N>) -> bool {
        true
    }

    open spec fn add_spec(self, rhs: Simd<u16, N>) -> Simd<u16, N> {
        wrapping_sum(splatted::<u16, N>(*self), rhs)
    }
}

impl<'a, 'b, const N: usize> core::ops::Add<&'b Simd<u16, N>> for &'a u16 {
    type Output = Simd<u16, N>;

    /// Computes addition for the uniform scalar `self` and each element of `rhs`, with wrapping arithmetic.
    fn add(self, rhs: &'b Simd<u16, N>) -> (r: Simd<u16, N>)
        ensures
            r == wrapping_sum(splatted::<u16, N>(*self), *rhs),
    {
        core::ops::Add::add(Simd::<u16, N>::splat(*self), *rhs)
    }
}

impl<'a, 'b, const N: usize> AddSpecImpl<&'b Simd<u16, N>> for &'a u16 {
    open spec fn obeys_add_spec() -> bool {
        true
    }

    open spec fn add_req(self, rhs: &'b Simd<u16, N>) -> bool {
        true
    }

    open spec fn add_spec(self, rhs: &'b Simd<u16, N>) -> Simd<u16, N> {
        wrapping_sum(splatted::<u16, N>(*self), *rhs)
    }
}

impl<const N: usize> core::ops::Add<Simd<u32, N>> for u32 {
    type Output = Simd<u32, N>;

    /// Computes addition for the uniform scalar `self` and each element of `rhs`, with wrapping arithmetic.
    fn add(self, rhs: Simd<u32, N>) -> (r: Simd<u32, N>)
        ensures
            r == wrapping_sum(splatted::<u32, N>(self), rhs),
    {
        core::ops::Add::add(Simd::<u32, N>::splat(self), rhs)
    }
}

impl<const N: usize> AddSpecImpl<Simd<u32, N>> for u32 {
    open spec fn obeys_add_spec() -> bool {
        true
    }

    open spec fn add_req(self, rhs: Simd<u32, N>) -> bool {
        true
    }

    open spec fn add_spec(self, rhs: Simd<u32, N>) -> Simd<u32, N> {
        wrapping_sum(splatted::<u32, N>(self), rhs)
    }
}

impl<'a, const N: usize> core::ops::Add<&'a Simd<u32, N>> for u32 {
    type Output = Simd<u32, N>;

    /// Computes addition for the uniform scalar `self` and each element of `rhs`, with wrapping arithmetic.
    fn add(self, rhs: &'a Simd<u32, N>) -> (r: Simd<u32, N>)
        ensures
            r == wrapping_sum(splatted::<u32, N>(self), *rhs),
    {
        core::ops::Add::add(Simd::<u32, N>::splat(self), *rhs)
    }
}

impl<'a, const N: usize> AddSpecImpl<&'a Simd<u32, N>> for u32 {
    open spec fn obeys_add_spec() -> bool {
        true
    }

    open spec fn add_req(self, rhs: &'a Simd<u32, N>) -> bool {
        true
    }

    open spec fn add_spec(self, rhs: &'a Simd<u32, N>) -> Simd<u32, N> {
        wrapping_sum(splatted::<u32, N>(self), *rhs)
    }
}

impl<'a, const N: usize> core::ops::Add<Simd<u32, N>> for &'a u32 {
    type Output = Simd<u32, N>;

    /// Computes addition for the uniform scalar `self` and each element of `rhs`, with wrapping arithmetic.
    fn add(self, rhs: Simd<u32, N>) -> (r: Simd<u32, N>)
        ensures
            r == wrapping_sum(splatted::<u32, N>(*self), rhs),
    {
        core::ops::Add::add(Simd::<u32, N>::splat(*self), rhs)
    }
}

impl<'a, const N: usize> AddSpecImpl<Simd<u32, N>> for &'a u32 {
    open spec fn obeys_add_spec() -> bool {
        true
    }

    open spec fn add_req(self, rhs: Simd<u32, N>) -> bool {
        true
    }

    open spec fn add_spec(self, rhs: Simd<u32, N>) -> Simd<u32, N> {
        wrapping_sum(splatted::<u32, N>(*self), rhs)
    }
}

impl<'a, 'b, const N: usize> core::ops::Add<&'b Simd<u32, N>> for &'a u32 {
    type Output = Simd<u32, N>;

    /// Computes addition for the uniform scalar `self` and each element of `rhs`, with wrapping arithmetic.
    fn add(self, rhs: &'b Simd<u32, N>) -> (r: Simd<u32, N>)
        ensures
            r == wrapping_sum(splatted::<u32, N>(*self), *rhs),
    {
        core::ops::Add::add(Simd::<u32, N>::splat(*self), *rhs)
    }
}

impl<'a, 'b, const N: usize> AddSpecImpl<&'b Simd<u32, N>> for &'a u32 {
    open spec fn obeys_add_spec() -> bool {
        true
    }

    open spec fn add_req(self, rhs: &'b Simd<u32, N>) -> bool {
        true
    }

    open spec fn add_spec(self, rhs: &'b Simd<u32, N>) -> Simd<u32, N> {
        wrapping_sum(splatted::<u32, N>(*self), *rhs)
    }
}

impl<const N: usize> core::ops::Add<Simd<u64, N>> for u64 {
    type Output = Simd<u64, N>;

    /// Computes addition for the uniform scalar `self` and each element of `rhs`, with wrapping arithmetic.
    fn add(self, rhs: Simd<u64, N>) -> (r: Simd<u64, N>)
        ensures
            r == wrapping_sum(splatted::<u64, N>(self), rhs),
    {
        core::ops::Add::add(Simd::<u64, N>::splat(self), rhs)
    }
}

impl<const N: usize> AddSpecImpl<Simd<u64, N>> for u64 {
    open spec fn obeys_add_spec() -> bool {
        true
    }

    open spec fn add_req(self, rhs: Simd<u64, N>) -> bool {
        true
    }

    open spec fn add_spec(self, rhs: Simd<u64, N>) -> Simd<u64, N> {
        wrapping_sum(splatted::<u64, N>(self), rhs)
    }
}

impl<'a, const N: usize> core::ops::Add<&'a Simd<u64, N>> for u64 {
    type Output = Simd<u64, N>;

    /// Computes addition for the uniform scalar `self` and each element of `rhs`, with wrapping arithmetic.
    fn add(self, rhs: &'a Simd<u64, N>) -> (r: Simd<u64, N>)
        ensures
            r == wrapping_sum(splatted::<u64, N>(self), *rhs),
    {
        core::ops::Add::add(Simd::<u64, N>::splat(self), *rhs)
    }
}

impl<'a, const N: usize> AddSpecImpl<&'a Simd<u64, N>> for u64 {
    open spec fn obeys_add_spec() -> bool {
        true
    }

    open spec fn add_req(self, rhs: &'a Simd<u64, N>) -> bool {
        true
    }

    open spec fn add_spec(self, rhs: &'a Simd<u64, N>) -> Simd<u64, N> {
        wrapping_sum(splatted::<u64, N>(self), *rhs)
    }
}

impl<'a, const N: usize> core::ops::Add<Simd<u64, N>> for &'a u64 {
    type Output = Simd<u64, N>;

    /// Computes addition for the uniform scalar `self` and each element of `rhs`, with wrapping arithmetic.
    fn add(self, rhs: Simd<u64, N>) -> (r: Simd<u64, N>)
        ensures
            r == wrapping_sum(splatted::<u64, N>(*self), rhs),
    {
        core::ops::Add::add(Simd::<u64, N>::splat(*self), rhs)
    }
}

impl<'a, const N: usize> AddSpecImpl<Simd<u64, N>> for &'a u64 {
    open spec fn obeys_add_spec() -> bool {
        true
    }

    open spec fn add_req(self, rhs: Simd<u64, N>) -> bool {
        true
    }

    open spec fn add_spec(self, rhs: Simd<u64, N>) -> Simd<u64, N> {
        wrapping_sum(splatted::<u64, N>(*self), rhs)
    }
}

impl<'a, 'b, const N: usize> core::ops::Add<&'b Simd<u64, N>> for &'a u64 {
    type Output = Simd<u64, N>;

    /// Computes addition for the uniform scalar `self` and each element of `rhs`, with wrapping arithmetic.
    fn add(self, rhs: &'b Simd<u64, N>) -> (r: Simd<u64, N>)
        ensures
            r == wrapping_sum(splatted::<u64, N>(*self), *rhs),
    {
        core::ops::Add::add(Simd::<u64, N>::splat(*self), *rhs)
    }
}

impl<'a, 'b, const N: usize> AddSpecImpl<&'b Simd<u64, N>> for &'a u64 {
    open spec fn obeys_add_spec() -> bool {
        true
    }

    open spec fn add_req(self, rhs: &'b Simd<u64, N>) -> bool {
        true
    }

    open spec fn add_spec(self, rhs: &'b Simd<u64, N>) -> Simd<u64, N> {
        wrapping_sum(splatted::<u64, N>(*self), *rhs)
    }
}

impl<const N: usize> core::ops::Add<Simd<i8, N>> for i8 {
    type Output = Simd<i8, N>;

    /// Computes addition for the uniform scalar `self` and each element of `rhs`, with wrapping arithmetic.
    fn add(self, rhs: Simd<i8, N>) -> (r: Simd<i8, N>)
        ensures
            r == wrapping_sum(splatted::<i8, N>(self), rhs),
    {
        core::ops::Add::add(Simd::<i8, N>::splat(self), rhs)
    }
}

impl<const N: usize> AddSpecImpl<Simd<i8, N>> for i8 {
    open spec fn obeys_add_spec() -> bool {
        true
    }

    open spec fn add_req(self, rhs: Simd<i8, N>) -> bool {
        true
    }

    open spec fn add_spec(self, rhs: Simd<i8, N>) -> Simd<i8, N> {
        wrapping_sum(splatted::<i8, N>(self), rhs)
    }
}

impl<'a, const N: usize> core::ops::Add<&'a Simd<i8, N>> for i8 {
    type Output = Simd<i8, N>;

    /// Computes addition for the uniform scalar `self` and each element of `rhs`, with wrapping arithmetic.
    fn add(self, rhs: &'a Simd<i8, N>) -> (r: Simd<i8, N>)
        ensures
            r == wrapping_sum(splatted::<i8, N>(self), *rhs),
    {
        core::ops::Add::add(Simd::<i8, N>::splat(self), *rhs)
    }
}

impl<'a, const N: usize> AddSpecImpl<&'a Simd<i8, N>> for i8 {
    open spec fn obeys_add_spec() -> bool {
        true
    }

    open spec fn add_req(self, rhs: &'a Simd<i8, N>) -> bool {
        true
    }

    open spec fn add_spec(self, rhs: &'a Simd<i8, N>) -> Simd<i8, N> {
        wrapping_sum(splatted::<i8, N>(self), *rhs)
    }
}

impl<'a, const N: usize> core::ops::Add<Simd<i8, N>> for &'a i8 {
    type Output = Simd<i8, N>;

    /// Computes addition for the uniform scalar `self` and each element of `rhs`, with wrapping arithmetic.
    fn add(self, rhs: Simd<i8, N>) -> (r: Simd<i8, N>)
        ensures
            r == wrapping_sum(splatted::<i8, N>(*self), rhs),
    {
        core::ops::Add::add(Simd::<i8, N>::splat(*self), rhs)
    }
}

impl<'a, const N: usize> AddSpecImpl<Simd<i8, N>> for &'a i8 {
    open spec fn obeys_add_spec() -> bool {
        true
    }

    open spec fn add_req(self, rhs: Simd<i8, N>) -> bool {
        true
    }

    open spec fn add_spec(self, rhs: Simd<i8, N>) -> Simd<i8, N> {
        wrapping_sum(splatted::<i8, N>(*self), rhs)
    }
}

impl<'a, 'b, const N: usize> core::ops::Add<&'b Simd<i8, N>> for &'a i8 {
    type Output = Simd<i8, N>;

    /// Computes addition for the uniform scalar `self` and each element of `rhs`, with wrapping arithmetic.
    fn add(self, rhs: &'b Simd<i8, N>) -> (r: Simd<i8, N>)
        ensures
            r == wrapping_sum(splatted::<i8, N>(*self), *rhs),
    {
        core::ops::Add::add(Simd::<i8, N>::splat(*self), *rhs)
    }
}

impl<'a, 'b, const N: usize> AddSpecImpl<&'b Simd<i8, N>> for &'a i8 {
    open spec fn obeys_add_spec() -> bool {
        true
    }

    open spec fn add_req(self, rhs: &'b Simd<i8, N>) -> bool {
        true
    }

    open spec fn add_spec(self, rhs: &'b Simd<i8, N>) -> Simd<i8, N> {
        wrapping_sum(splatted::<i8, N>(*self), *rhs)
    }
}

impl<const N: usize> core::ops::Add<Simd<i16, N>> for i16 {
    type Output = Simd<i16, N>;

    /// Computes addition for the uniform scalar `self` and each element of `rhs`, with wrapping arithmetic.
    fn add(self, rhs: Simd<i16, N>) -> (r: Simd<i16, N>)
        ensures
            r == wrapping_sum(splatted::<i16, N>(self), rhs),
    {
        core::ops::Add::add(Simd::<i16, N>::splat(self), rhs)
    }
}

impl<const N: usize> AddSpecImpl<Simd<i16, N>> for i16 {
    open spec fn obeys_add_spec() -> bool {
        true
    }

    open spec fn add_req(self, rhs: Simd<i16, N>) -> bool {
        true
    }

    open spec fn add_spec(self, rhs: Simd<i16, N>) -> Simd<i16, N> {
        wrapping_sum(splatted::<i16, N>(self), rhs)
    }
}

impl<'a, const N: usize> core::ops::Add<&'a Simd<i16, N>> for i16 {
    type Output = Simd<i16, N>;

    /// Computes addition for the uniform scalar `self` and each element of `rhs`, with wrapping arithmetic.
    fn add(self, rhs: &'a Simd<i16, N>) -> (r: Simd<i16, N>)
        ensures
            r == wrapping_sum(splatted::<i16, N>(self), *rhs),
    {
        core::ops::Add::add(Simd::<i16, N>::splat(self), *rhs)
    }
}

impl<'a, const N: usize> AddSpecImpl<&'a Simd<i16, N>> for i16 {
    open spec fn obeys_add_spec() -> bool {
        true
    }

    open spec fn add_req(self, rhs: &'a Simd<i16, N>) -> bool {
        true
    }

    open spec fn add_spec(self, rhs: &'a Simd<i16, N>) -> Simd<i16, N> {
        wrapping_sum(splatted::<i16, N>(self), *rhs)
    }
}

impl<'a, const N: usize> core::ops::Add<Simd<i16, N>> for &'a i16 {
    type Output = Simd<i16, N>;

    /// Computes addition for the uniform scalar `self` and each element of `rhs`, with wrapping arithmetic.
    fn add(self, rhs: Simd<i16, N>) -> (r: Simd<i16, N>)
        ensures
            r == wrapping_sum(splatted::<i16, N>(*self), rhs),
    {
        core::ops::Add::add(Simd::<i16, N>::splat(*self), rhs)
    }
}

impl<'a, const N: usize> AddSpecImpl<Simd<i16, N>> for &'a i16 {
    open spec fn obeys_add_spec() -> bool {
        true
    }

    open spec fn add_req(self, rhs: Simd<i16, N>) -> bool {
        true
    }

    open spec fn add_spec(self, rhs: Simd<i16, N>) -> Simd<i16, N> {
        wrapping_sum(splatted::<i16, N>(*self), rhs)
    }
}

impl<'a, 'b, const N: usize> core::ops::Add<&'b Simd<i16, N>> for &'a i16 {
    type Output = Simd<i16, N>;

    /// Computes addition for the uniform scalar `self` and each element of `rhs`, with wrapping arithmetic.
    fn add(self, rhs: &'b Simd<i16, N>) -> (r: Simd<i16, N>)
        ensures
            r == wrapping_sum(splatted::<i16, N>(*self), *rhs),
    {
        core::ops::Add::add(Simd::<i16, N>::splat(*self), *rhs)
    }
}

impl<'a, 'b, const N: usize> AddSpecImpl<&'b Simd<i16, N>> for &'a i16 {
    open spec fn obeys_add_spec() -> bool {
        true
    }

    open spec fn add_req(self, rhs: &'b Simd<i16, N>) -> bool {
        true
    }

    open spec fn add_spec(self, rhs: &'b Simd<i16, N>) -> Simd<i16, N> {
        wrapping_sum(splatted::<i16, N>(*self), *rhs)
    }
}

impl<const N: usize> core::ops::Add<Simd<i32, N>> for i32 {
    type Output = Simd<i32, N>;

    /// Computes addition for the uniform scalar `self` and each element of `rhs`, with wrapping arithmetic.
    fn add(self, rhs: Simd<i32, N>) -> (r: Simd<i32, N>)
        ensures
            r == wrapping_sum(splatted::<i32, N>(self), rhs),
    {
        core::ops::Add::add(Simd::<i32, N>::splat(self), rhs)
    }
}

impl<const N: usize> AddSpecImpl<Simd<i32, N>> for i32 {
    open spec fn obeys_add_spec() -> bool {
        true
    }

    open spec fn add_req(self, rhs: Simd<i32, N>) -> bool {
        true
    }

    open spec fn add_spec(self, rhs: Simd<i32, N>) -> Simd<i32, N> {
        wrapping_sum(splatted::<i32, N>(self), rhs)
    }
}

impl<'a, const N: usize> core::ops::Add<&'a Simd<i32, N>> for i32 {
    type Output = Simd<i32, N>;

    /// Computes addition for the uniform scalar `self` and each element of `rhs`, with wrapping arithmetic.
    fn add(self, rhs: &'a Simd<i32, N>) -> (r: Simd<i32, N>)
        ensures
            r == wrapping_sum(splatted::<i32, N>(self), *rhs),
    {
        core::ops::Add::add(Simd::<i32, N>::splat(self), *rhs)
    }
}

impl<'a, const N: usize> AddSpecImpl<&'a Simd<i32, N>> for i32 {
    open spec fn obeys_add_spec() -> bool {
        true
    }

    open spec fn add_req(self, rhs: &'a Simd<i32, N>) -> bool {
        true
    }

    open spec fn add_spec(self, rhs: &'a Simd<i32, N>) -> Simd<i32, N> {
        wrapping_sum(splatted::<i32, N>(self), *rhs)
    }
}

impl<'a, const N: usize> core::ops::Add<Simd<i32, N>> for &'a i32 {
    type Output = Simd<i32, N>;

    /// Computes addition for the uniform scalar `self` and each element of `rhs`, with wrapping arithmetic.
    fn add(self, rhs: Simd<i32, N>) -> (r: Simd<i32, N>)
        ensures
            r == wrapping_sum(splatted::<i32, N>(*self), rhs),
    {
        core::ops::Add::add(Simd::<i32, N>::splat(*self), rhs)
    }
}

impl<'a, const N: usize> AddSpecImpl<Simd<i32, N>> for &'a i32 {
    open spec fn obeys_add_spec() -> bool {
        true
    }

    open spec fn add_req(self, rhs: Simd<i32, N>) -> bool {
        true
    }

    open spec fn add_spec(self, rhs: Simd<i32, N>) -> Simd<i32, N> {
        wrapping_sum(splatted::<i32, N>(*self), rhs)
    }
}

impl<'a, 'b, const N: usize> core::ops::Add<&'b Simd<i32, N>> for &'a i32 {
    type Output = Simd<i32, N>;

    /// Computes addition for the uniform scalar `self` and each element of `rhs`, with wrapping arithmetic.
    fn add(self, rhs: &'b Simd<i32, N>) -> (r: Simd<i32, N>)
        ensures
            r == wrapping_sum(splatted::<i32, N>(*self), *rhs),
    {
        core::ops::Add::add(Simd::<i32, N>::splat(*self), *rhs)
    }
}

impl<'a, 'b, const N: usize> AddSpecImpl<&'b Simd<i32, N>> for &'a i32 {
    open spec fn obeys_add_spec() -> bool {
        true
    }

    open spec fn add_req(self, rhs: &'b Simd<i32, N>) -> bool {
        true
    }

    open spec fn add_spec(self, rhs: &'b Simd<i32, N>) -> Simd<i32, N> {
        wrapping_sum(splatted::<i32, N>(*self), *rhs)
    }
}

impl<const N: usize> core::ops::Add<Simd<i64, N>> for i64 {
    type Output = Simd<i64, N>;

    /// Computes addition for the uniform scalar `self` and each element of `rhs`, with wrapping arithmetic.
    fn add(self, rhs: Simd<i64, N>) -> (r: Simd<i64, N>)
        ensures
            r == wrapping_sum(splatted::<i64, N>(self), rhs),
    {
        core::ops::Add::add(Simd::<i64, N>::splat(self), rhs)
    }
}

impl<const N: usize> AddSpecImpl<Simd<i64, N>> for i64 {
    open spec fn obeys_add_spec() -> bool {
        true
    }

    open spec fn add_req(self, rhs: Simd<i64, N>) -> bool {
        true
    }

    open spec fn add_spec(self, rhs: Simd<i64, N>) -> Simd<i64, N> {
        wrapping_sum(splatted::<i64, N>(self), rhs)
    }
}

impl<'a, const N: usize> core::ops::Add<&'a Simd<i64, N>> for i64 {
    type Output = Simd<i64, N>;

    /// Computes addition for the uniform scalar `self` and each element of `rhs`, with wrapping arithmetic.
    fn add(self, rhs: &'a Simd<i64, N>) -> (r: Simd<i64, N>)
        ensures
            r == wrapping_sum(splatted::<i64, N>(self), *rhs),
    {
        core::ops::Add::add(Simd::<i64, N>::splat(self), *rhs)
    }
}

impl<'a, const N: usize> AddSpecImpl<&'a Simd<i64, N>> for i64 {
    open spec fn obeys_add_spec() -> bool {
        true
    }

    open spec fn add_req(self, rhs: &'a Simd<i64, N>) -> bool {
        true
    }

    open spec fn add_spec(self, rhs: &'a Simd<i64, N>) -> Simd<i64, N> {
        wrapping_sum(splatted::<i64, N>(self), *rhs)
    }
}

impl<'a, const N: usize> core::ops::Add<Simd<i64, N>> for &'a i64 {
    type Output = Simd<i64, N>;

    /// Computes addition for the uniform scalar `self` and each element of `rhs`, with wrapping arithmetic.
    fn add(self, rhs: Simd<i64, N>) -> (r: Simd<i64, N>)
        ensures
            r == wrapping_sum(splatted::<i64, N>(*self), rhs),
    {
        core::ops::Add::add(Simd::<i64, N>::splat(*self), rhs)
    }
}

impl<'a, const N: usize> AddSpecImpl<Simd<i64, N>> for &'a i64 {
    open spec fn obeys_add_spec() -> bool {
        true
    }

    open spec fn add_req(self, rhs: Simd<i64, N>) -> bool {
        true
    }

    open spec fn add_spec(self, rhs: Simd<i64, N>) -> Simd<i64, N> {
        wrapping_sum(splatted::<i64, N>(*self), rhs)
    }
}

impl<'a, 'b, const N: usize> core::ops::Add<&'b Simd<i64, N>> for &'a i64 {
    type Output = Simd<i64, N>;

    /// Computes addition for the uniform scalar `self` and each element of `rhs`, with wrapping arithmetic.
    fn add(self, rhs: &'b Simd<i64, N>) -> (r: Simd<i64, N>)
        ensures
            r == wrapping_sum(splatted::<i64, N>(*self), *rhs),
    {
        core::ops::Add::add(Simd::<i64, N>::splat(*self), *rhs)
    }
}

impl<'a, 'b, const N: usize> AddSpecImpl<&'b Simd<i64, N>> for &'a i64 {
    open spec fn obeys_add_spec() -> bool {
        true
    }

    open spec fn add_req(self, rhs: &'b Simd<i64, N>) -> bool {
        true
    }

    open spec fn add_spec(self, rhs: &'b Simd<i64, N>) -> Simd<i64, N> {
        wrapping_sum(splatted::<i64, N>(*self), *rhs)
    }
}

impl<'a, T: SimdElement, const N: usize> core::ops::Sub<&'a Simd<T, N>> for Simd<T, N> {
    type Output = Simd<T, N>;

    /// Computes subtraction for each element of `self` and the corresponding element of `rhs`, with wrapping arithmetic.
    fn sub(self, rhs: &'a Simd<T, N>) -> (r: Simd<T, N>)
        ensures
            r == wrapping_difference(self, *rhs),
    {
        core::ops::Sub::sub(self, *rhs)
    }
}

impl<'a, T: SimdElement, const N: usize> SubSpecImpl<&'a Simd<T, N>> for Simd<T, N> {
    open spec fn obeys_sub_spec() -> bool {
        true
    }

    open spec fn sub_req(self, rhs: &'a Simd<T, N>) -> bool {
        true
    }

    open spec fn sub_spec(self, rhs: &'a Simd<T, N>) -> Simd<T, N> {
        wrapping_difference(self, *rhs)
    }
}

impl<'a, T: SimdElement, const N: usize> core::ops::Sub<&'a T> for Simd<T, N> {
    type Output = Simd<T, N>;

    /// Computes subtraction for each element of `self` and the uniform scalar `rhs`, with wrapping arithmetic.
    fn sub(self, rhs: &'a T) -> (r: Simd<T, N>)
        ensures
            r == wrapping_difference(self, splatted::<T, N>(*rhs)),
    {
        core::ops::Sub::sub(self, *rhs)
    }
}

impl<'a, T: SimdElement, const N: usize> SubSpecImpl<&'a T> for Simd<T, N> {
    open spec fn obeys_sub_spec() -> bool {
        true
    }

    open spec fn sub_req(self, rhs: &'a T) -> bool {
        true
    }

    open spec fn sub_spec(self, rhs: &'a T) -> Simd<T, N> {
        wrapping_difference(self, splatted::<T, N>(*rhs))
    }
}

impl<'a, T: SimdElement, const N: usize> core::ops::Sub<Simd<T, N>> for &'a Simd<T, N> {
    type Output = Simd<T, N>;

    /// Computes subtraction for each element of `self` and the corresponding element of `rhs`, with wrapping arithmetic.
    fn sub(self, rhs: Simd<T, N>) -> (r: Simd<T, N>)
        ensures
            r == wrapping_difference(*self, rhs),
    {
        core::ops::Sub::sub(*self, rhs)
    }
}

impl<'a, T: SimdElement, const N: usize> SubSpecImpl<Simd<T, N>> for &'a Simd<T, N> {
    open spec fn obeys_sub_spec() -> bool {
        true
    }

    open spec fn sub_req(self, rhs: Simd<T, N>) -> bool {
        true
    }

    open spec fn sub_spec(self, rhs: Simd<T, N>) -> Simd<T, N> {
        wrapping_difference(*self, rhs)
    }
}

impl<'a, T: SimdElement, const N: usize> core::ops::Sub<T> for &'a Simd<T, N> {
    type Output = Simd<T, N>;

    /// Computes subtraction for each element of `self` and the uniform scalar `rhs`, with wrapping arithmetic.
    fn sub(self, rhs: T) -> (r: Simd<T, N>)
        ensures
            r == wrapping_difference(*self, splatted::<T, N>(rhs)),
    {
        core::ops::Sub::sub(*self, rhs)
    }
}

impl<'a, T: SimdElement, const N: usize> SubSpecImpl<T> for &'a Simd<T, N> {
    open spec fn obeys_sub_spec() -> bool {
        true
    }

    open spec fn sub_req(self, rhs: T) -> bool {
        true
    }

    open spec fn sub_spec(self, rhs: T) -> Simd<T, N> {
        wrapping_difference(*self, splatted::<T, N>(rhs))
    }
}

impl<'a, 'b, T: SimdElement, const N: usize> core::ops::Sub<&'b Simd<T, N>> for &'a Simd<T, N> {
    type Output = Simd<T, N>;

    /// Computes subtraction for each element of `self` and the corresponding element of `rhs`, with wrapping arithmetic.
    fn sub(self, rhs: &'b Simd<T, N>) -> (r: Simd<T, N>)
        ensures
            r == wrapping_difference(*self, *rhs),
    {
        core::ops::Sub::sub(*self, *rhs)
    }
}

impl<'a, 'b, T: SimdElement, const N: usize> SubSpecImpl<&'b Simd<T, N>> for &'a Simd<T, N> {
    open spec fn obeys_sub_spec() -> bool {
        true
    }

    open spec fn sub_req(self, rhs: &'b Simd<T, N>) -> bool {
        true
    }

    open spec fn sub_spec(self, rhs: &'b Simd<T, N>) -> Simd<T, N> {
        wrapping_difference(*self, *rhs)
    }
}

impl<'a, 'b, T: SimdElement, const N: usize> core::ops::Sub<&'b T> for &'a Simd<T, N> {
    type Output = Simd<T, N>;

    /// Computes subtraction for each element of `self` and the uniform scalar `rhs`, with wrapping arithmetic.
    fn sub(self, rhs: &'b T) -> (r: Simd<T, N>)
        ensures
            r == wrapping_difference(*self, splatted::<T, N>(*rhs)),
    {
        core::ops::Sub::sub(*self, *rhs)
    }
}

impl<'a, 'b, T: SimdElement, const N: usize> SubSpecImpl<&'b T> for &'a Simd<T, N> {
    open spec fn obeys_sub_spec() -> bool {
        true
    }

    open spec fn sub_req(self, rhs: &'b T) -> bool {
        true
    }

    open spec fn sub_spec(self, rhs: &'b T) -> Simd<T, N> {
        wrapping_difference(*self, splatted::<T, N>(*rhs))
    }
}

impl<const N: usize> core::ops::Sub<Simd<u8, N>> for u8 {
    type Output = Simd<u8, N>;

    /// Computes subtraction for the uniform scalar `self` and each element of `rhs`, with wrapping arithmetic.
    fn sub(self, rhs: Simd<u8, N>) -> (r: Simd<u8, N>)
        ensures
            r == wrapping_difference(splatted::<u8, N>(self), rhs),
    {
        core::ops::Sub::sub(Simd::<u8, N>::splat(self), rhs)
    }
}

impl<const N: usize> SubSpecImpl<Simd<u8, N>> for u8 {
    open spec fn obeys_sub_spec() -> bool {
        true
    }

    open spec fn sub_req(self, rhs: Simd<u8, N>) -> bool {
        true
    }

    open spec fn sub_spec(self, rhs: Simd<u8, N>) -> Simd<u8, N> {
        wrapping_difference(splatted::<u8, N>(self), rhs)
    }
}

impl<'a, const N: usize> core::ops::Sub<&'a Simd<u8, N>> for u8 {
    type Output = Simd<u8, N>;

    /// Computes subtraction for the uniform scalar `self` and each element of `rhs`, with wrapping arithmetic.
    fn sub(self, rhs: &'a Simd<u8, N>) -> (r: Simd<u8, N>)
        ensures
            r == wrapping_difference(splatted::<u8, N>(self), *rhs),
    {
        core::ops::Sub::sub(Simd::<u8, N>::splat(self), *rhs)
    }
}

impl<'a, const N: usize> SubSpecImpl<&'a Simd<u8, N>> for u8 {
    open spec fn obeys_sub_spec() -> bool {
        true
    }

    open spec fn sub_req(self, rhs: &'a Simd<u8, N>) -> bool {
        true
    }

    open spec fn sub_spec(self, rhs: &'a Simd<u8, N>) -> Simd<u8, N> {
        wrapping_difference(splatted::<u8, N>(self), *rhs)
    }
}

impl<'a, const N: usize> core::ops::Sub<Simd<u8, N>> for &'a u8 {
    type Output = Simd<u8, N>;

    /// Computes subtraction for the uniform scalar `self` and each element of `rhs`, with wrapping arithmetic.
    fn sub(self, rhs: Simd<u8, N>) -> (r: Simd<u8, N>)
        ensures
            r == wrapping_difference(splatted::<u8, N>(*self), rhs),
    {
        core::ops::Sub::sub(Simd::<u8, N>::splat(*self), rhs)
    }
}

impl<'a, const N: usize> SubSpecImpl<Simd<u8, N>> for &'a u8 {
    open spec fn obeys_sub_spec() -> bool {
        true
    }

    open spec fn sub_req(self, rhs: Simd<u8, N>) -> bool {
        true
    }

    open spec fn sub_spec(self, rhs: Simd<u8, N>) -> Simd<u8, N> {
        wrapping_difference(splatted::<u8, N>(*self), rhs)
    }
}

impl<'a, 'b, const N: usize> core::ops::Sub<&'b Simd<u8, N>> for &'a u8 {
    type Output = Simd<u8, N>;

    /// Computes subtraction for the uniform scalar `self` and each element of `rhs`, with wrapping arithmetic.
    fn sub(self, rhs: &'b Simd<u8, N>) -> (r: Simd<u8, N>)
        ensures
            r == wrapping_difference(splatted::<u8, N>(*self), *rhs),
    {
        core::ops::Sub::sub(Simd::<u8, N>::splat(*self), *rhs)
    }
}

impl<'a, 'b, const N: usize> SubSpecImpl<&'b Simd<u8, N>> for &'a u8 {
    open spec fn obeys_sub_spec() -> bool {
        true
    }

    open spec fn sub_req(self, rhs: &'b Simd<u8, N>) -> bool {
        true
    }

    open spec fn sub_spec(self, rhs: &'b Simd<u8, N>) -> Simd<u8, N> {
        wrapping_difference(splatted::<u8, N>(*self), *rhs)
    }
}

impl<const N: usize> core::ops::Sub<Simd<u16, N>> for u16 {
    type Output = Simd<u16, N>;

    /// Computes subtraction for the uniform scalar `self` and each element of `rhs`, with wrapping arithmetic.
    fn sub(self, rhs: Simd<u16, N>) -> (r: Simd<u16, N>)
        ensures
            r == wrapping_difference(splatted::<u16, N>(self), rhs),
    {
        core::ops::Sub::sub(Simd::<u16, N>::splat(self), rhs)
    }
}

impl<const N: usize> SubSpecImpl<Simd<u16, N>> for u16 {
    open spec fn obeys_sub_spec() -> bool {
        true
    }

    open spec fn sub_req(self, rhs: Simd<u16, N>) -> bool {
        true
    }

    open spec fn sub_spec(self, rhs: Simd<u16, N>) -> Simd<u16, N> {
        wrapping_difference(splatted::<u16, N>(self), rhs)
    }
}

impl<'a, const N: usize> core::ops::Sub<&'a Simd<u16, N>> for u16 {
    type Output = Simd<u16, N>;

    /// Computes subtraction for the uniform scalar `self` and each element of `rhs`, with wrapping arithmetic.
    fn sub(self, rhs: &'a Simd<u16, N>) -> (r: Simd<u16, N>)
        ensures
            r == wrapping_difference(splatted::<u16, N>(self), *rhs),
    {
        core::ops::Sub::sub(Simd::<u16, N>::splat(self), *rhs)
    }
}

impl<'a, const N: usize> SubSpecImpl<&'a Simd<u16, N>> for u16 {
    open spec fn obeys_sub_spec() -> bool {
        true
    }

    open spec fn sub_req(self, rhs: &'a Simd<u16, N>) -> bool {
        true
    }

    open spec fn sub_spec(self, rhs: &'a Simd<u16, N>) -> Simd<u16, N> {
        wrapping_difference(splatted::<u16, N>(self), *rhs)
    }
}

impl<'a, const N: usize> core::ops::Sub<Simd<u16, N>> for &'a u16 {
    type Output = Simd<u16, N>;

    /// Computes subtraction for the uniform scalar `self` and each element of `rhs`, with wrapping arithmetic.
    fn sub(self, rhs: Simd<u16, N>) -> (r: Simd<u16, N>)
        ensures
            r == wrapping_difference(splatted::<u16, N>(*self), rhs),
    {
        core::ops::Sub::sub(Simd::<u16, N>::splat(*self), rhs)
    }
}

impl<'a, const N: usize> SubSpecImpl<Simd<u16, N>> for &'a u16 {
    open spec fn obeys_sub_spec() -> bool {
        true
    }

    open spec fn sub_req(self, rhs: Simd<u16, N>) -> bool {
        true
    }

    open spec fn sub_spec(self, rhs: Simd<u16, N>) -> Simd<u16, N> {
        wrapping_difference(splatted::<u16, N>(*self), rhs)
    }
}

impl<'a, 'b, const N: usize> core::ops::Sub<&'b Simd<u16, N>> for &'a u16 {
    type Output = Simd<u16, N>;

    /// Computes subtraction for the uniform scalar `self` and each element of `rhs`, with wrapping arithmetic.
    fn sub(self, rhs: &'b Simd<u16, N>) -> (r: Simd<u16, N>)
        ensures
            r == wrapping_difference(splatted::<u16, N>(*self), *rhs),
    {
        core::ops::Sub::sub(Simd::<u16, N>::splat(*self), *rhs)
    }
}

impl<'a, 'b, const N: usize> SubSpecImpl<&'b Simd<u16, N>> for &'a u16 {
    open spec fn obeys_sub_spec() -> bool {
        true
    }

    open spec fn sub_req(self, rhs: &'b Simd<u16, N>) -> bool {
        true
    }

    open spec fn sub_spec(self, rhs: &'b Simd<u16, N>) -> Simd<u16, N> {
        wrapping_difference(splatted::<u16, N>(*self), *rhs)
    }
}

impl<const N: usize> core::ops::Sub<Simd<u32, N>> for u32 {
    type Output = Simd<u32, N>;

    /// Computes subtraction for the uniform scalar `self` and each element of `rhs`, with wrapping arithmetic.
    fn sub(self, rhs: Simd<u32, N>) -> (r: Simd<u32, N>)
        ensures
            r == wrapping_difference(splatted::<u32, N>(self), rhs),
    {
        core::ops::Sub::sub(Simd::<u32, N>::splat(self), rhs)
    }
}

impl<const N: usize> SubSpecImpl<Simd<u32, N>> for u32 {
    open spec fn obeys_sub_spec() -> bool {
        true
    }

    open spec fn sub_req(self, rhs: Simd<u32, N>) -> bool {
        true
    }

    open spec fn sub_spec(self, rhs: Simd<u32, N>) -> Simd<u32, N> {
        wrapping_difference(splatted::<u32, N>(self), rhs)
    }
}

impl<'a, const N: usize> core::ops::Sub<&'a Simd<u32, N>> for u32 {
    type Output = Simd<u32, N>;

    /// Computes subtraction for the uniform scalar `self` and each element of `rhs`, with wrapping arithmetic.
    fn sub(self, rhs: &'a Simd<u32, N>) -> (r: Simd<u32, N>)
        ensures
            r == wrapping_difference(splatted::<u32, N>(self), *rhs),
    {
        core::ops::Sub::sub(Simd::<u32, N>::splat(self), *rhs)
    }
}

impl<'a, const N: usize> SubSpecImpl<&'a Simd<u32, N>> for u32 {
    open spec fn obeys_sub_spec() -> bool {
        true
    }

    open spec fn sub_req(self, rhs: &'a Simd<u32, N>) -> bool {
        true
    }

    open spec fn sub_spec(self, rhs: &'a Simd<u32, N>) -> Simd<u32, N> {
        wrapping_difference(splatted::<u32, N>(self), *rhs)
    }
}

impl<'a, const N: usize> core::ops::Sub<Simd<u32, N>> for &'a u32 {
    type Output = Simd<u32, N>;

    /// Computes subtraction for the uniform scalar `self` and each element of `rhs`, with wrapping arithmetic.
    fn sub(self, rhs: Simd<u32, N>) -> (r: Simd<u32, N>)
        ensures
            r == wrapping_difference(splatted::<u32, N>(*self), rhs),
    {
        core::ops::Sub::sub(Simd::<u32, N>::splat(*self), rhs)
    }
}

impl<'a, const N: usize> SubSpecImpl<Simd<u32, N>> for &'a u32 {
    open spec fn obeys_sub_spec() -> bool {
        true
    }

    open spec fn sub_req(self, rhs: Simd<u32, N>) -> bool {
        true
    }

    open spec fn sub_spec(self, rhs: Simd<u32, N>) -> Simd<u32, N> {
        wrapping_difference(splatted::<u32, N>(*self), rhs)
    }
}

impl<'a, 'b, const N: usize> core::ops::Sub<&'b Simd<u32, N>> for &'a u32 {
    type Output = Simd<u32, N>;

    /// Computes subtraction for the uniform scalar `self` and each element of `rhs`, with wrapping arithmetic.
    fn sub(self, rhs: &'b Simd<u32, N>) -> (r: Simd<u32, N>)
        ensures
            r == wrapping_difference(splatted::<u32, N>(*self), *rhs),
    {
        core::ops::Sub::sub(Simd::<u32, N>::splat(*self), *rhs)
    }
}

impl<'a, 'b, const N: usize> SubSpecImpl<&'b Simd<u32, N>> for &'a u32 {
    open spec fn obeys_sub_spec() -> bool {
        true
    }

    open spec fn sub_req(self, rhs: &'b Simd<u32, N>) -> bool {
        true
    }

    open spec fn sub_spec(self, rhs: &'b Simd<u32, N>) -> Simd<u32, N> {
        wrapping_difference(splatted::<u32, N>(*self), *rhs)
    }
}

impl<const N: usize> core::ops::Sub<Simd<u64, N>> for u64 {
    type Output = Simd<u64, N>;

    /// Computes subtraction for the uniform scalar `self` and each element of `rhs`, with wrapping arithmetic.
    fn sub(self, rhs: Simd<u64, N>) -> (r: Simd<u64, N>)
        ensures
            r == wrapping_difference(splatted::<u64, N>(self), rhs),
    {
        core::ops::Sub::sub(Simd::<u64, N>::splat(self), rhs)
    }
}

impl<const N: usize> SubSpecImpl<Simd<u64, N>> for u64 {
    open spec fn obeys_sub_spec() -> bool {
        true
    }

    open spec fn sub_req(self, rhs: Simd<u64, N>) -> bool {
        true
    }

    open spec fn sub_spec(self, rhs: Simd<u64, N>) -> Simd<u64, N> {
        wrapping_difference(splatted::<u64, N>(self), rhs)
    }
}

impl<'a, const N: usize> core::ops::Sub<&'a Simd<u64, N>> for u64 {
    type Output = Simd<u64, N>;

    /// Computes subtraction for the uniform scalar `self` and each element of `rhs`, with wrapping arithmetic.
    fn sub(self, rhs: &'a Simd<u64, N>) -> (r: Simd<u64, N>)
        ensures
            r == wrapping_difference(splatted::<u64, N>(self), *rhs),
    {
        core::ops::Sub::sub(Simd::<u64, N>::splat(self), *rhs)
    }
}

impl<'a, const N: usize> SubSpecImpl<&'a Simd<u64, N>> for u64 {
    open spec fn obeys_sub_spec() -> bool {
        true
    }

    open spec fn sub_req(self, rhs: &'a Simd<u64, N>) -> bool {
        true
    }

    open spec fn sub_spec(self, rhs: &'a Simd<u64, N>) -> Simd<u64, N> {
        wrapping_difference(splatted::<u64, N>(self), *rhs)
    }
}

impl<'a, const N: usize> core::ops::Sub<Simd<u64, N>> for &'a u64 {
    type Output = Simd<u64, N>;

    /// Computes subtraction for the uniform scalar `self` and each element of `rhs`, with wrapping arithmetic.
    fn sub(self, rhs: Simd<u64, N>) -> (r: Simd<u64, N>)
        ensures
            r == wrapping_difference(splatted::<u64, N>(*self), rhs),
    {
        core::ops::Sub::sub(Simd::<u64, N>::splat(*self), rhs)
    }
}

impl<'a, const N: usize> SubSpecImpl<Simd<u64, N>> for &'a u64 {
    open spec fn obeys_sub_spec() -> bool {
        true
    }

    open spec fn sub_req(self, rhs: Simd<u64, N>) -> bool {
        true
    }

    open spec fn sub_spec(self, rhs: Simd<u64, N>) -> Simd<u64, N> {
        wrapping_difference(splatted::<u64, N>(*self), rhs)
    }
}

impl<'a, 'b, const N: usize> core::ops::Sub<&'b Simd<u64, N>> for &'a u64 {
    type Output = Simd<u64, N>;

    /// Computes subtraction for the uniform scalar `self` and each element of `rhs`, with wrapping arithmetic.
    fn sub(self, rhs: &'b Simd<u64, N>) -> (r: Simd<u64, N>)
        ensures
            r == wrapping_difference(splatted::<u64, N>(*self), *rhs),
    {
        core::ops::Sub::sub(Simd::<u64, N>::splat(*self), *rhs)
    }
}

impl<'a, 'b, const N: usize> SubSpecImpl<&'b Simd<u64, N>> for &'a u64 {
    open spec fn obeys_sub_spec() -> bool {
        true
    }

    open spec fn sub_req(self, rhs: &'b Simd<u64, N>) -> bool {
        true
    }

    open spec fn sub_spec(self, rhs: &'b Simd<u64, N>) -> Simd<u64, N> {
        wrapping_difference(splatted::<u64, N>(*self), *rhs)
    }
}

impl<const N: usize> core::ops::Sub<Simd<i8, N>> for i8 {
    type Output = Simd<i8, N>;

    /// Computes subtraction for the uniform scalar `self` and each element of `rhs`, with wrapping arithmetic.
    fn sub(self, rhs: Simd<i8, N>) -> (r: Simd<i8, N>)
        ensures
            r == wrapping_difference(splatted::<i8, N>(self), rhs),
    {
        core::ops::Sub::sub(Simd::<i8, N>::splat(self), rhs)
    }
}

impl<const N: usize> SubSpecImpl<Simd<i8, N>> for i8 {
    open spec fn obeys_sub_spec() -> bool {
        true
    }

    open spec fn sub_req(self, rhs: Simd<i8, N>) -> bool {
        true
    }

    open spec fn sub_spec(self, rhs: Simd<i8, N>) -> Simd<i8, N> {
        wrapping_difference(splatted::<i8, N>(self), rhs)
    }
}

impl<'a, const N: usize> core::ops::Sub<&'a Simd<i8, N>> for i8 {
    type Output = Simd<i8, N>;

    /// Computes subtraction for the uniform scalar `self` and each element of `rhs`, with wrapping arithmetic.
    fn sub(self, rhs: &'a Simd<i8, N>) -> (r: Simd<i8, N>)
        ensures
            r == wrapping_difference(splatted::<i8, N>(self), *rhs),
    {
        core::ops::Sub::sub(Simd::<i8, N>::splat(self), *rhs)
    }
}

impl<'a, const N: usize> SubSpecImpl<&'a Simd<i8, N>> for i8 {
    open spec fn obeys_sub_spec() -> bool {
        true
    }

    open spec fn sub_req(self, rhs: &'a Simd<i8, N>) -> bool {
        true
    }

    open spec fn sub_spec(self, rhs: &'a Simd<i8, N>) -> Simd<i8, N> {
        wrapping_difference(splatted::<i8, N>(self), *rhs)
    }
}

impl<'a, const N: usize> core::ops::Sub<Simd<i8, N>> for &'a i8 {
    type Output = Simd<i8, N>;

    /// Computes subtraction for the uniform scalar `self` and each element of `rhs`, with wrapping arithmetic.
    fn sub(self, rhs: Simd<i8, N>) -> (r: Simd<i8, N>)
        ensures
            r == wrapping_difference(splatted::<i8, N>(*self), rhs),
    {
        core::ops::Sub::sub(Simd::<i8, N>::splat(*self), rhs)
    }
}

impl<'a, const N: usize> SubSpecImpl<Simd<i8, N>> for &'a i8 {
    open spec fn obeys_sub_spec() -> bool {
        true
    }

    open spec fn sub_req(self, rhs: Simd<i8, N>) -> bool {
        true
    }

    open spec fn sub_spec(self, rhs: Simd<i8, N>) -> Simd<i8, N> {
        wrapping_difference(splatted::<i8, N>(*self), rhs)
    }
}

impl<'a, 'b, const N: usize> core::ops::Sub<&'b Simd<i8, N>> for &'a i8 {
    type Output = Simd<i8, N>;

    /// Computes subtraction for the uniform scalar `self` and each element of `rhs`, with wrapping arithmetic.
    fn sub(self, rhs: &'b Simd<i8, N>) -> (r: Simd<i8, N>)
        ensures
            r == wrapping_difference(splatted::<i8, N>(*self), *rhs),
    {
        core::ops::Sub::sub(Simd::<i8, N>::splat(*self), *rhs)
    }
}

impl<'a, 'b, const N: usize> SubSpecImpl<&'b Simd<i8, N>> for &'a i8 {
    open spec fn obeys_sub_spec() -> bool {
        true
    }

    open spec fn sub_req(self, rhs: &'b Simd<i8, N>) -> bool {
        true
    }

    open spec fn sub_spec(self, rhs: &'b Simd<i8, N>) -> Simd<i8, N> {
        wrapping_difference(splatted::<i8, N>(*self), *rhs)
    }
}

impl<const N: usize> core::ops::Sub<Simd<i16, N>> for i16 {
    type Output = Simd<i16, N>;

    /// Computes subtraction for the uniform scalar `self` and each element of `rhs`, with wrapping arithmetic.
    fn sub(self, rhs: Simd<i16, N>) -> (r: Simd<i16, N>)
        ensures
            r == wrapping_difference(splatted::<i16, N>(self), rhs),
    {
        core::ops::Sub::sub(Simd::<i16, N>::splat(self), rhs)
    }
}

impl<const N: usize> SubSpecImpl<Simd<i16, N>> for i16 {
    open spec fn obeys_sub_spec() -> bool {
        true
    }

    open spec fn sub_req(self, rhs: Simd<i16, N>) -> bool {
        true
    }

    open spec fn sub_spec(self, rhs: Simd<i16, N>) -> Simd<i16, N> {
        wrapping_difference(splatted::<i16, N>(self), rhs)
    }
}

impl<'a, const N: usize> core::ops::Sub<&'a Simd<i16, N>> for i16 {
    type Output = Simd<i16, N>;

    /// Computes subtraction for the uniform scalar `self` and each element of `rhs`, with wrapping arithmetic.
    fn sub(self, rhs: &'a Simd<i16, N>) -> (r: Simd<i16, N>)
        ensures
            r == wrapping_difference(splatted::<i16, N>(self), *rhs),
    {
        core::ops::Sub::sub(Simd::<i16, N>::splat(self), *rhs)
    }
}

impl<'a, const N: usize> SubSpecImpl<&'a Simd<i16, N>> for i16 {
    open spec fn obeys_sub_spec() -> bool {
        true
    }

    open spec fn sub_req(self, rhs: &'a Simd<i16, N>) -> bool {
        true
    }

    open spec fn sub_spec(self, rhs: &'a Simd<i16, N>) -> Simd<i16, N> {
        wrapping_difference(splatted::<i16, N>(self), *rhs)
    }
}

impl<'a, const N: usize> core::ops::Sub<Simd<i16, N>> for &'a i16 {
    type Output = Simd<i16, N>;

    /// Computes subtraction for the uniform scalar `self` and each element of `rhs`, with wrapping arithmetic.
    fn sub(self, rhs: Simd<i16, N>) -> (r: Simd<i16, N>)
        ensures
            r == wrapping_difference(splatted::<i16, N>(*self), rhs),
    {
        core::ops::Sub::sub(Simd::<i16, N>::splat(*self), rhs)
    }
}

impl<'a, const N: usize> SubSpecImpl<Simd<i16, N>> for &'a i16 {
    open spec fn obeys_sub_spec() -> bool {
        true
    }

    open spec fn sub_req(self, rhs: Simd<i16, N>) -> bool {
        true
    }

    open spec fn sub_spec(self, rhs: Simd<i16, N>) -> Simd<i16, N> {
        wrapping_difference(splatted::<i16, N>(*self), rhs)
    }
}

impl<'a, 'b, const N: usize> core::ops::Sub<&'b Simd<i16, N>> for &'a i16 {
    type Output = Simd<i16, N>;

    /// Computes subtraction for the uniform scalar `self` and each element of `rhs`, with wrapping arithmetic.
    fn sub(self, rhs: &'b Simd<i16, N>) -> (r: Simd<i16, N>)
        ensures
            r == wrapping_difference(splatted::<i16, N>(*self), *rhs),
    {
        core::ops::Sub::sub(Simd::<i16, N>::splat(*self), *rhs)
    }
}

impl<'a, 'b, const N: usize> SubSpecImpl<&'b Simd<i16, N>> for &'a i16 {
    open spec fn obeys_sub_spec() -> bool {
        true
    }

    open spec fn sub_req(self, rhs: &'b Simd<i16, N>) -> bool {
        true
    }

    open spec fn sub_spec(self, rhs: &'b Simd<i16, N>) -> Simd<i16, N> {
        wrapping_difference(splatted::<i16, N>(*self), *rhs)
    }
}

impl<const N: usize> core::ops::Sub<Simd<i32, N>> for i32 {
    type Output = Simd<i32, N>;

    /// Computes subtraction for the uniform scalar `self` and each element of `rhs`, with wrapping arithmetic.
    fn sub(self, rhs: Simd<i32, N>) -> (r: Simd<i32, N>)
        ensures
            r == wrapping_difference(splatted::<i32, N>(self), rhs),
    {
        core::ops::Sub::sub(Simd::<i32, N>::splat(self), rhs)
    }
}

impl<const N: usize> SubSpecImpl<Simd<i32, N>> for i32 {
    open spec fn obeys_sub_spec() -> bool {
        true
    }

    open spec fn sub_req(self, rhs: Simd<i32, N>) -> bool {
        true
    }

    open spec fn sub_spec(self, rhs: Simd<i32, N>) -> Simd<i32, N> {
        wrapping_difference(splatted::<i32, N>(self), rhs)
    }
}

impl<'a, const N: usize> core::ops::Sub<&'a Simd<i32, N>> for i32 {
    type Output = Simd<i32, N>;

    /// Computes subtraction for the uniform scalar `self` and each element of `rhs`, with wrapping arithmetic.
    fn sub(self, rhs: &'a Simd<i32, N>) -> (r: Simd<i32, N>)
        ensures
            r == wrapping_difference(splatted::<i32, N>(self), *rhs),
    {
        core::ops::Sub::sub(Simd::<i32, N>::splat(self), *rhs)
    }
}

impl<'a, const N: usize> SubSpecImpl<&'a Simd<i32, N>> for i32 {
    open spec fn obeys_sub_spec() -> bool {
        true
    }

    open spec fn sub_req(self, rhs: &'a Simd<i32, N>) -> bool {
        true
    }

    open spec fn sub_spec(self, rhs: &'a Simd<i32, N>) -> Simd<i32, N> {
        wrapping_difference(splatted::<i32, N>(self), *rhs)
    }
}

impl<'a, const N: usize> core::ops::Sub<Simd<i32, N>> for &'a i32 {
    type Output = Simd<i32, N>;

    /// Computes subtraction for the uniform scalar `self` and each element of `rhs`, with wrapping arithmetic.
    fn sub(self, rhs: Simd<i32, N>) -> (r: Simd<i32, N>)
        ensures
            r == wrapping_difference(splatted::<i32, N>(*self), rhs),
    {
        core::ops::Sub::sub(Simd::<i32, N>::splat(*self), rhs)
    }
}

impl<'a, const N: usize> SubSpecImpl<Simd<i32, N>> for &'a i32 {
    open spec fn obeys_sub_spec() -> bool {
        true
    }

    open spec fn sub_req(self, rhs: Simd<i32, N>) -> bool {
        true
    }

    open spec fn sub_spec(self, rhs: Simd<i32, N>) -> Simd<i32, N> {
        wrapping_difference(splatted::<i32, N>(*self), rhs)
    }
}

impl<'a, 'b, const N: usize> core::ops::Sub<&'b Simd<i32, N>> for &'a i32 {
    type Output = Simd<i32, N>;

    /// Computes subtraction for the uniform scalar `self` and each element of `rhs`, with wrapping arithmetic.
    fn sub(self, rhs: &'b Simd<i32, N>) -> (r: Simd<i32, N>)
        ensures
            r == wrapping_difference(splatted::<i32, N>(*self), *rhs),
    {
        core::ops::Sub::sub(Simd::<i32, N>::splat(*self), *rhs)
    }
}

impl<'a, 'b, const N: usize> SubSpecImpl<&'b Simd<i32, N>> for &'a i32 {
    open spec fn obeys_sub_spec() -> bool {
        true
    }

    open spec fn sub_req(self, rhs: &'b Simd<i32, N>) -> bool {
        true
    }

    open spec fn sub_spec(self, rhs: &'b Simd<i32, N>) -> Simd<i32, N> {
        wrapping_difference(splatted::<i32, N>(*self), *rhs)
    }
}

impl<const N: usize> core::ops::Sub<Simd<i64, N>> for i64 {
    type Output = Simd<i64, N>;

    /// Computes subtraction for the uniform scalar `self` and each element of `rhs`, with wrapping arithmetic.
    fn sub(self, rhs: Simd<i64, N>) -> (r: Simd<i64, N>)
        ensures
            r == wrapping_difference(splatted::<i64, N>(self), rhs),
    {
        core::ops::Sub::sub(Simd::<i64, N>::splat(self), rhs)
    }
}

impl<const N: usize> SubSpecImpl<Simd<i64, N>> for i64 {
    open spec fn obeys_sub_spec() -> bool {
        true
    }

    open spec fn sub_req(self, rhs: Simd<i64, N>) -> bool {
        true
    }

    open spec fn sub_spec(self, rhs: Simd<i64, N>) -> Simd<i64, N> {
        wrapping_difference(splatted::<i64, N>(self), rhs)
    }
}

impl<'a, const N: usize> core::ops::Sub<&'a Simd<i64, N>> for i64 {
    type Output = Simd<i64, N>;

    /// Computes subtraction for the uniform scalar `self` and each element of `rhs`, with wrapping arithmetic.
    fn sub(self, rhs: &'a Simd<i64, N>) -> (r: Simd<i64, N>)
        ensures
            r == wrapping_difference(splatted::<i64, N>(self), *rhs),
    {
        core::ops::Sub::sub(Simd::<i64, N>::splat(self), *rhs)
    }
}

impl<'a, const N: usize> SubSpecImpl<&'a Simd<i64, N>> for i64 {
    open spec fn obeys_sub_spec() -> bool {
        true
    }

    open spec fn sub_req(self, rhs: &'a Simd<i64, N>) -> bool {
        true
    }

    open spec fn sub_spec(self, rhs: &'a Simd<i64, N>) -> Simd<i64, N> {
        wrapping_difference(splatted::<i64, N>(self), *rhs)
    }
}

impl<'a, const N: usize> core::ops::Sub<Simd<i64, N>> for &'a i64 {
    type Output = Simd<i64, N>;

    /// Computes subtraction for the uniform scalar `self` and each element of `rhs`, with wrapping arithmetic.
    fn sub(self, rhs: Simd<i64, N>) -> (r: Simd<i64, N>)
        ensures
            r == wrapping_difference(splatted::<i64, N>(*self), rhs),
    {
        core::ops::Sub::sub(Simd::<i64, N>::splat(*self), rhs)
    }
}

impl<'a, const N: usize> SubSpecImpl<Simd<i64, N>> for &'a i64 {
    open spec fn obeys_sub_spec() -> bool {
        true
    }

    open spec fn sub_req(self, rhs: Simd<i64, N>) -> bool {
        true
    }

    open spec fn sub_spec(self, rhs: Simd<i64, N>) -> Simd<i64, N> {
        wrapping_difference(splatted::<i64, N>(*self), rhs)
    }
}

impl<'a, 'b, const N: usize> core::ops::Sub<&'b Simd<i64, N>> for &'a i64 {
    type Output = Simd<i64, N>;

    /// Computes subtraction for the uniform scalar `self` and each element of `rhs`, with wrapping arithmetic.
    fn sub(self, rhs: &'b Simd<i64, N>) -> (r: Simd<i64, N>)
        ensures
            r == wrapping_difference(splatted::<i64, N>(*self), *rhs),
    {
        core::ops::Sub::sub(Simd::<i64, N>::splat(*self), *rhs)
    }
}

impl<'a, 'b, const N: usize> SubSpecImpl<&'b Simd<i64, N>> for &'a i64 {
    open spec fn obeys_sub_spec() -> bool {
        true
    }

    open spec fn sub_req(self, rhs: &'b Simd<i64, N>) -> bool {
        true
    }

    open spec fn sub_spec(self, rhs: &'b Simd<i64, N>) -> Simd<i64, N> {
        wrapping_difference(splatted::<i64, N>(*self), *rhs)
    }
}

impl<'a, T: SimdElement, const N: usize> core::ops::Mul<&'a Simd<T, N>> for Simd<T, N> {
    type Output = Simd<T, N>;

    /// Computes multiplication for each element of `self` and the corresponding element of `rhs`, with wrapping arithmetic.
    fn mul(self, rhs: &'a Simd<T, N>) -> (r: Simd<T, N>)
        ensures
            r == wrapping_product(self, *rhs),
    {
        core::ops::Mul::mul(self, *rhs)
    }
}

impl<'a, T: SimdElement, const N: usize> MulSpecImpl<&'a Simd<T, N>> for Simd<T, N> {
    open spec fn obeys_mul_spec() -> bool {
        true
    }

    open spec fn mul_req(self, rhs: &'a Simd<T, N>) -> bool {
        true
    }

    open spec fn mul_spec(self, rhs: &'a Simd<T, N>) -> Simd<T, N> {
        wrapping_product(self, *rhs)
    }
}

impl<'a, T: SimdElement, const N: usize> core::ops::Mul<&'a T> for Simd<T, N> {
    type Output = Simd<T, N>;

    /// Computes multiplication for each element of `self` and the uniform scalar `rhs`, with wrapping arithmetic.
    fn mul(self, rhs: &'a T) -> (r: Simd<T, N>)
        ensures
            r == wrapping_product(self, splatted::<T, N>(*rhs)),
    {
        core::ops::Mul::mul(self, *rhs)
    }
}

impl<'a, T: SimdElement, const N: usize> MulSpecImpl<&'a T> for Simd<T, N> {
    open spec fn obeys_mul_spec() -> bool {
        true
    }

    open spec fn mul_req(self, rhs: &'a T) -> bool {
        true
    }

    open spec fn mul_spec(self, rhs: &'a T) -> Simd<T, N> {
        wrapping_product(self, splatted::<T, N>(*rhs))
    }
}

impl<'a, T: SimdElement, const N: usize> core::ops::Mul<Simd<T, N>> for &'a Simd<T, N> {
    type Output = Simd<T, N>;

    /// Computes multiplication for each element of `self` and the corresponding element of `rhs`, with wrapping arithmetic.
    fn mul(self, rhs: Simd<T, N>) -> (r: Simd<T, N>)
        ensures
            r == wrapping_product(*self, rhs),
    {
        core::ops::Mul::mul(*self, rhs)
    }
}

impl<'a, T: SimdElement, const N: usize> MulSpecImpl<Simd<T, N>> for &'a Simd<T, N> {
    open spec fn obeys_mul_spec() -> bool {
        true
    }

    open spec fn mul_req(self, rhs: Simd<T, N>) -> bool {
        true
    }

    open spec fn mul_spec(self, rhs: Simd<T, N>) -> Simd<T, N> {
        wrapping_product(*self, rhs)
    }
}

impl<'a, T: SimdElement, const N: usize> core::ops::Mul<T> for &'a Simd<T, N> {
    type Output = Simd<T, N>;

    /// Computes multiplication for each element of `self` and the uniform scalar `rhs`, with wrapping arithmetic.
    fn mul(self, rhs: T) -> (r: Simd<T, N>)
        ensures
            r == wrapping_product(*self, splatted::<T, N>(rhs)),
    {
        core::ops::Mul::mul(*self, rhs)
    }
}

impl<'a, T: SimdElement, const N: usize> MulSpecImpl<T> for &'a Simd<T, N> {
    open spec fn obeys_mul_spec() -> bool {
        true
    }

    open spec fn mul_req(self, rhs: T) -> bool {
        true
    }

    open spec fn mul_spec(self, rhs: T) -> Simd<T, N> {
        wrapping_product(*self, splatted::<T, N>(rhs))
    }
}

impl<'a, 'b, T: SimdElement, const N: usize> core::ops::Mul<&'b Simd<T, N>> for &'a Simd<T, N> {
    type Output = Simd<T, N>;

    /// Computes multiplication for each element of `self` and the corresponding element of `rhs`, with wrapping arithmetic.
    fn mul(self, rhs: &'b Simd<T, N>) -> (r: Simd<T, N>)
        ensures
            r == wrapping_product(*self, *rhs),
    {
        core::ops::Mul::mul(*self, *rhs)
    }
}

impl<'a, 'b, T: SimdElement, const N: usize> MulSpecImpl<&'b Simd<T, N>> for &'a Simd<T, N> {
    open spec fn obeys_mul_spec() -> bool {
        true
    }

    open spec fn mul_req(self, rhs: &'b Simd<T, N>) -> bool {
        true
    }

    open spec fn mul_spec(self, rhs: &'b Simd<T, N>) -> Simd<T, N> {
        wrapping_product(*self, *rhs)
    }
}

impl<'a, 'b, T: SimdElement, const N: usize> core::ops::Mul<&'b T> for &'a Simd<T, N> {
    type Output = Simd<T, N>;

    /// Computes multiplication for each element of `self` and the uniform scalar `rhs`, with wrapping arithmetic.
    fn mul(self, rhs: &'b T) -> (r: Simd<T, N>)
        ensures
            r == wrapping_product(*self, splatted::<T, N>(*rhs)),
    {
        core::ops::Mul::mul(*self, *rhs)
    }
}

impl<'a, 'b, T: SimdElement, const N: usize> MulSpecImpl<&'b T> for &'a Simd<T, N> {
    open spec fn obeys_mul_spec() -> bool {
        true
    }

    open spec fn mul_req(self, rhs: &'b T) -> bool {
        true
    }

    open spec fn mul_spec(self, rhs: &'b T) -> Simd<T, N> {
        wrapping_product(*self, splatted::<T, N>(*rhs))
    }
}

impl<const N: usize> core::ops::Mul<Simd<u8, N>> for u8 {
    type Output = Simd<u8, N>;

    /// Computes multiplication for the uniform scalar `self` and each element of `rhs`, with wrapping arithmetic.
    fn mul(self, rhs: Simd<u8, N>) -> (r: Simd<u8, N>)
        ensures
            r == wrapping_product(splatted::<u8, N>(self), rhs),
    {
        core::ops::Mul::mul(Simd::<u8, N>::splat(self), rhs)
    }
}

impl<const N: usize> MulSpecImpl<Simd<u8, N>> for u8 {
    open spec fn obeys_mul_spec() -> bool {
        true
    }

    open spec fn mul_req(self, rhs: Simd<u8, N>) -> bool {
        true
    }

    open spec fn mul_spec(self, rhs: Simd<u8, N>) -> Simd<u8, N> {
        wrapping_product(splatted::<u8, N>(self), rhs)
    }
}

impl<'a, const N: usize> core::ops::Mul<&'a Simd<u8, N>> for u8 {
    type Output = Simd<u8, N>;

    /// Computes multiplication for the uniform scalar `self` and each element of `rhs`, with wrapping arithmetic.
    fn mul(self, rhs: &'a Simd<u8, N>) -> (r: Simd<u8, N>)
        ensures
            r == wrapping_product(splatted::<u8, N>(self), *rhs),
    {
        core::ops::Mul::mul(Simd::<u8, N>::splat(self), *rhs)
    }
}

impl<'a, const N: usize> MulSpecImpl<&'a Simd<u8, N>> for u8 {
    open spec fn obeys_mul_spec() -> bool {
        true
    }

    open spec fn mul_req(self, rhs: &'a Simd<u8, N>) -> bool {
        true
    }

    open spec fn mul_spec(self, rhs: &'a Simd<u8, N>) -> Simd<u8, N> {
        wrapping_product(splatted::<u8, N>(self), *rhs)
    }
}

impl<'a, const N: usize> core::ops::Mul<Simd<u8, N>> for &'a u8 {
    type Output = Simd<u8, N>;

    /// Computes multiplication for the uniform scalar `self` and each element of `rhs`, with wrapping arithmetic.
    fn mul(self, rhs: Simd<u8, N>) -> (r: Simd<u8, N>)
        ensures
            r == wrapping_product(splatted::<u8, N>(*self), rhs),
    {
        core::ops::Mul::mul(Simd::<u8, N>::splat(*self), rhs)
    }
}

impl<'a, const N: usize> MulSpecImpl<Simd<u8, N>> for &'a u8 {
    open spec fn obeys_mul_spec() -> bool {
        true
    }

    open spec fn mul_req(self, rhs: Simd<u8, N>) -> bool {
        true
    }

    open spec fn mul_spec(self, rhs: Simd<u8, N>) -> Simd<u8, N> {
        wrapping_product(splatted::<u8, N>(*self), rhs)
    }
}

impl<'a, 'b, const N: usize> core::ops::Mul<&'b Simd<u8, N>> for &'a u8 {
    type Output = Simd<u8, N>;

    /// Computes multiplication for the uniform scalar `self` and each element of `rhs`, with wrapping arithmetic.
    fn mul(self, rhs: &'b Simd<u8, N>) -> (r: Simd<u8, N>)
        ensures
            r == wrapping_product(splatted::<u8, N>(*self), *rhs),
    {
        core::ops::Mul::mul(Simd::<u8, N>::splat(*self), *rhs)
    }
}

impl<'a, 'b, const N: usize> MulSpecImpl<&'b Simd<u8, N>> for &'a u8 {
    open spec fn obeys_mul_spec() -> bool {
        true
    }

    open spec fn mul_req(self, rhs: &'b Simd<u8, N>) -> bool {
        true
    }

    open spec fn mul_spec(self, rhs: &'b Simd<u8, N>) -> Simd<u8, N> {
        wrapping_product(splatted::<u8, N>(*self), *rhs)
    }
}

impl<const N: usize> core::ops::Mul<Simd<u16, N>> for u16 {
    type Output = Simd<u16, N>;

    /// Computes multiplication for the uniform scalar `self` and each element of `rhs`, with wrapping arithmetic.
    fn mul(self, rhs: Simd<u16, N>) -> (r: Simd<u16, N>)
        ensures
            r == wrapping_product(splatted::<u16, N>(self), rhs),
    {
        core::ops::Mul::mul(Simd::<u16, N>::splat(self), rhs)
    }
}

impl<const N: usize> MulSpecImpl<Simd<u16, N>> for u16 {
    open spec fn obeys_mul_spec() -> bool {
        true
    }

    open spec fn mul_req(self, rhs: Simd<u16, N>) -> bool {
        true
    }

    open spec fn mul_spec(self, rhs: Simd<u16, N>) -> Simd<u16, N> {
        wrapping_product(splatted::<u16, N>(self), rhs)
    }
}

impl<'a, const N: usize> core::ops::Mul<&'a Simd<u16, N>> for u16 {
    type Output = Simd<u16, N>;

    /// Computes multiplication for the uniform scalar `self` and each element of `rhs`, with wrapping arithmetic.
    fn mul(self, rhs: &'a Simd<u16, N>) -> (r: Simd<u16, N>)
        ensures
            r == wrapping_product(splatted::<u16, N>(self), *rhs),
    {
        core::ops::Mul::mul(Simd::<u16, N>::splat(self), *rhs)
    }
}

impl<'a, const N: usize> MulSpecImpl<&'a Simd<u16, N>> for u16 {
    open spec fn obeys_mul_spec() -> bool {
        true
    }

    open spec fn mul_req(self, rhs: &'a Simd<u16, N>) -> bool {
        true
    }

    open spec fn mul_spec(self, rhs: &'a Simd<u16, N>) -> Simd<u16, N> {
        wrapping_product(splatted::<u16, N>(self), *rhs)
    }
}

impl<'a, const N: usize> core::ops::Mul<Simd<u16, N>> for &'a u16 {
    type Output = Simd<u16, N>;

    /// Computes multiplication for the uniform scalar `self` and each element of `rhs`, with wrapping arithmetic.
    fn mul(self, rhs: Simd<u16, N>) -> (r: Simd<u16, N>)
        ensures
            r == wrapping_product(splatted::<u16, N>(*self), rhs),
    {
        core::ops::Mul::mul(Simd::<u16, N>::splat(*self), rhs)
    }
}

impl<'a, const N: usize> MulSpecImpl<Simd<u16, N>> for &'a u16 {
    open spec fn obeys_mul_spec() -> bool {
        true
    }

    open spec fn mul_req(self, rhs: Simd<u16, N>) -> bool {
        true
    }

    open spec fn mul_spec(self, rhs: Simd<u16, N>) -> Simd<u16, N> {
        wrapping_product(splatted::<u16, N>(*self), rhs)
    }
}

impl<'a, 'b, const N: usize> core::ops::Mul<&'b Simd<u16, N>> for &'a u16 {
    type Output = Simd<u16, N>;

    /// Computes multiplication for the uniform scalar `self` and each element of `rhs`, with wrapping arithmetic.
    fn mul(self, rhs: &'b Simd<u16, N>) -> (r: Simd<u16, N>)
        ensures
            r == wrapping_product(splatted::<u16, N>(*self), *rhs),
    {
        core::ops::Mul::mul(Simd::<u16, N>::splat(*self), *rhs)
    }
}

impl<'a, 'b, const N: usize> MulSpecImpl<&'b Simd<u16, N>> for &'a u16 {
    open spec fn obeys_mul_spec() -> bool {
        true
    }

    open spec fn mul_req(self, rhs: &'b Simd<u16, N>) -> bool {
        true
    }

    open spec fn mul_spec(self, rhs: &'b Simd<u16, N>) -> Simd<u16, N> {
        wrapping_product(splatted::<u16, N>(*self), *rhs)
    }
}

impl<const N: usize> core::ops::Mul<Simd<u32, N>> for u32 {
    type Output = Simd<u32, N>;

    /// Computes multiplication for the uniform scalar `self` and each element of `rhs`, with wrapping arithmetic.
    fn mul(self, rhs: Simd<u32, N>) -> (r: Simd<u32, N>)
        ensures
            r == wrapping_product(splatted::<u32, N>(self), rhs),
    {
        core::ops::Mul::mul(Simd::<u32, N>::splat(self), rhs)
    }
}

impl<const N: usize> MulSpecImpl<Simd<u32, N>> for u32 {
    open spec fn obeys_mul_spec() -> bool {
        true
    }

    open spec fn mul_req(self, rhs: Simd<u32, N>) -> bool {
        true
    }

    open spec fn mul_spec(self, rhs: Simd<u32, N>) -> Simd<u32, N> {
        wrapping_product(splatted::<u32, N>(self), rhs)
    }
}

impl<'a, const N: usize> core::ops::Mul<&'a Simd<u32, N>> for u32 {
    type Output = Simd<u32, N>;

    /// Computes multiplication for the uniform scalar `self` and each element of `rhs`, with wrapping arithmetic.
    fn mul(self, rhs: &'a Simd<u32, N>) -> (r: Simd<u32, N>)
        ensures
            r == wrapping_product(splatted::<u32, N>(self), *rhs),
    {
        core::ops::Mul::mul(Simd::<u32, N>::splat(self), *rhs)
    }
}

impl<'a, const N: usize> MulSpecImpl<&'a Simd<u32, N>> for u32 {
    open spec fn obeys_mul_spec() -> bool {
        true
    }

    open spec fn mul_req(self, rhs: &'a Simd<u32, N>) -> bool {
        true
    }

    open spec fn mul_spec(self, rhs: &'a Simd<u32, N>) -> Simd<u32, N> {
        wrapping_product(splatted::<u32, N>(self), *rhs)
    }
}

impl<'a, const N: usize> core::ops::Mul<Simd<u32, N>> for &'a u32 {
    type Output = Simd<u32, N>;

    /// Computes multiplication for the uniform scalar `self` and each element of `rhs`, with wrapping arithmetic.
    fn mul(self, rhs: Simd<u32, N>) -> (r: Simd<u32, N>)
        ensures
            r == wrapping_product(splatted::<u32, N>(*self), rhs),
    {
        core::ops::Mul::mul(Simd::<u32, N>::splat(*self), rhs)
    }
}

impl<'a, const N: usize> MulSpecImpl<Simd<u32, N>> for &'a u32 {
    open spec fn obeys_mul_spec() -> bool {
        true
    }

    open spec fn mul_req(self, rhs: Simd<u32, N>) -> bool {
        true
    }

    open spec fn mul_spec(self, rhs: Simd<u32, N>) -> Simd<u32, N> {
        wrapping_product(splatted::<u32, N>(*self), rhs)
    }
}

impl<'a, 'b, const N: usize> core::ops::Mul<&'b Simd<u32, N>> for &'a u32 {
    type Output = Simd<u32, N>;

    /// Computes multiplication for the uniform scalar `self` and each element of `rhs`, with wrapping arithmetic.
    fn mul(self, rhs: &'b Simd<u32, N>) -> (r: Simd<u32, N>)
        ensures
            r == wrapping_product(splatted::<u32, N>(*self), *rhs),
    {
        core::ops::Mul::mul(Simd::<u32, N>::splat(*self), *rhs)
    }
}

impl<'a, 'b, const N: usize> MulSpecImpl<&'b Simd<u32, N>> for &'a u32 {
    open spec fn obeys_mul_spec() -> bool {
        true
    }

    open spec fn mul_req(self, rhs: &'b Simd<u32, N>) -> bool {
        true
    }

    open spec fn mul_spec(self, rhs: &'b Simd<u32, N>) -> Simd<u32, N> {
        wrapping_product(splatted::<u32, N>(*self), *rhs)
    }
}

impl<const N: usize> core::ops::Mul<Simd<u64, N>> for u64 {
    type Output = Simd<u64, N>;

    /// Computes multiplication for the uniform scalar `self` and each element of `rhs`, with wrapping arithmetic.
    fn mul(self, rhs: Simd<u64, N>) -> (r: Simd<u64, N>)
        ensures
            r == wrapping_product(splatted::<u64, N>(self), rhs),
    {
        core::ops::Mul::mul(Simd::<u64, N>::splat(self), rhs)
    }
}

impl<const N: usize> MulSpecImpl<Simd<u64, N>> for u64 {
    open spec fn obeys_mul_spec() -> bool {
        true
    }

    open spec fn mul_req(self, rhs: Simd<u64, N>) -> bool {
        true
    }

    open spec fn mul_spec(self, rhs: Simd<u64, N>) -> Simd<u64, N> {
        wrapping_product(splatted::<u64, N>(self), rhs)
    }
}

impl<'a, const N: usize> core::ops::Mul<&'a Simd<u64, N>> for u64 {
    type Output = Simd<u64, N>;

    /// Computes multiplication for the uniform scalar `self` and each element of `rhs`, with wrapping arithmetic.
    fn mul(self, rhs: &'a Simd<u64, N>) -> (r: Simd<u64, N>)
        ensures
            r == wrapping_product(splatted::<u64, N>(self), *rhs),
    {
        core::ops::Mul::mul(Simd::<u64, N>::splat(self), *rhs)
    }
}

impl<'a, const N: usize> MulSpecImpl<&'a Simd<u64, N>> for u64 {
    open spec fn obeys_mul_spec() -> bool {
        true
    }

    open spec fn mul_req(self, rhs: &'a Simd<u64, N>) -> bool {
        true
    }

    open spec fn mul_spec(self, rhs: &'a Simd<u64, N>) -> Simd<u64, N> {
        wrapping_product(splatted::<u64, N>(self), *rhs)
    }
}

impl<'a, const N: usize> core::ops::Mul<Simd<u64, N>> for &'a u64 {
    type Output = Simd<u64, N>;

    /// Computes multiplication for the uniform scalar `self` and each element of `rhs`, with wrapping arithmetic.
    fn mul(self, rhs: Simd<u64, N>) -> (r: Simd<u64, N>)
        ensures
            r == wrapping_product(splatted::<u64, N>(*self), rhs),
    {
        core::ops::Mul::mul(Simd::<u64, N>::splat(*self), rhs)
    }
}

impl<'a, const N: usize> MulSpecImpl<Simd<u64, N>> for &'a u64 {
    open spec fn obeys_mul_spec() -> bool {
        true
    }

    open spec fn mul_req(self, rhs: Simd<u64, N>) -> bool {
        true
    }

    open spec fn mul_spec(self, rhs: Simd<u64, N>) -> Simd<u64, N> {
        wrapping_product(splatted::<u64, N>(*self), rhs)
    }
}

impl<'a, 'b, const N: usize> core::ops::Mul<&'b Simd<u64, N>> for &'a u64 {
    type Output = Simd<u64, N>;

    /// Computes multiplication for the uniform scalar `self` and each element of `rhs`, with wrapping arithmetic.
    fn mul(self, rhs: &'b Simd<u64, N>) -> (r: Simd<u64, N>)
        ensures
            r == wrapping_product(splatted::<u64, N>(*self), *rhs),
    {
        core::ops::Mul::mul(Simd::<u64, N>::splat(*self), *rhs)
    }
}

impl<'a, 'b, const N: usize> MulSpecImpl<&'b Simd<u64, N>> for &'a u64 {
    open spec fn obeys_mul_spec() -> bool {
        true
    }

    open spec fn mul_req(self, rhs: &'b Simd<u64, N>) -> bool {
        true
    }

    open spec fn mul_spec(self, rhs: &'b Simd<u64, N>) -> Simd<u64, N> {
        wrapping_product(splatted::<u64, N>(*self), *rhs)
    }
}

impl<const N: usize> core::ops::Mul<Simd<i8, N>> for i8 {
    type Output = Simd<i8, N>;

    /// Computes multiplication for the uniform scalar `self` and each element of `rhs`, with wrapping arithmetic.
    fn mul(self, rhs: Simd<i8, N>) -> (r: Simd<i8, N>)
        ensures
            r == wrapping_product(splatted::<i8, N>(self), rhs),
    {
        core::ops::Mul::mul(Simd::<i8, N>::splat(self), rhs)
    }
}

impl<const N: usize> MulSpecImpl<Simd<i8, N>> for i8 {
    open spec fn obeys_mul_spec() -> bool {
        true
    }

    open spec fn mul_req(self, rhs: Simd<i8, N>) -> bool {
        true
    }

    open spec fn mul_spec(self, rhs: Simd<i8, N>) -> Simd<i8, N> {
        wrapping_product(splatted::<i8, N>(self), rhs)
    }
}

impl<'a, const N: usize> core::ops::Mul<&'a Simd<i8, N>> for i8 {
    type Output = Simd<i8, N>;

    /// Computes multiplication for the uniform scalar `self` and each element of `rhs`, with wrapping arithmetic.
    fn mul(self, rhs: &'a Simd<i8, N>) -> (r: Simd<i8, N>)
        ensures
            r == wrapping_product(splatted::<i8, N>(self), *rhs),
    {
        core::ops::Mul::mul(Simd::<i8, N>::splat(self), *rhs)
    }
}

impl<'a, const N: usize> MulSpecImpl<&'a Simd<i8, N>> for i8 {
    open spec fn obeys_mul_spec() -> bool {
        true
    }

    open spec fn mul_req(self, rhs: &'a Simd<i8, N>) -> bool {
        true
    }

    open spec fn mul_spec(self, rhs: &'a Simd<i8, N>) -> Simd<i8, N> {
        wrapping_product(splatted::<i8, N>(self), *rhs)
    }
}

impl<'a, const N: usize> core::ops::Mul<Simd<i8, N>> for &'a i8 {
    type Output = Simd<i8, N>;

    /// Computes multiplication for the uniform scalar `self` and each element of `rhs`, with wrapping arithmetic.
    fn mul(self, rhs: Simd<i8, N>) -> (r: Simd<i8, N>)
        ensures
            r == wrapping_product(splatted::<i8, N>(*self), rhs),
    {
        core::ops::Mul::mul(Simd::<i8, N>::splat(*self), rhs)
    }
}

impl<'a, const N: usize> MulSpecImpl<Simd<i8, N>> for &'a i8 {
    open spec fn obeys_mul_spec() -> bool {
        true
    }

    open spec fn mul_req(self, rhs: Simd<i8, N>) -> bool {
        true
    }

    open spec fn mul_spec(self, rhs: Simd<i8, N>) -> Simd<i8, N> {
        wrapping_product(splatted::<i8, N>(*self), rhs)
    }
}

impl<'a, 'b, const N: usize> core::ops::Mul<&'b Simd<i8, N>> for &'a i8 {
    type Output = Simd<i8, N>;

    /// Computes multiplication for the uniform scalar `self` and each element of `rhs`, with wrapping arithmetic.
    fn mul(self, rhs: &'b Simd<i8, N>) -> (r: Simd<i8, N>)
        ensures
            r == wrapping_product(splatted::<i8, N>(*self), *rhs),
    {
        core::ops::Mul::mul(Simd::<i8, N>::splat(*self), *rhs)
    }
}

impl<'a, 'b, const N: usize> MulSpecImpl<&'b Simd<i8, N>> for &'a i8 {
    open spec fn obeys_mul_spec() -> bool {
        true
    }

    open spec fn mul_req(self, rhs: &'b Simd<i8, N>) -> bool {
        true
    }

    open spec fn mul_spec(self, rhs: &'b Simd<i8, N>) -> Simd<i8, N> {
        wrapping_product(splatted::<i8, N>(*self), *rhs)
    }
}

impl<const N: usize> core::ops::Mul<Simd<i16, N>> for i16 {
    type Output = Simd<i16, N>;

    /// Computes multiplication for the uniform scalar `self` and each element of `rhs`, with wrapping arithmetic.
    fn mul(self, rhs: Simd<i16, N>) -> (r: Simd<i16, N>)
        ensures
            r == wrapping_product(splatted::<i16, N>(self), rhs),
    {
        core::ops::Mul::mul(Simd::<i16, N>::splat(self), rhs)
    }
}

impl<const N: usize> MulSpecImpl<Simd<i16, N>> for i16 {
    open spec fn obeys_mul_spec() -> bool {
        true
    }

    open spec fn mul_req(self, rhs: Simd<i16, N>) -> bool {
        true
    }

    open spec fn mul_spec(self, rhs: Simd<i16, N>) -> Simd<i16, N> {
        wrapping_product(splatted::<i16, N>(self), rhs)
    }
}

impl<'a, const N: usize> core::ops::Mul<&'a Simd<i16, N>> for i16 {
    type Output = Simd<i16, N>;

    /// Computes multiplication for the uniform scalar `self` and each element of `rhs`, with wrapping arithmetic.
    fn mul(self, rhs: &'a Simd<i16, N>) -> (r: Simd<i16, N>)
        ensures
            r == wrapping_product(splatted::<i16, N>(self), *rhs),
    {
        core::ops::Mul::mul(Simd::<i16, N>::splat(self), *rhs)
    }
}

impl<'a, const N: usize> MulSpecImpl<&'a Simd<i16, N>> for i16 {
    open spec fn obeys_mul_spec() -> bool {
        true
    }

    open spec fn mul_req(self, rhs: &'a Simd<i16, N>) -> bool {
        true
    }

    open spec fn mul_spec(self, rhs: &'a Simd<i16, N>) -> Simd<i16, N> {
        wrapping_product(splatted::<i16, N>(self), *rhs)
    }
}

impl<'a, const N: usize> core::ops::Mul<Simd<i16, N>> for &'a i16 {
    type Output = Simd<i16, N>;

    /// Computes multiplication for the uniform scalar `self` and each element of `rhs`, with wrapping arithmetic.
    fn mul(self, rhs: Simd<i16, N>) -> (r: Simd<i16, N>)
        ensures
            r == wrapping_product(splatted::<i16, N>(*self), rhs),
    {
        core::ops::Mul::mul(Simd::<i16, N>::splat(*self), rhs)
    }
}

impl<'a, const N: usize> MulSpecImpl<Simd<i16, N>> for &'a i16 {
    open spec fn obeys_mul_spec() -> bool {
        true
    }

    open spec fn mul_req(self, rhs: Simd<i16, N>) -> bool {
        true
    }

    open spec fn mul_spec(self, rhs: Simd<i16, N>) -> Simd<i16, N> {
        wrapping_product(splatted::<i16, N>(*self), rhs)
    }
}

impl<'a, 'b, const N: usize> core::ops::Mul<&'b Simd<i16, N>> for &'a i16 {
    type Output = Simd<i16, N>;

    /// Computes multiplication for the uniform scalar `self` and each element of `rhs`, with wrapping arithmetic.
    fn mul(self, rhs: &'b Simd<i16, N>) -> (r: Simd<i16, N>)
        ensures
            r == wrapping_product(splatted::<i16, N>(*self), *rhs),
    {
        core::ops::Mul::mul(Simd::<i16, N>::splat(*self), *rhs)
    }
}

impl<'a, 'b, const N: usize> MulSpecImpl<&'b Simd<i16, N>> for &'a i16 {
    open spec fn obeys_mul_spec() -> bool {
        true
    }

    open spec fn mul_req(self, rhs: &'b Simd<i16, N>) -> bool {
        true
    }

    open spec fn mul_spec(self, rhs: &'b Simd<i16, N>) -> Simd<i16, N> {
        wrapping_product(splatted::<i16, N>(*self), *rhs)
    }
}

impl<const N: usize> core::ops::Mul<Simd<i32, N>> for i32 {
    type Output = Simd<i32, N>;

    /// Computes multiplication for the uniform scalar `self` and each element of `rhs`, with wrapping arithmetic.
    fn mul(self, rhs: Simd<i32, N>) -> (r: Simd<i32, N>)
        ensures
            r == wrapping_product(splatted::<i32, N>(self), rhs),
    {
        core::ops::Mul::mul(Simd::<i32, N>::splat(self), rhs)
    }
}

impl<const N: usize> MulSpecImpl<Simd<i32, N>> for i32 {
    open spec fn obeys_mul_spec() -> bool {
        true
    }

    open spec fn mul_req(self, rhs: Simd<i32, N>) -> bool {
        true
    }

    open spec fn mul_spec(self, rhs: Simd<i32, N>) -> Simd<i32, N> {
        wrapping_product(splatted::<i32, N>(self), rhs)
    }
}

impl<'a, const N: usize> core::ops::Mul<&'a Simd<i32, N>> for i32 {
    type Output = Simd<i32, N>;

    /// Computes multiplication for the uniform scalar `self` and each element of `rhs`, with wrapping arithmetic.
    fn mul(self, rhs: &'a Simd<i32, N>) -> (r: Simd<i32, N>)
        ensures
            r == wrapping_product(splatted::<i32, N>(self), *rhs),
    {
        core::ops::Mul::mul(Simd::<i32, N>::splat(self), *rhs)
    }
}

impl<'a, const N: usize> MulSpecImpl<&'a Simd<i32, N>> for i32 {
    open spec fn obeys_mul_spec() -> bool {
        true
    }

    open spec fn mul_req(self, rhs: &'a Simd<i32, N>) -> bool {
        true
    }

    open spec fn mul_spec(self, rhs: &'a Simd<i32, N>) -> Simd<i32, N> {
        wrapping_product(splatted::<i32, N>(self), *rhs)
    }
}

impl<'a, const N: usize> core::ops::Mul<Simd<i32, N>> for &'a i32 {
    type Output = Simd<i32, N>;

    /// Computes multiplication for the uniform scalar `self` and each element of `rhs`, with wrapping arithmetic.
    fn mul(self, rhs: Simd<i32, N>) -> (r: Simd<i32, N>)
        ensures
            r == wrapping_product(splatted::<i32, N>(*self), rhs),
    {
        core::ops::Mul::mul(Simd::<i32, N>::splat(*self), rhs)
    }
}

impl<'a, const N: usize> MulSpecImpl<Simd<i32, N>> for &'a i32 {
    open spec fn obeys_mul_spec() -> bool {
        true
    }

    open spec fn mul_req(self, rhs: Simd<i32, N>) -> bool {
        true
    }

    open spec fn mul_spec(self, rhs: Simd<i32, N>) -> Simd<i32, N> {
        wrapping_product(splatted::<i32, N>(*self), rhs)
    }
}

impl<'a, 'b, const N: usize> core::ops::Mul<&'b Simd<i32, N>> for &'a i32 {
    type Output = Simd<i32, N>;

    /// Computes multiplication for the uniform scalar `self` and each element of `rhs`, with wrapping arithmetic.
    fn mul(self, rhs: &'b Simd<i32, N>) -> (r: Simd<i32, N>)
        ensures
            r == wrapping_product(splatted::<i32, N>(*self), *rhs),
    {
        core::ops::Mul::mul(Simd::<i32, N>::splat(*self), *rhs)
    }
}

impl<'a, 'b, const N: usize> MulSpecImpl<&'b Simd<i32, N>> for &'a i32 {
    open spec fn obeys_mul_spec() -> bool {
        true
    }

    open spec fn mul_req(self, rhs: &'b Simd<i32, N>) -> bool {
        true
    }

    open spec fn mul_spec(self, rhs: &'b Simd<i32, N>) -> Simd<i32, N> {
        wrapping_product(splatted::<i32, N>(*self), *rhs)
    }
}

impl<const N: usize> core::ops::Mul<Simd<i64, N>> for i64 {
    type Output = Simd<i64, N>;

    /// Computes multiplication for the uniform scalar `self` and each element of `rhs`, with wrapping arithmetic.
    fn mul(self, rhs: Simd<i64, N>) -> (r: Simd<i64, N>)
        ensures
            r == wrapping_product(splatted::<i64, N>(self), rhs),
    {
        core::ops::Mul::mul(Simd::<i64, N>::splat(self), rhs)
    }
}

impl<const N: usize> MulSpecImpl<Simd<i64, N>> for i64 {
    open spec fn obeys_mul_spec() -> bool {
        true
    }

    open spec fn mul_req(self, rhs: Simd<i64, N>) -> bool {
        true
    }

    open spec fn mul_spec(self, rhs: Simd<i64, N>) -> Simd<i64, N> {
        wrapping_product(splatted::<i64, N>(self), rhs)
    }
}

impl<'a, const N: usize> core::ops::Mul<&'a Simd<i64, N>> for i64 {
    type Output = Simd<i64, N>;

    /// Computes multiplication for the uniform scalar `self` and each element of `rhs`, with wrapping arithmetic.
    fn mul(self, rhs: &'a Simd<i64, N>) -> (r: Simd<i64, N>)
        ensures
            r == wrapping_product(splatted::<i64, N>(self), *rhs),
    {
        core::ops::Mul::mul(Simd::<i64, N>::splat(self), *rhs)
    }
}

impl<'a, const N: usize> MulSpecImpl<&'a Simd<i64, N>> for i64 {
    open spec fn obeys_mul_spec() -> bool {
        true
    }

    open spec fn mul_req(self, rhs: &'a Simd<i64, N>) -> bool {
        true
    }

    open spec fn mul_spec(self, rhs: &'a Simd<i64, N>) -> Simd<i64, N> {
        wrapping_product(splatted::<i64, N>(self), *rhs)
    }
}

impl<'a, const N: usize> core::ops::Mul<Simd<i64, N>> for &'a i64 {
    type Output = Simd<i64, N>;

    /// Computes multiplication for the uniform scalar `self` and each element of `rhs`, with wrapping arithmetic.
    fn mul(self, rhs: Simd<i64, N>) -> (r: Simd<i64, N>)
        ensures
            r == wrapping_product(splatted::<i64, N>(*self), rhs),
    {
        core::ops::Mul::mul(Simd::<i64, N>::splat(*self), rhs)
    }
}

impl<'a, const N: usize> MulSpecImpl<Simd<i64, N>> for &'a i64 {
    open spec fn obeys_mul_spec() -> bool {
        true
    }

    open spec fn mul_req(self, rhs: Simd<i64, N>) -> bool {
        true
    }

    open spec fn mul_spec(self, rhs: Simd<i64, N>) -> Simd<i64, N> {
        wrapping_product(splatted::<i64, N>(*self), rhs)
    }
}

impl<'a, 'b, const N: usize> core::ops::Mul<&'b Simd<i64, N>> for &'a i64 {
    type Output = Simd<i64, N>;

    /// Computes multiplication for the uniform scalar `self` and each element of `rhs`, with wrapping arithmetic.
    fn mul(self, rhs: &'b Simd<i64, N>) -> (r: Simd<i64, N>)
        ensures
            r == wrapping_product(splatted::<i64, N>(*self), *rhs),
    {
        core::ops::Mul::mul(Simd::<i64, N>::splat(*self), *rhs)
    }
}

impl<'a, 'b, const N: usize> MulSpecImpl<&'b Simd<i64, N>> for &'a i64 {
    open spec fn obeys_mul_spec() -> bool {
        true
    }

    open spec fn mul_req(self, rhs: &'b Simd<i64, N>) -> bool {
        true
    }

    open spec fn mul_spec(self, rhs: &'b Simd<i64, N>) -> Simd<i64, N> {
        wrapping_product(splatted::<i64, N>(*self), *rhs)
    }
}

impl<'a, T: SimdElement, const N: usize> core::ops::Div<&'a Simd<T, N>> for Simd<T, N> {
    type Output = Simd<T, N>;

    /// Computes division for each element of `self` and the corresponding element of `rhs`, rounded toward zero, with wrapping arithmetic. No element of `rhs` may be zero.
    fn div(self, rhs: &'a Simd<T, N>) -> (r: Simd<T, N>)
        ensures
            r == wrapping_quotient(self, *rhs),
    {
        core::ops::Div::div(self, *rhs)
    }
}

impl<'a, T: SimdElement, const N: usize> DivSpecImpl<&'a Simd<T, N>> for Simd<T, N> {
    open spec fn obeys_div_spec() -> bool {
        true
    }

    open spec fn div_req(self, rhs: &'a Simd<T, N>) -> bool {
        nonzero_lanes(*rhs)
    }

    open spec fn div_spec(self, rhs: &'a Simd<T, N>) -> Simd<T, N> {
        wrapping_quotient(self, *rhs)
    }
}

impl<'a, T: SimdElement, const N: usize> core::ops::Div<&'a T> for Simd<T, N> {
    type Output = Simd<T, N>;

    /// Computes division for each element of `self` and the uniform scalar `rhs`, rounded toward zero, with wrapping arithmetic. `rhs` may not be zero.
    fn div(self, rhs: &'a T) -> (r: Simd<T, N>)
        ensures
            r == wrapping_quotient(self, splatted::<T, N>(*rhs)),
    {
        core::ops::Div::div(self, *rhs)
    }
}

impl<'a, T: SimdElement, const N: usize> DivSpecImpl<&'a T> for Simd<T, N> {
    open spec fn obeys_div_spec() -> bool {
        true
    }

    open spec fn div_req(self, rhs: &'a T) -> bool {
        (*rhs).value() != 0
    }

    open spec fn div_spec(self, rhs: &'a T) -> Simd<T, N> {
        wrapping_quotient(self, splatted::<T, N>(*rhs))
    }
}

impl<'a, T: SimdElement, const N: usize> core::ops::Div<Simd<T, N>> for &'a Simd<T, N> {
    type Output = Simd<T, N>;

    /// Computes division for each element of `self` and the corresponding element of `rhs`, rounded toward zero, with wrapping arithmetic. No element of `rhs` may be zero.
    fn div(self, rhs: Simd<T, N>) -> (r: Simd<T, N>)
        ensures
            r == wrapping_quotient(*self, rhs),
    {
        core::ops::Div::div(*self, rhs)
    }
}

impl<'a, T: SimdElement, const N: usize> DivSpecImpl<Simd<T, N>> for &'a Simd<T, N> {
    open spec fn obeys_div_spec() -> bool {
        true
    }

    open spec fn div_req(self, rhs: Simd<T, N>) -> bool {
        nonzero_lanes(rhs)
    }

    open spec fn div_spec(self, rhs: Simd<T, N>) -> Simd<T, N> {
        wrapping_quotient(*self, rhs)
    }
}

impl<'a, T: SimdElement, const N: usize> core::ops::Div<T> for &'a Simd<T, N> {
    type Output = Simd<T, N>;

    /// Computes division for each element of `self` and the uniform scalar `rhs`, rounded toward zero, with wrapping arithmetic. `rhs` may not be zero.
    fn div(self, rhs: T) -> (r: Simd<T, N>)
        ensures
            r == wrapping_quotient(*self, splatted::<T, N>(rhs)),
    {
        core::ops::Div::div(*self, rhs)
    }
}

impl<'a, T: SimdElement, const N: usize> DivSpecImpl<T> for &'a Simd<T, N> {
    open spec fn obeys_div_spec() -> bool {
        true
    }

    open spec fn div_req(self, rhs: T) -> bool {
        rhs.value() != 0
    }

    open spec fn div_spec(self, rhs: T) -> Simd<T, N> {
        wrapping_quotient(*self, splatted::<T, N>(rhs))
    }
}

impl<'a, 'b, T: SimdElement, const N: usize> core::ops::Div<&'b Simd<T, N>> for &'a Simd<T, N> {
    type Output = Simd<T, N>;

    /// Computes division for each element of `self` and the corresponding element of `rhs`, rounded toward zero, with wrapping arithmetic. No element of `rhs` may be zero.
    fn div(self, rhs: &'b Simd<T, N>) -> (r: Simd<T, N>)
        ensures
            r == wrapping_quotient(*self, *rhs),
    {
        core::ops::Div::div(*self, *rhs)
    }
}

impl<'a, 'b, T: SimdElement, const N: usize> DivSpecImpl<&'b Simd<T, N>> for &'a Simd<T, N> {
    open spec fn obeys_div_spec() -> bool {
        true
    }

    open spec fn div_req(self, rhs: &'b Simd<T, N>) -> bool {
        nonzero_lanes(*rhs)
    }

    open spec fn div_spec(self, rhs: &'b Simd<T, N>) -> Simd<T, N> {
        wrapping_quotient(*self, *rhs)
    }
}

impl<'a, 'b, T: SimdElement, const N: usize> core::ops::Div<&'b T> for &'a Simd<T, N> {
    type Output = Simd<T, N>;

    /// Computes division for each element of `self` and the uniform scalar `rhs`, rounded toward zero, with wrapping arithmetic. `rhs` may not be zero.
    fn div(self, rhs: &'b T) -> (r: Simd<T, N>)
        ensures
            r == wrapping_quotient(*self, splatted::<T, N>(*rhs)),
    {
        core::ops::Div::div(*self, *rhs)
    }
}

impl<'a, 'b, T: SimdElement, const N: usize> DivSpecImpl<&'b T> for &'a Simd<T, N> {
    open spec fn obeys_div_spec() -> bool {
        true
    }

    open spec fn div_req(self, rhs: &'b T) -> bool {
        (*rhs).value() != 0
    }

    open spec fn div_spec(self, rhs: &'b T) -> Simd<T, N> {
        wrapping_quotient(*self, splatted::<T, N>(*rhs))
    }
}

impl<const N: usize> core::ops::Div<Simd<u8, N>> for u8 {
    type Output = Simd<u8, N>;

    /// Computes division for the uniform scalar `self` and each element of `rhs`, rounded toward zero, with wrapping arithmetic. No element of `rhs` may be zero.
    fn div(self, rhs: Simd<u8, N>) -> (r: Simd<u8, N>)
        ensures
            r == wrapping_quotient(splatted::<u8, N>(self), rhs),
    {
        core::ops::Div::div(Simd::<u8, N>::splat(self), rhs)
    }
}

impl<const N: usize> DivSpecImpl<Simd<u8, N>> for u8 {
    open spec fn obeys_div_spec() -> bool {
        true
    }

    open spec fn div_req(self, rhs: Simd<u8, N>) -> bool {
        nonzero_lanes(rhs)
    }

    open spec fn div_spec(self, rhs: Simd<u8, N>) -> Simd<u8, N> {
        wrapping_quotient(splatted::<u8, N>(self), rhs)
    }
}

impl<'a, const N: usize> core::ops::Div<&'a Simd<u8, N>> for u8 {
    type Output = Simd<u8, N>;

    /// Computes division for the uniform scalar `self` and each element of `rhs`, rounded toward zero, with wrapping arithmetic. No element of `rhs` may be zero.
    fn div(self, rhs: &'a Simd<u8, N>) -> (r: Simd<u8, N>)
        ensures
            r == wrapping_quotient(splatted::<u8, N>(self), *rhs),
    {
        core::ops::Div::div(Simd::<u8, N>::splat(self), *rhs)
    }
}

impl<'a, const N: usize> DivSpecImpl<&'a Simd<u8, N>> for u8 {
    open spec fn obeys_div_spec() -> bool {
        true
    }

    open spec fn div_req(self, rhs: &'a Simd<u8, N>) -> bool {
        nonzero_lanes(*rhs)
    }

    open spec fn div_spec(self, rhs: &'a Simd<u8, N>) -> Simd<u8, N> {
        wrapping_quotient(splatted::<u8, N>(self), *rhs)
    }
}

impl<'a, const N: usize> core::ops::Div<Simd<u8, N>> for &'a u8 {
    type Output = Simd<u8, N>;

    /// Computes division for the uniform scalar `self` and each element of `rhs`, rounded toward zero, with wrapping arithmetic. No element of `rhs` may be zero.
    fn div(self, rhs: Simd<u8, N>) -> (r: Simd<u8, N>)
        ensures
            r == wrapping_quotient(splatted::<u8, N>(*self), rhs),
    {
        core::ops::Div::div(Simd::<u8, N>::splat(*self), rhs)
    }
}

impl<'a, const N: usize> DivSpecImpl<Simd<u8, N>> for &'a u8 {
    open spec fn obeys_div_spec() -> bool {
        true
    }

    open spec fn div_req(self, rhs: Simd<u8, N>) -> bool {
        nonzero_lanes(rhs)
    }

    open spec fn div_spec(self, rhs: Simd<u8, N>) -> Simd<u8, N> {
        wrapping_quotient(splatted::<u8, N>(*self), rhs)
    }
}

impl<'a, 'b, const N: usize> core::ops::Div<&'b Simd<u8, N>> for &'a u8 {
    type Output = Simd<u8, N>;

    /// Computes division for the uniform scalar `self` and each element of `rhs`, rounded toward zero, with wrapping arithmetic. No element of `rhs` may be zero.
    fn div(self, rhs: &'b Simd<u8, N>) -> (r: Simd<u8, N>)
        ensures
            r == wrapping_quotient(splatted::<u8, N>(*self), *rhs),
    {
        core::ops::Div::div(Simd::<u8, N>::splat(*self), *rhs)
    }
}

impl<'a, 'b, const N: usize> DivSpecImpl<&'b Simd<u8, N>> for &'a u8 {
    open spec fn obeys_div_spec() -> bool {
        true
    }

    open spec fn div_req(self, rhs: &'b Simd<u8, N>) -> bool {
        nonzero_lanes(*rhs)
    }

    open spec fn div_spec(self, rhs: &'b Simd<u8, N>) -> Simd<u8, N> {
        wrapping_quotient(splatted::<u8, N>(*self), *rhs)
    }
}

impl<const N: usize> core::ops::Div<Simd<u16, N>> for u16 {
    type Output = Simd<u16, N>;

    /// Computes division for the uniform scalar `self` and each element of `rhs`, rounded toward zero, with wrapping arithmetic. No element of `rhs` may be zero.
    fn div(self, rhs: Simd<u16, N>) -> (r: Simd<u16, N>)
        ensures
            r == wrapping_quotient(splatted::<u16, N>(self), rhs),
    {
        core::ops::Div::div(Simd::<u16, N>::splat(self), rhs)
    }
}

impl<const N: usize> DivSpecImpl<Simd<u16, N>> for u16 {
    open spec fn obeys_div_spec() -> bool {
        true
    }

    open spec fn div_req(self, rhs: Simd<u16, N>) -> bool {
        nonzero_lanes(rhs)
    }

    open spec fn div_spec(self, rhs: Simd<u16, N>) -> Simd<u16, N> {
        wrapping_quotient(splatted::<u16, N>(self), rhs)
    }
}

impl<'a, const N: usize> core::ops::Div<&'a Simd<u16, N>> for u16 {
    type Output = Simd<u16, N>;

    /// Computes division for the uniform scalar `self` and each element of `rhs`, rounded toward zero, with wrapping arithmetic. No element of `rhs` may be zero.
    fn div(self, rhs: &'a Simd<u16, N>) -> (r: Simd<u16, N>)
        ensures
            r == wrapping_quotient(splatted::<u16, N>(self), *rhs),
    {
        core::ops::Div::div(Simd::<u16, N>::splat(self), *rhs)
    }
}

impl<'a, const N: usize> DivSpecImpl<&'a Simd<u16, N>> for u16 {
    open spec fn obeys_div_spec() -> bool {
        true
    }

    open spec fn div_req(self, rhs: &'a Simd<u16, N>) -> bool {
        nonzero_lanes(*rhs)
    }

    open spec fn div_spec(self, rhs: &'a Simd<u16, N>) -> Simd<u16, N> {
        wrapping_quotient(splatted::<u16, N>(self), *rhs)
    }
}

impl<'a, const N: usize> core::ops::Div<Simd<u16, N>> for &'a u16 {
    type Output = Simd<u16, N>;

    /// Computes division for the uniform scalar `self` and each element of `rhs`, rounded toward zero, with wrapping arithmetic. No element of `rhs` may be zero.
    fn div(self, rhs: Simd<u16, N>) -> (r: Simd<u16, N>)
        ensures
            r == wrapping_quotient(splatted::<u16, N>(*self), rhs),
    {
        core::ops::Div::div(Simd::<u16, N>::splat(*self), rhs)
    }
}

impl<'a, const N: usize> DivSpecImpl<Simd<u16, N>> for &'a u16 {
    open spec fn obeys_div_spec() -> bool {
        true
    }

    open spec fn div_req(self, rhs: Simd<u16, N>) -> bool {
        nonzero_lanes(rhs)
    }

    open spec fn div_spec(self, rhs: Simd<u16, N>) -> Simd<u16, N> {
        wrapping_quotient(splatted::<u16, N>(*self), rhs)
    }
}

impl<'a, 'b, const N: usize> core::ops::Div<&'b Simd<u16, N>> for &'a u16 {
    type Output = Simd<u16, N>;

    /// Computes division for the uniform scalar `self` and each element of `rhs`, rounded toward zero, with wrapping arithmetic. No element of `rhs` may be zero.
    fn div(self, rhs: &'b Simd<u16, N>) -> (r: Simd<u16, N>)
        ensures
            r == wrapping_quotient(splatted::<u16, N>(*self), *rhs),
    {
        core::ops::Div::div(Simd::<u16, N>::splat(*self), *rhs)
    }
}

impl<'a, 'b, const N: usize> DivSpecImpl<&'b Simd<u16, N>> for &'a u16 {
    open spec fn obeys_div_spec() -> bool {
        true
    }

    open spec fn div_req(self, rhs: &'b Simd<u16, N>) -> bool {
        nonzero_lanes(*rhs)
    }

    open spec fn div_spec(self, rhs: &'b Simd<u16, N>) -> Simd<u16, N> {
        wrapping_quotient(splatted::<u16, N>(*self), *rhs)
    }
}

impl<const N: usize> core::ops::Div<Simd<u32, N>> for u32 {
    type Output = Simd<u32, N>;

    /// Computes division for the uniform scalar `self` and each element of `rhs`, rounded toward zero, with wrapping arithmetic. No element of `rhs` may be zero.
    fn div(self, rhs: Simd<u32, N>) -> (r: Simd<u32, N>)
        ensures
            r == wrapping_quotient(splatted::<u32, N>(self), rhs),
    {
        core::ops::Div::div(Simd::<u32, N>::splat(self), rhs)
    }
}

impl<const N: usize> DivSpecImpl<Simd<u32, N>> for u32 {
    open spec fn obeys_div_spec() -> bool {
        true
    }

    open spec fn div_req(self, rhs: Simd<u32, N>) -> bool {
        nonzero_lanes(rhs)
    }

    open spec fn div_spec(self, rhs: Simd<u32, N>) -> Simd<u32, N> {
        wrapping_quotient(splatted::<u32, N>(self), rhs)
    }
}

impl<'a, const N: usize> core::ops::Div<&'a Simd<u32, N>> for u32 {
    type Output = Simd<u32, N>;

    /// Computes division for the uniform scalar `self` and each element of `rhs`, rounded toward zero, with wrapping arithmetic. No element of `rhs` may be zero.
    fn div(self, rhs: &'a Simd<u32, N>) -> (r: Simd<u32, N>)
        ensures
            r == wrapping_quotient(splatted::<u32, N>(self), *rhs),
    {
        core::ops::Div::div(Simd::<u32, N>::splat(self), *rhs)
    }
}

impl<'a, const N: usize> DivSpecImpl<&'a Simd<u32, N>> for u32 {
    open spec fn obeys_div_spec() -> bool {
        true
    }

    open spec fn div_req(self, rhs: &'a Simd<u32, N>) -> bool {
        nonzero_lanes(*rhs)
    }

    open spec fn div_spec(self, rhs: &'a Simd<u32, N>) -> Simd<u32, N> {
        wrapping_quotient(splatted::<u32, N>(self), *rhs)
    }
}

impl<'a, const N: usize> core::ops::Div<Simd<u32, N>> for &'a u32 {
    type Output = Simd<u32, N>;

    /// Computes division for the uniform scalar `self` and each element of `rhs`, rounded toward zero, with wrapping arithmetic. No element of `rhs` may be zero.
    fn div(self, rhs: Simd<u32, N>) -> (r: Simd<u32, N>)
        ensures
            r == wrapping_quotient(splatted::<u32, N>(*self), rhs),
    {
        core::ops::Div::div(Simd::<u32, N>::splat(*self), rhs)
    }
}

impl<'a, const N: usize> DivSpecImpl<Simd<u32, N>> for &'a u32 {
    open spec fn obeys_div_spec() -> bool {
        true
    }

    open spec fn div_req(self, rhs: Simd<u32, N>) -> bool {
        nonzero_lanes(rhs)
    }

    open spec fn div_spec(self, rhs: Simd<u32, N>) -> Simd<u32, N> {
        wrapping_quotient(splatted::<u32, N>(*self), rhs)
    }
}

impl<'a, 'b, const N: usize> core::ops::Div<&'b Simd<u32, N>> for &'a u32 {
    type Output = Simd<u32, N>;

    /// Computes division for the uniform scalar `self` and each element of `rhs`, rounded toward zero, with wrapping arithmetic. No element of `rhs` may be zero.
    fn div(self, rhs: &'b Simd<u32, N>) -> (r: Simd<u32, N>)
        ensures
            r == wrapping_quotient(splatted::<u32, N>(*self), *rhs),
    {
        core::ops::Div::div(Simd::<u32, N>::splat(*self), *rhs)
    }
}

impl<'a, 'b, const N: usize> DivSpecImpl<&'b Simd<u32, N>> for &'a u32 {
    open spec fn obeys_div_spec() -> bool {
        true
    }

    open spec fn div_req(self, rhs: &'b Simd<u32, N>) -> bool {
        nonzero_lanes(*rhs)
    }

    open spec fn div_spec(self, rhs: &'b Simd<u32, N>) -> Simd<u32, N> {
        wrapping_quotient(splatted::<u32, N>(*self), *rhs)
    }
}

impl<const N: usize> core::ops::Div<Simd<u64, N>> for u64 {
    type Output = Simd<u64, N>;

    /// Computes division for the uniform scalar `self` and each element of `rhs`, rounded toward zero, with wrapping arithmetic. No element of `rhs` may be zero.
    fn div(self, rhs: Simd<u64, N>) -> (r: Simd<u64, N>)
        ensures
            r == wrapping_quotient(splatted::<u64, N>(self), rhs),
    {
        core::ops::Div::div(Simd::<u64, N>::splat(self), rhs)
    }
}

impl<const N: usize> DivSpecImpl<Simd<u64, N>> for u64 {
    open spec fn obeys_div_spec() -> bool {
        true
    }

    open spec fn div_req(self, rhs: Simd<u64, N>) -> bool {
        nonzero_lanes(rhs)
    }

    open spec fn div_spec(self, rhs: Simd<u64, N>) -> Simd<u64, N> {
        wrapping_quotient(splatted::<u64, N>(self), rhs)
    }
}

impl<'a, const N: usize> core::ops::Div<&'a Simd<u64, N>> for u64 {
    type Output = Simd<u64, N>;

    /// Computes division for the uniform scalar `self` and each element of `rhs`, rounded toward zero, with wrapping arithmetic. No element of `rhs` may be zero.
    fn div(self, rhs: &'a Simd<u64, N>) -> (r: Simd<u64, N>)
        ensures
            r == wrapping_quotient(splatted::<u64, N>(self), *rhs),
    {
        core::ops::Div::div(Simd::<u64, N>::splat(self), *rhs)
    }
}

impl<'a, const N: usize> DivSpecImpl<&'a Simd<u64, N>> for u64 {
    open spec fn obeys_div_spec() -> bool {
        true
    }

    open spec fn div_req(self, rhs: &'a Simd<u64, N>) -> bool {
        nonzero_lanes(*rhs)
    }

    open spec fn div_spec(self, rhs: &'a Simd<u64, N>) -> Simd<u64, N> {
        wrapping_quotient(splatted::<u64, N>(self), *rhs)
    }
}

impl<'a, const N: usize> core::ops::Div<Simd<u64, N>> for &'a u64 {
    type Output = Simd<u64, N>;

    /// Computes division for the uniform scalar `self` and each element of `rhs`, rounded toward zero, with wrapping arithmetic. No element of `rhs` may be zero.
    fn div(self, rhs: Simd<u64, N>) -> (r: Simd<u64, N>)
        ensures
            r == wrapping_quotient(splatted::<u64, N>(*self), rhs),
    {
        core::ops::Div::div(Simd::<u64, N>::splat(*self), rhs)
    }
}

impl<'a, const N: usize> DivSpecImpl<Simd<u64, N>> for &'a u64 {
    open spec fn obeys_div_spec() -> bool {
        true
    }

    open spec fn div_req(self, rhs: Simd<u64, N>) -> bool {
        nonzero_lanes(rhs)
    }

    open spec fn div_spec(self, rhs: Simd<u64, N>) -> Simd<u64, N> {
        wrapping_quotient(splatted::<u64, N>(*self), rhs)
    }
}

impl<'a, 'b, const N: usize> core::ops::Div<&'b Simd<u64, N>> for &'a u64 {
    type Output = Simd<u64, N>;

    /// Computes division for the uniform scalar `self` and each element of `rhs`, rounded toward zero, with wrapping arithmetic. No element of `rhs` may be zero.
    fn div(self, rhs: &'b Simd<u64, N>) -> (r: Simd<u64, N>)
        ensures
            r == wrapping_quotient(splatted::<u64, N>(*self), *rhs),
    {
        core::ops::Div::div(Simd::<u64, N>::splat(*self), *rhs)
    }
}

impl<'a, 'b, const N: usize> DivSpecImpl<&'b Simd<u64, N>> for &'a u64 {
    open spec fn obeys_div_spec() -> bool {
        true
    }

    open spec fn div_req(self, rhs: &'b Simd<u64, N>) -> bool {
        nonzero_lanes(*rhs)
    }

    open spec fn div_spec(self, rhs: &'b Simd<u64, N>) -> Simd<u64, N> {
        wrapping_quotient(splatted::<u64, N>(*self), *rhs)
    }
}

impl<const N: usize> core::ops::Div<Simd<i8, N>> for i8 {
    type Output = Simd<i8, N>;

    /// Computes division for the uniform scalar `self` and each element of `rhs`, rounded toward zero, with wrapping arithmetic. No element of `rhs` may be zero.
    fn div(self, rhs: Simd<i8, N>) -> (r: Simd<i8, N>)
        ensures
            r == wrapping_quotient(splatted::<i8, N>(self), rhs),
    {
        core::ops::Div::div(Simd::<i8, N>::splat(self), rhs)
    }
}

impl<const N: usize> DivSpecImpl<Simd<i8, N>> for i8 {
    open spec fn obeys_div_spec() -> bool {
        true
    }

    open spec fn div_req(self, rhs: Simd<i8, N>) -> bool {
        nonzero_lanes(rhs)
    }

    open spec fn div_spec(self, rhs: Simd<i8, N>) -> Simd<i8, N> {
        wrapping_quotient(splatted::<i8, N>(self), rhs)
    }
}

impl<'a, const N: usize> core::ops::Div<&'a Simd<i8, N>> for i8 {
    type Output = Simd<i8, N>;

    /// Computes division for the uniform scalar `self` and each element of `rhs`, rounded toward zero, with wrapping arithmetic. No element of `rhs` may be zero.
    fn div(self, rhs: &'a Simd<i8, N>) -> (r: Simd<i8, N>)
        ensures
            r == wrapping_quotient(splatted::<i8, N>(self), *rhs),
    {
        core::ops::Div::div(Simd::<i8, N>::splat(self), *rhs)
    }
}

impl<'a, const N: usize> DivSpecImpl<&'a Simd<i8, N>> for i8 {
    open spec fn obeys_div_spec() -> bool {
        true
    }

    open spec fn div_req(self, rhs: &'a Simd<i8, N>) -> bool {
        nonzero_lanes(*rhs)
    }

    open spec fn div_spec(self, rhs: &'a Simd<i8, N>) -> Simd<i8, N> {
        wrapping_quotient(splatted::<i8, N>(self), *rhs)
    }
}

impl<'a, const N: usize> core::ops::Div<Simd<i8, N>> for &'a i8 {
    type Output = Simd<i8, N>;

    /// Computes division for the uniform scalar `self` and each element of `rhs`, rounded toward zero, with wrapping arithmetic. No element of `rhs` may be zero.
    fn div(self, rhs: Simd<i8, N>) -> (r: Simd<i8, N>)
        ensures
            r == wrapping_quotient(splatted::<i8, N>(*self), rhs),
    {
        core::ops::Div::div(Simd::<i8, N>::splat(*self), rhs)
    }
}

impl<'a, const N: usize> DivSpecImpl<Simd<i8, N>> for &'a i8 {
    open spec fn obeys_div_spec() -> bool {
        true
    }

    open spec fn div_req(self, rhs: Simd<i8, N>) -> bool {
        nonzero_lanes(rhs)
    }

    open spec fn div_spec(self, rhs: Simd<i8, N>) -> Simd<i8, N> {
        wrapping_quotient(splatted::<i8, N>(*self), rhs)
    }
}

impl<'a, 'b, const N: usize> core::ops::Div<&'b Simd<i8, N>> for &'a i8 {
    type Output = Simd<i8, N>;

    /// Computes division for the uniform scalar `self` and each element of `rhs`, rounded toward zero, with wrapping arithmetic. No element of `rhs` may be zero.
    fn div(self, rhs: &'b Simd<i8, N>) -> (r: Simd<i8, N>)
        ensures
            r == wrapping_quotient(splatted::<i8, N>(*self), *rhs),
    {
        core::ops::Div::div(Simd::<i8, N>::splat(*self), *rhs)
    }
}

impl<'a, 'b, const N: usize> DivSpecImpl<&'b Simd<i8, N>> for &'a i8 {
    open spec fn obeys_div_spec() -> bool {
        true
    }

    open spec fn div_req(self, rhs: &'b Simd<i8, N>) -> bool {
        nonzero_lanes(*rhs)
    }

    open spec fn div_spec(self, rhs: &'b Simd<i8, N>) -> Simd<i8, N> {
        wrapping_quotient(splatted::<i8, N>(*self), *rhs)
    }
}

impl<const N: usize> core::ops::Div<Simd<i16, N>> for i16 {
    type Output = Simd<i16, N>;

    /// Computes division for the uniform scalar `self` and each element of `rhs`, rounded toward zero, with wrapping arithmetic. No element of `rhs` may be zero.
    fn div(self, rhs: Simd<i16, N>) -> (r: Simd<i16, N>)
        ensures
            r == wrapping_quotient(splatted::<i16, N>(self), rhs),
    {
        core::ops::Div::div(Simd::<i16, N>::splat(self), rhs)
    }
}

impl<const N: usize> DivSpecImpl<Simd<i16, N>> for i16 {
    open spec fn obeys_div_spec() -> bool {
        true
    }

    open spec fn div_req(self, rhs: Simd<i16, N>) -> bool {
        nonzero_lanes(rhs)
    }

    open spec fn div_spec(self, rhs: Simd<i16, N>) -> Simd<i16, N> {
        wrapping_quotient(splatted::<i16, N>(self), rhs)
    }
}

impl<'a, const N: usize> core::ops::Div<&'a Simd<i16, N>> for i16 {
    type Output = Simd<i16, N>;

    /// Computes division for the uniform scalar `self` and each element of `rhs`, rounded toward zero, with wrapping arithmetic. No element of `rhs` may be zero.
    fn div(self, rhs: &'a Simd<i16, N>) -> (r: Simd<i16, N>)
        ensures
            r == wrapping_quotient(splatted::<i16, N>(self), *rhs),
    {
        core::ops::Div::div(Simd::<i16, N>::splat(self), *rhs)
    }
}

impl<'a, const N: usize> DivSpecImpl<&'a Simd<i16, N>> for i16 {
    open spec fn obeys_div_spec() -> bool {
        true
    }

    open spec fn div_req(self, rhs: &'a Simd<i16, N>) -> bool {
        nonzero_lanes(*rhs)
    }

    open spec fn div_spec(self, rhs: &'a Simd<i16, N>) -> Simd<i16, N> {
        wrapping_quotient(splatted::<i16, N>(self), *rhs)
    }
}

impl<'a, const N: usize> core::ops::Div<Simd<i16, N>> for &'a i16 {
    type Output = Simd<i16, N>;

    /// Computes division for the uniform scalar `self` and each element of `rhs`, rounded toward zero, with wrapping arithmetic. No element of `rhs` may be zero.
    fn div(self, rhs: Simd<i16, N>) -> (r: Simd<i16, N>)
        ensures
            r == wrapping_quotient(splatted::<i16, N>(*self), rhs),
    {
        core::ops::Div::div(Simd::<i16, N>::splat(*self), rhs)
    }
}

impl<'a, const N: usize> DivSpecImpl<Simd<i16, N>> for &'a i16 {
    open spec fn obeys_div_spec() -> bool {
        true
    }

    open spec fn div_req(self, rhs: Simd<i16, N>) -> bool {
        nonzero_lanes(rhs)
    }

    open spec fn div_spec(self, rhs: Simd<i16, N>) -> Simd<i16, N> {
        wrapping_quotient(splatted::<i16, N>(*self), rhs)
    }
}

impl<'a, 'b, const N: usize> core::ops::Div<&'b Simd<i16, N>> for &'a i16 {
    type Output = Simd<i16, N>;

    /// Computes division for the uniform scalar `self` and each element of `rhs`, rounded toward zero, with wrapping arithmetic. No element of `rhs` may be zero.
    fn div(self, rhs: &'b Simd<i16, N>) -> (r: Simd<i16, N>)
        ensures
            r == wrapping_quotient(splatted::<i16, N>(*self), *rhs),
    {
        core::ops::Div::div(Simd::<i16, N>::splat(*self), *rhs)
    }
}

impl<'a, 'b, const N: usize> DivSpecImpl<&'b Simd<i16, N>> for &'a i16 {
    open spec fn obeys_div_spec() -> bool {
        true
    }

    open spec fn div_req(self, rhs: &'b Simd<i16, N>) -> bool {
        nonzero_lanes(*rhs)
    }

    open spec fn div_spec(self, rhs: &'b Simd<i16, N>) -> Simd<i16, N> {
        wrapping_quotient(splatted::<i16, N>(*self), *rhs)
    }
}

impl<const N: usize> core::ops::Div<Simd<i32, N>> for i32 {
    type Output = Simd<i32, N>;

    /// Computes division for the uniform scalar `self` and each element of `rhs`, rounded toward zero, with wrapping arithmetic. No element of `rhs` may be zero.
    fn div(self, rhs: Simd<i32, N>) -> (r: Simd<i32, N>)
        ensures
            r == wrapping_quotient(splatted::<i32, N>(self), rhs),
    {
        core::ops::Div::div(Simd::<i32, N>::splat(self), rhs)
    }
}

impl<const N: usize> DivSpecImpl<Simd<i32, N>> for i32 {
    open spec fn obeys_div_spec() -> bool {
        true
    }

    open spec fn div_req(self, rhs: Simd<i32, N>) -> bool {
        nonzero_lanes(rhs)
    }

    open spec fn div_spec(self, rhs: Simd<i32, N>) -> Simd<i32, N> {
        wrapping_quotient(splatted::<i32, N>(self), rhs)
    }
}

impl<'a, const N: usize> core::ops::Div<&'a Simd<i32, N>> for i32 {
    type Output = Simd<i32, N>;

    /// Computes division for the uniform scalar `self` and each element of `rhs`, rounded toward zero, with wrapping arithmetic. No element of `rhs` may be zero.
    fn div(self, rhs: &'a Simd<i32, N>) -> (r: Simd<i32, N>)
        ensures
            r == wrapping_quotient(splatted::<i32, N>(self), *rhs),
    {
        core::ops::Div::div(Simd::<i32, N>::splat(self), *rhs)
    }
}

impl<'a, const N: usize> DivSpecImpl<&'a Simd<i32, N>> for i32 {
    open spec fn obeys_div_spec() -> bool {
        true
    }

    open spec fn div_req(self, rhs: &'a Simd<i32, N>) -> bool {
        nonzero_lanes(*rhs)
    }

    open spec fn div_spec(self, rhs: &'a Simd<i32, N>) -> Simd<i32, N> {
        wrapping_quotient(splatted::<i32, N>(self), *rhs)
    }
}

impl<'a, const N: usize> core::ops::Div<Simd<i32, N>> for &'a i32 {
    type Output = Simd<i32, N>;

    /// Computes division for the uniform scalar `self` and each element of `rhs`, rounded toward zero, with wrapping arithmetic. No element of `rhs` may be zero.
    fn div(self, rhs: Simd<i32, N>) -> (r: Simd<i32, N>)
        ensures
            r == wrapping_quotient(splatted::<i32, N>(*self), rhs),
    {
        core::ops::Div::div(Simd::<i32, N>::splat(*self), rhs)
    }
}

impl<'a, const N: usize> DivSpecImpl<Simd<i32, N>> for &'a i32 {
    open spec fn obeys_div_spec() -> bool {
        true
    }

    open spec fn div_req(self, rhs: Simd<i32, N>) -> bool {
        nonzero_lanes(rhs)
    }

    open spec fn div_spec(self, rhs: Simd<i32, N>) -> Simd<i32, N> {
        wrapping_quotient(splatted::<i32, N>(*self), rhs)
    }
}

impl<'a, 'b, const N: usize> core::ops::Div<&'b Simd<i32, N>> for &'a i32 {
    type Output = Simd<i32, N>;

    /// Computes division for the uniform scalar `self` and each element of `rhs`, rounded toward zero, with wrapping arithmetic. No element of `rhs` may be zero.
    fn div(self, rhs: &'b Simd<i32, N>) -> (r: Simd<i32, N>)
        ensures
            r == wrapping_quotient(splatted::<i32, N>(*self), *rhs),
    {
        core::ops::Div::div(Simd::<i32, N>::splat(*self), *rhs)
    }
}

impl<'a, 'b, const N: usize> DivSpecImpl<&'b Simd<i32, N>> for &'a i32 {
    open spec fn obeys_div_spec() -> bool {
        true
    }

    open spec fn div_req(self, rhs: &'b Simd<i32, N>) -> bool {
        nonzero_lanes(*rhs)
    }

    open spec fn div_spec(self, rhs: &'b Simd<i32, N>) -> Simd<i32, N> {
        wrapping_quotient(splatted::<i32, N>(*self), *rhs)
    }
}

impl<const N: usize> core::ops::Div<Simd<i64, N>> for i64 {
    type Output = Simd<i64, N>;

    /// Computes division for the uniform scalar `self` and each element of `rhs`, rounded toward zero, with wrapping arithmetic. No element of `rhs` may be zero.
    fn div(self, rhs: Simd<i64, N>) -> (r: Simd<i64, N>)
        ensures
            r == wrapping_quotient(splatted::<i64, N>(self), rhs),
    {
        core::ops::Div::div(Simd::<i64, N>::splat(self), rhs)
    }
}

impl<const N: usize> DivSpecImpl<Simd<i64, N>> for i64 {
    open spec fn obeys_div_spec() -> bool {
        true
    }

    open spec fn div_req(self, rhs: Simd<i64, N>) -> bool {
        nonzero_lanes(rhs)
    }

    open spec fn div_spec(self, rhs: Simd<i64, N>) -> Simd<i64, N> {
        wrapping_quotient(splatted::<i64, N>(self), rhs)
    }
}

impl<'a, const N: usize> core::ops::Div<&'a Simd<i64, N>> for i64 {
    type Output = Simd<i64, N>;

    /// Computes division for the uniform scalar `self` and each element of `rhs`, rounded toward zero, with wrapping arithmetic. No element of `rhs` may be zero.
    fn div(self, rhs: &'a Simd<i64, N>) -> (r: Simd<i64, N>)
        ensures
            r == wrapping_quotient(splatted::<i64, N>(self), *rhs),
    {
        core::ops::Div::div(Simd::<i64, N>::splat(self), *rhs)
    }
}

impl<'a, const N: usize> DivSpecImpl<&'a Simd<i64, N>> for i64 {
    open spec fn obeys_div_spec() -> bool {
        true
    }

    open spec fn div_req(self, rhs: &'a Simd<i64, N>) -> bool {
        nonzero_lanes(*rhs)
    }

    open spec fn div_spec(self, rhs: &'a Simd<i64, N>) -> Simd<i64, N> {
        wrapping_quotient(splatted::<i64, N>(self), *rhs)
    }
}

impl<'a, const N: usize> core::ops::Div<Simd<i64, N>> for &'a i64 {
    type Output = Simd<i64, N>;

    /// Computes division for the uniform scalar `self` and each element of `rhs`, rounded toward zero, with wrapping arithmetic. No element of `rhs` may be zero.
    fn div(self, rhs: Simd<i64, N>) -> (r: Simd<i64, N>)
        ensures
            r == wrapping_quotient(splatted::<i64, N>(*self), rhs),
    {
        core::ops::Div::div(Simd::<i64, N>::splat(*self), rhs)
    }
}

impl<'a, const N: usize> DivSpecImpl<Simd<i64, N>> for &'a i64 {
    open spec fn obeys_div_spec() -> bool {
        true
    }

    open spec fn div_req(self, rhs: Simd<i64, N>) -> bool {
        nonzero_lanes(rhs)
    }

    open spec fn div_spec(self, rhs: Simd<i64, N>) -> Simd<i64, N> {
        wrapping_quotient(splatted::<i64, N>(*self), rhs)
    }
}

impl<'a, 'b, const N: usize> core::ops::Div<&'b Simd<i64, N>> for &'a i64 {
    type Output = Simd<i64, N>;

    /// Computes division for the uniform scalar `self` and each element of `rhs`, rounded toward zero, with wrapping arithmetic. No element of `rhs` may be zero.
    fn div(self, rhs: &'b Simd<i64, N>) -> (r: Simd<i64, N>)
        ensures
            r == wrapping_quotient(splatted::<i64, N>(*self), *rhs),
    {
        core::ops::Div::div(Simd::<i64, N>::splat(*self), *rhs)
    }
}

impl<'a, 'b, const N: usize> DivSpecImpl<&'b Simd<i64, N>> for &'a i64 {
    open spec fn obeys_div_spec() -> bool {
        true
    }

    open spec fn div_req(self, rhs: &'b Simd<i64, N>) -> bool {
        nonzero_lanes(*rhs)
    }

    open spec fn div_spec(self, rhs: &'b Simd<i64, N>) -> Simd<i64, N> {
        wrapping_quotient(splatted::<i64, N>(*self), *rhs)
    }
}

impl<'a, T: SimdElement, const N: usize> core::ops::Rem<&'a Simd<T, N>> for Simd<T, N> {
    type Output = Simd<T, N>;

    /// Computes remainder for each element of `self` and the corresponding element of `rhs`, of the division rounded toward zero. No element of `rhs` may be zero.
    fn rem(self, rhs: &'a Simd<T, N>) -> (r: Simd<T, N>)
        ensures
            r == truncated_remainder(self, *rhs),
    {
        core::ops::Rem::rem(self, *rhs)
    }
}

impl<'a, T: SimdElement, const N: usize> RemSpecImpl<&'a Simd<T, N>> for Simd<T, N> {
    open spec fn obeys_rem_spec() -> bool {
        true
    }

    open spec fn rem_req(self, rhs: &'a Simd<T, N>) -> bool {
        nonzero_lanes(*rhs)
    }

    open spec fn rem_spec(self, rhs: &'a Simd<T, N>) -> Simd<T, N> {
        truncated_remainder(self, *rhs)
    }
}

impl<'a, T: SimdElement, const N: usize> core::ops::Rem<&'a T> for Simd<T, N> {
    type Output = Simd<T, N>;

    /// Computes remainder for each element of `self` and the uniform scalar `rhs`, of the division rounded toward zero. `rhs` may not be zero.
    fn rem(self, rhs: &'a T) -> (r: Simd<T, N>)
        ensures
            r == truncated_remainder(self, splatted::<T, N>(*rhs)),
    {
        core::ops::Rem::rem(self, *rhs)
    }
}

impl<'a, T: SimdElement, const N: usize> RemSpecImpl<&'a T> for Simd<T, N> {
    open spec fn obeys_rem_spec() -> bool {
        true
    }

    open spec fn rem_req(self, rhs: &'a T) -> bool {
        (*rhs).value() != 0
    }

    open spec fn rem_spec(self, rhs: &'a T) -> Simd<T, N> {
        truncated_remainder(self, splatted::<T, N>(*rhs))
    }
}

impl<'a, T: SimdElement, const N: usize> core::ops::Rem<Simd<T, N>> for &'a Simd<T, N> {
    type Output = Simd<T, N>;

    /// Computes remainder for each element of `self` and the corresponding element of `rhs`, of the division rounded toward zero. No element of `rhs` may be zero.
    fn rem(self, rhs: Simd<T, N>) -> (r: Simd<T, N>)
        ensures
            r == truncated_remainder(*self, rhs),
    {
        core::ops::Rem::rem(*self, rhs)
    }
}

impl<'a, T: SimdElement, const N: usize> RemSpecImpl<Simd<T, N>> for &'a Simd<T, N> {
    open spec fn obeys_rem_spec() -> bool {
        true
    }

    open spec fn rem_req(self, rhs: Simd<T, N>) -> bool {
        nonzero_lanes(rhs)
    }

    open spec fn rem_spec(self, rhs: Simd<T, N>) -> Simd<T, N> {
        truncated_remainder(*self, rhs)
    }
}

impl<'a, T: SimdElement, const N: usize> core::ops::Rem<T> for &'a Simd<T, N> {
    type Output = Simd<T, N>;

    /// Computes remainder for each element of `self` and the uniform scalar `rhs`, of the division rounded toward zero. `rhs` may not be zero.
    fn rem(self, rhs: T) -> (r: Simd<T, N>)
        ensures
            r == truncated_remainder(*self, splatted::<T, N>(rhs)),
    {
        core::ops::Rem::rem(*self, rhs)
    }
}

impl<'a, T: SimdElement, const N: usize> RemSpecImpl<T> for &'a Simd<T, N> {
    open spec fn obeys_rem_spec() -> bool {
        true
    }

    open spec fn rem_req(self, rhs: T) -> bool {
        rhs.value() != 0
    }

    open spec fn rem_spec(self, rhs: T) -> Simd<T, N> {
        truncated_remainder(*self, splatted::<T, N>(rhs))
    }
}

impl<'a, 'b, T: SimdElement, const N: usize> core::ops::Rem<&'b Simd<T, N>> for &'a Simd<T, N> {
    type Output = Simd<T, N>;

    /// Computes remainder for each element of `self` and the corresponding element of `rhs`, of the division rounded toward zero. No element of `rhs` may be zero.
    fn rem(self, rhs: &'b Simd<T, N>) -> (r: Simd<T, N>)
        ensures
            r == truncated_remainder(*self, *rhs),
    {
        core::ops::Rem::rem(*self, *rhs)
    }
}

impl<'a, 'b, T: SimdElement, const N: usize> RemSpecImpl<&'b Simd<T, N>> for &'a Simd<T, N> {
    open spec fn obeys_rem_spec() -> bool {
        true
    }

    open spec fn rem_req(self, rhs: &'b Simd<T, N>) -> bool {
        nonzero_lanes(*rhs)
    }

    open spec fn rem_spec(self, rhs: &'b Simd<T, N>) -> Simd<T, N> {
        truncated_remainder(*self, *rhs)
    }
}

impl<'a, 'b, T: SimdElement, const N: usize> core::ops::Rem<&'b T> for &'a Simd<T, N> {
    type Output = Simd<T, N>;

    /// Computes remainder for each element of `self` and the uniform scalar `rhs`, of the division rounded toward zero. `rhs` may not be zero.
    fn rem(self, rhs: &'b T) -> (r: Simd<T, N>)
        ensures
            r == truncated_remainder(*self, splatted::<T, N>(*rhs)),
    {
        core::ops::Rem::rem(*self, *rhs)
    }
}

impl<'a, 'b, T: SimdElement, const N: usize> RemSpecImpl<&'b T> for &'a Simd<T, N> {
    open spec fn obeys_rem_spec() -> bool {
        true
    }

    open spec fn rem_req(self, rhs: &'b T) -> bool {
        (*rhs).value() != 0
    }

    open spec fn rem_spec(self, rhs: &'b T) -> Simd<T, N> {
        truncated_remainder(*self, splatted::<T, N>(*rhs))
    }
}

impl<const N: usize> core::ops::Rem<Simd<u8, N>> for u8 {
    type Output = Simd<u8, N>;

    /// Computes remainder for the uniform scalar `self` and each element of `rhs`, of the division rounded toward zero. No element of `rhs` may be zero.
    fn rem(self, rhs: Simd<u8, N>) -> (r: Simd<u8, N>)
        ensures
            r == truncated_remainder(splatted::<u8, N>(self), rhs),
    {
        core::ops::Rem::rem(Simd::<u8, N>::splat(self), rhs)
    }
}

impl<const N: usize> RemSpecImpl<Simd<u8, N>> for u8 {
    open spec fn obeys_rem_spec() -> bool {
        true
    }

    open spec fn rem_req(self, rhs: Simd<u8, N>) -> bool {
        nonzero_lanes(rhs)
    }

    open spec fn rem_spec(self, rhs: Simd<u8, N>) -> Simd<u8, N> {
        truncated_remainder(splatted::<u8, N>(self), rhs)
    }
}

impl<'a, const N: usize> core::ops::Rem<&'a Simd<u8, N>> for u8 {
    type Output = Simd<u8, N>;

    /// Computes remainder for the uniform scalar `self` and each element of `rhs`, of the division rounded toward zero. No element of `rhs` may be zero.
    fn rem(self, rhs: &'a Simd<u8, N>) -> (r: Simd<u8, N>)
        ensures
            r == truncated_remainder(splatted::<u8, N>(self), *rhs),
    {
        core::ops::Rem::rem(Simd::<u8, N>::splat(self), *rhs)
    }
}

impl<'a, const N: usize> RemSpecImpl<&'a Simd<u8, N>> for u8 {
    open spec fn obeys_rem_spec() -> bool {
        true
    }

    open spec fn rem_req(self, rhs: &'a Simd<u8, N>) -> bool {
        nonzero_lanes(*rhs)
    }

    open spec fn rem_spec(self, rhs: &'a Simd<u8, N>) -> Simd<u8, N> {
        truncated_remainder(splatted::<u8, N>(self), *rhs)
    }
}

impl<'a, const N: usize> core::ops::Rem<Simd<u8, N>> for &'a u8 {
    type Output = Simd<u8, N>;

    /// Computes remainder for the uniform scalar `self` and each element of `rhs`, of the division rounded toward zero. No element of `rhs` may be zero.
    fn rem(self, rhs: Simd<u8, N>) -> (r: Simd<u8, N>)
        ensures
            r == truncated_remainder(splatted::<u8, N>(*self), rhs),
    {
        core::ops::Rem::rem(Simd::<u8, N>::splat(*self), rhs)
    }
}

impl<'a, const N: usize> RemSpecImpl<Simd<u8, N>> for &'a u8 {
    open spec fn obeys_rem_spec() -> bool {
        true
    }

    open spec fn rem_req(self, rhs: Simd<u8, N>) -> bool {
        nonzero_lanes(rhs)
    }

    open spec fn rem_spec(self, rhs: Simd<u8, N>) -> Simd<u8, N> {
        truncated_remainder(splatted::<u8, N>(*self), rhs)
    }
}

impl<'a, 'b, const N: usize> core::ops::Rem<&'b Simd<u8, N>> for &'a u8 {
    type Output = Simd<u8, N>;

    /// Computes remainder for the uniform scalar `self` and each element of `rhs`, of the division rounded toward zero. No element of `rhs` may be zero.
    fn rem(self, rhs: &'b Simd<u8, N>) -> (r: Simd<u8, N>)
        ensures
            r == truncated_remainder(splatted::<u8, N>(*self), *rhs),
    {
        core::ops::Rem::rem(Simd::<u8, N>::splat(*self), *rhs)
    }
}

impl<'a, 'b, const N: usize> RemSpecImpl<&'b Simd<u8, N>> for &'a u8 {
    open spec fn obeys_rem_spec() -> bool {
        true
    }

    open spec fn rem_req(self, rhs: &'b Simd<u8, N>) -> bool {
        nonzero_lanes(*rhs)
    }

    open spec fn rem_spec(self, rhs: &'b Simd<u8, N>) -> Simd<u8, N> {
        truncated_remainder(splatted::<u8, N>(*self), *rhs)
    }
}

impl<const N: usize> core::ops::Rem<Simd<u16, N>> for u16 {
    type Output = Simd<u16, N>;

    /// Computes remainder for the uniform scalar `self` and each element of `rhs`, of the division rounded toward zero. No element of `rhs` may be zero.
    fn rem(self, rhs: Simd<u16, N>) -> (r: Simd<u16, N>)
        ensures
            r == truncated_remainder(splatted::<u16, N>(self), rhs),
    {
        core::ops::Rem::rem(Simd::<u16, N>::splat(self), rhs)
    }
}

impl<const N: usize> RemSpecImpl<Simd<u16, N>> for u16 {
    open spec fn obeys_rem_spec() -> bool {
        true
    }

    open spec fn rem_req(self, rhs: Simd<u16, N>) -> bool {
        nonzero_lanes(rhs)
    }

    open spec fn rem_spec(self, rhs: Simd<u16, N>) -> Simd<u16, N> {
        truncated_remainder(splatted::<u16, N>(self), rhs)
    }
}

impl<'a, const N: usize> core::ops::Rem<&'a Simd<u16, N>> for u16 {
    type Output = Simd<u16, N>;

    /// Computes remainder for the uniform scalar `self` and each element of `rhs`, of the division rounded toward zero. No element of `rhs` may be zero.
    fn rem(self, rhs: &'a Simd<u16, N>) -> (r: Simd<u16, N>)
        ensures
            r == truncated_remainder(splatted::<u16, N>(self), *rhs),
    {
        core::ops::Rem::rem(Simd::<u16, N>::splat(self), *rhs)
    }
}

impl<'a, const N: usize> RemSpecImpl<&'a Simd<u16, N>> for u16 {
    open spec fn obeys_rem_spec() -> bool {
        true
    }

    open spec fn rem_req(self, rhs: &'a Simd<u16, N>) -> bool {
        nonzero_lanes(*rhs)
    }

    open spec fn rem_spec(self, rhs: &'a Simd<u16, N>) -> Simd<u16, N> {
        truncated_remainder(splatted::<u16, N>(self), *rhs)
    }
}

impl<'a, const N: usize> core::ops::Rem<Simd<u16, N>> for &'a u16 {
    type Output = Simd<u16, N>;

    /// Computes remainder for the uniform scalar `self` and each element of `rhs`, of the division rounded toward zero. No element of `rhs` may be zero.
    fn rem(self, rhs: Simd<u16, N>) -> (r: Simd<u16, N>)
        ensures
            r == truncated_remainder(splatted::<u16, N>(*self), rhs),
    {
        core::ops::Rem::rem(Simd::<u16, N>::splat(*self), rhs)
    }
}

impl<'a, const N: usize> RemSpecImpl<Simd<u16, N>> for &'a u16 {
    open spec fn obeys_rem_spec() -> bool {
        true
    }

    open spec fn rem_req(self, rhs: Simd<u16, N>) -> bool {
        nonzero_lanes(rhs)
    }

    open spec fn rem_spec(self, rhs: Simd<u16, N>) -> Simd<u16, N> {
        truncated_remainder(splatted::<u16, N>(*self), rhs)
    }
}

impl<'a, 'b, const N: usize> core::ops::Rem<&'b Simd<u16, N>> for &'a u16 {
    type Output = Simd<u16, N>;

    /// Computes remainder for the uniform scalar `self` and each element of `rhs`, of the division rounded toward zero. No element of `rhs` may be zero.
    fn rem(self, rhs: &'b Simd<u16, N>) -> (r: Simd<u16, N>)
        ensures
            r == truncated_remainder(splatted::<u16, N>(*self), *rhs),
    {
        core::ops::Rem::rem(Simd::<u16, N>::splat(*self), *rhs)
    }
}

impl<'a, 'b, const N: usize> RemSpecImpl<&'b Simd<u16, N>> for &'a u16 {
    open spec fn obeys_rem_spec() -> bool {
        true
    }

    open spec fn rem_req(self, rhs: &'b Simd<u16, N>) -> bool {
        nonzero_lanes(*rhs)
    }

    open spec fn rem_spec(self, rhs: &'b Simd<u16, N>) -> Simd<u16, N> {
        truncated_remainder(splatted::<u16, N>(*self), *rhs)
    }
}

impl<const N: usize> core::ops::Rem<Simd<u32, N>> for u32 {
    type Output = Simd<u32, N>;

    /// Computes remainder for the uniform scalar `self` and each element of `rhs`, of the division rounded toward zero. No element of `rhs` may be zero.
    fn rem(self, rhs: Simd<u32, N>) -> (r: Simd<u32, N>)
        ensures
            r == truncated_remainder(splatted::<u32, N>(self), rhs),
    {
        core::ops::Rem::rem(Simd::<u32, N>::splat(self), rhs)
    }
}

impl<const N: usize> RemSpecImpl<Simd<u32, N>> for u32 {
    open spec fn obeys_rem_spec() -> bool {
        true
    }

    open spec fn rem_req(self, rhs: Simd<u32, N>) -> bool {
        nonzero_lanes(rhs)
    }

    open spec fn rem_spec(self, rhs: Simd<u32, N>) -> Simd<u32, N> {
        truncated_remainder(splatted::<u32, N>(self), rhs)
    }
}

impl<'a, const N: usize> core::ops::Rem<&'a Simd<u32, N>> for u32 {
    type Output = Simd<u32, N>;

    /// Computes remainder for the uniform scalar `self` and each element of `rhs`, of the division rounded toward zero. No element of `rhs` may be zero.
    fn rem(self, rhs: &'a Simd<u32, N>) -> (r: Simd<u32, N>)
        ensures
            r == truncated_remainder(splatted::<u32, N>(self), *rhs),
    {
        core::ops::Rem::rem(Simd::<u32, N>::splat(self), *rhs)
    }
}

impl<'a, const N: usize> RemSpecImpl<&'a Simd<u32, N>> for u32 {
    open spec fn obeys_rem_spec() -> bool {
        true
    }

    open spec fn rem_req(self, rhs: &'a Simd<u32, N>) -> bool {
        nonzero_lanes(*rhs)
    }

    open spec fn rem_spec(self, rhs: &'a Simd<u32, N>) -> Simd<u32, N> {
        truncated_remainder(splatted::<u32, N>(self), *rhs)
    }
}

impl<'a, const N: usize> core::ops::Rem<Simd<u32, N>> for &'a u32 {
    type Output = Simd<u32, N>;

    /// Computes remainder for the uniform scalar `self` and each element of `rhs`, of the division rounded toward zero. No element of `rhs` may be zero.
    fn rem(self, rhs: Simd<u32, N>) -> (r: Simd<u32, N>)
        ensures
            r == truncated_remainder(splatted::<u32, N>(*self), rhs),
    {
        core::ops::Rem::rem(Simd::<u32, N>::splat(*self), rhs)
    }
}

impl<'a, const N: usize> RemSpecImpl<Simd<u32, N>> for &'a u32 {
    open spec fn obeys_rem_spec() -> bool {
        true
    }

    open spec fn rem_req(self, rhs: Simd<u32, N>) -> bool {
        nonzero_lanes(rhs)
    }

    open spec fn rem_spec(self, rhs: Simd<u32, N>) -> Simd<u32, N> {
        truncated_remainder(splatted::<u32, N>(*self), rhs)
    }
}

impl<'a, 'b, const N: usize> core::ops::Rem<&'b Simd<u32, N>> for &'a u32 {
    type Output = Simd<u32, N>;

    /// Computes remainder for the uniform scalar `self` and each element of `rhs`, of the division rounded toward zero. No element of `rhs` may be zero.
    fn rem(self, rhs: &'b Simd<u32, N>) -> (r: Simd<u32, N>)
        ensures
            r == truncated_remainder(splatted::<u32, N>(*self), *rhs),
    {
        core::ops::Rem::rem(Simd::<u32, N>::splat(*self), *rhs)
    }
}

impl<'a, 'b, const N: usize> RemSpecImpl<&'b Simd<u32, N>> for &'a u32 {
    open spec fn obeys_rem_spec() -> bool {
        true
    }

    open spec fn rem_req(self, rhs: &'b Simd<u32, N>) -> bool {
        nonzero_lanes(*rhs)
    }

    open spec fn rem_spec(self, rhs: &'b Simd<u32, N>) -> Simd<u32, N> {
        truncated_remainder(splatted::<u32, N>(*self), *rhs)
    }
}

impl<const N: usize> core::ops::Rem<Simd<u64, N>> for u64 {
    type Output = Simd<u64, N>;

    /// Computes remainder for the uniform scalar `self` and each element of `rhs`, of the division rounded toward zero. No element of `rhs` may be zero.
    fn rem(self, rhs: Simd<u64, N>) -> (r: Simd<u64, N>)
        ensures
            r == truncated_remainder(splatted::<u64, N>(self), rhs),
    {
        core::ops::Rem::rem(Simd::<u64, N>::splat(self), rhs)
    }
}

impl<const N: usize> RemSpecImpl<Simd<u64, N>> for u64 {
    open spec fn obeys_rem_spec() -> bool {
        true
    }

    open spec fn rem_req(self, rhs: Simd<u64, N>) -> bool {
        nonzero_lanes(rhs)
    }

    open spec fn rem_spec(self, rhs: Simd<u64, N>) -> Simd<u64, N> {
        truncated_remainder(splatted::<u64, N>(self), rhs)
    }
}

impl<'a, const N: usize> core::ops::Rem<&'a Simd<u64, N>> for u64 {
    type Output = Simd<u64, N>;

    /// Computes remainder for the uniform scalar `self` and each element of `rhs`, of the division rounded toward zero. No element of `rhs` may be zero.
    fn rem(self, rhs: &'a Simd<u64, N>) -> (r: Simd<u64, N>)
        ensures
            r == truncated_remainder(splatted::<u64, N>(self), *rhs),
    {
        core::ops::Rem::rem(Simd::<u64, N>::splat(self), *rhs)
    }
}

impl<'a, const N: usize> RemSpecImpl<&'a Simd<u64, N>> for u64 {
    open spec fn obeys_rem_spec() -> bool {
        true
    }

    open spec fn rem_req(self, rhs: &'a Simd<u64, N>) -> bool {
        nonzero_lanes(*rhs)
    }

    open spec fn rem_spec(self, rhs: &'a Simd<u64, N>) -> Simd<u64, N> {
        truncated_remainder(splatted::<u64, N>(self), *rhs)
    }
}

impl<'a, const N: usize> core::ops::Rem<Simd<u64, N>> for &'a u64 {
    type Output = Simd<u64, N>;

    /// Computes remainder for the uniform scalar `self` and each element of `rhs`, of the division rounded toward zero. No element of `rhs` may be zero.
    fn rem(self, rhs: Simd<u64, N>) -> (r: Simd<u64, N>)
        ensures
            r == truncated_remainder(splatted::<u64, N>(*self), rhs),
    {
        core::ops::Rem::rem(Simd::<u64, N>::splat(*self), rhs)
    }
}

impl<'a, const N: usize> RemSpecImpl<Simd<u64, N>> for &'a u64 {
    open spec fn obeys_rem_spec() -> bool {
        true
    }

    open spec fn rem_req(self, rhs: Simd<u64, N>) -> bool {
        nonzero_lanes(rhs)
    }

    open spec fn rem_spec(self, rhs: Simd<u64, N>) -> Simd<u64, N> {
        truncated_remainder(splatted::<u64, N>(*self), rhs)
    }
}

impl<'a, 'b, const N: usize> core::ops::Rem<&'b Simd<u64, N>> for &'a u64 {
    type Output = Simd<u64, N>;

    /// Computes remainder for the uniform scalar `self` and each element of `rhs`, of the division rounded toward zero. No element of `rhs` may be zero.
    fn rem(self, rhs: &'b Simd<u64, N>) -> (r: Simd<u64, N>)
        ensures
            r == truncated_remainder(splatted::<u64, N>(*self), *rhs),
    {
        core::ops::Rem::rem(Simd::<u64, N>::splat(*self), *rhs)
    }
}

impl<'a, 'b, const N: usize> RemSpecImpl<&'b Simd<u64, N>> for &'a u64 {
    open spec fn obeys_rem_spec() -> bool {
        true
    }

    open spec fn rem_req(self, rhs: &'b Simd<u64, N>) -> bool {
        nonzero_lanes(*rhs)
    }

    open spec fn rem_spec(self, rhs: &'b Simd<u64, N>) -> Simd<u64, N> {
        truncated_remainder(splatted::<u64, N>(*self), *rhs)
    }
}

impl<const N: usize> core::ops::Rem<Simd<i8, N>> for i8 {
    type Output = Simd<i8, N>;

    /// Computes remainder for the uniform scalar `self` and each element of `rhs`, of the division rounded toward zero. No element of `rhs` may be zero.
    fn rem(self, rhs: Simd<i8, N>) -> (r: Simd<i8, N>)
        ensures
            r == truncated_remainder(splatted::<i8, N>(self), rhs),
    {
        core::ops::Rem::rem(Simd::<i8, N>::splat(self), rhs)
    }
}

impl<const N: usize> RemSpecImpl<Simd<i8, N>> for i8 {
    open spec fn obeys_rem_spec() -> bool {
        true
    }

    open spec fn rem_req(self, rhs: Simd<i8, N>) -> bool {
        nonzero_lanes(rhs)
    }

    open spec fn rem_spec(self, rhs: Simd<i8, N>) -> Simd<i8, N> {
        truncated_remainder(splatted::<i8, N>(self), rhs)
    }
}

impl<'a, const N: usize> core::ops::Rem<&'a Simd<i8, N>> for i8 {
    type Output = Simd<i8, N>;

    /// Computes remainder for the uniform scalar `self` and each element of `rhs`, of the division rounded toward zero. No element of `rhs` may be zero.
    fn rem(self, rhs: &'a Simd<i8, N>) -> (r: Simd<i8, N>)
        ensures
            r == truncated_remainder(splatted::<i8, N>(self), *rhs),
    {
        core::ops::Rem::rem(Simd::<i8, N>::splat(self), *rhs)
    }
}

impl<'a, const N: usize> RemSpecImpl<&'a Simd<i8, N>> for i8 {
    open spec fn obeys_rem_spec() -> bool {
        true
    }

    open spec fn rem_req(self, rhs: &'a Simd<i8, N>) -> bool {
        nonzero_lanes(*rhs)
    }

    open spec fn rem_spec(self, rhs: &'a Simd<i8, N>) -> Simd<i8, N> {
        truncated_remainder(splatted::<i8, N>(self), *rhs)
    }
}

impl<'a, const N: usize> core::ops::Rem<Simd<i8, N>> for &'a i8 {
    type Output = Simd<i8, N>;

    /// Computes remainder for the uniform scalar `self` and each element of `rhs`, of the division rounded toward zero. No element of `rhs` may be zero.
    fn rem(self, rhs: Simd<i8, N>) -> (r: Simd<i8, N>)
        ensures
            r == truncated_remainder(splatted::<i8, N>(*self), rhs),
    {
        core::ops::Rem::rem(Simd::<i8, N>::splat(*self), rhs)
    }
}

impl<'a, const N: usize> RemSpecImpl<Simd<i8, N>> for &'a i8 {
    open spec fn obeys_rem_spec() -> bool {
        true
    }

    open spec fn rem_req(self, rhs: Simd<i8, N>) -> bool {
        nonzero_lanes(rhs)
    }

    open spec fn rem_spec(self, rhs: Simd<i8, N>) -> Simd<i8, N> {
        truncated_remainder(splatted::<i8, N>(*self), rhs)
    }
}

impl<'a, 'b, const N: usize> core::ops::Rem<&'b Simd<i8, N>> for &'a i8 {
    type Output = Simd<i8, N>;

    /// Computes remainder for the uniform scalar `self` and each element of `rhs`, of the division rounded toward zero. No element of `rhs` may be zero.
    fn rem(self, rhs: &'b Simd<i8, N>) -> (r: Simd<i8, N>)
        ensures
            r == truncated_remainder(splatted::<i8, N>(*self), *rhs),
    {
        core::ops::Rem::rem(Simd::<i8, N>::splat(*self), *rhs)
    }
}

impl<'a, 'b, const N: usize> RemSpecImpl<&'b Simd<i8, N>> for &'a i8 {
    open spec fn obeys_rem_spec() -> bool {
        true
    }

    open spec fn rem_req(self, rhs: &'b Simd<i8, N>) -> bool {
        nonzero_lanes(*rhs)
    }

    open spec fn rem_spec(self, rhs: &'b Simd<i8, N>) -> Simd<i8, N> {
        truncated_remainder(splatted::<i8, N>(*self), *rhs)
    }
}

impl<const N: usize> core::ops::Rem<Simd<i16, N>> for i16 {
    type Output = Simd<i16, N>;

    /// Computes remainder for the uniform scalar `self` and each element of `rhs`, of the division rounded toward zero. No element of `rhs` may be zero.
    fn rem(self, rhs: Simd<i16, N>) -> (r: Simd<i16, N>)
        ensures
            r == truncated_remainder(splatted::<i16, N>(self), rhs),
    {
        core::ops::Rem::rem(Simd::<i16, N>::splat(self), rhs)
    }
}

impl<const N: usize> RemSpecImpl<Simd<i16, N>> for i16 {
    open spec fn obeys_rem_spec() -> bool {
        true
    }

    open spec fn rem_req(self, rhs: Simd<i16, N>) -> bool {
        nonzero_lanes(rhs)
    }

    open spec fn rem_spec(self, rhs: Simd<i16, N>) -> Simd<i16, N> {
        truncated_remainder(splatted::<i16, N>(self), rhs)
    }
}

impl<'a, const N: usize> core::ops::Rem<&'a Simd<i16, N>> for i16 {
    type Output = Simd<i16, N>;

    /// Computes remainder for the uniform scalar `self` and each element of `rhs`, of the division rounded toward zero. No element of `rhs` may be zero.
    fn rem(self, rhs: &'a Simd<i16, N>) -> (r: Simd<i16, N>)
        ensures
            r == truncated_remainder(splatted::<i16, N>(self), *rhs),
    {
        core::ops::Rem::rem(Simd::<i16, N>::splat(self), *rhs)
    }
}

impl<'a, const N: usize> RemSpecImpl<&'a Simd<i16, N>> for i16 {
    open spec fn obeys_rem_spec() -> bool {
        true
    }

    open spec fn rem_req(self, rhs: &'a Simd<i16, N>) -> bool {
        nonzero_lanes(*rhs)
    }

    open spec fn rem_spec(self, rhs: &'a Simd<i16, N>) -> Simd<i16, N> {
        truncated_remainder(splatted::<i16, N>(self), *rhs)
    }
}

impl<'a, const N: usize> core::ops::Rem<Simd<i16, N>> for &'a i16 {
    type Output = Simd<i16, N>;

    /// Computes remainder for the uniform scalar `self` and each element of `rhs`, of the division rounded toward zero. No element of `rhs` may be zero.
    fn rem(self, rhs: Simd<i16, N>) -> (r: Simd<i16, N>)
        ensures
            r == truncated_remainder(splatted::<i16, N>(*self), rhs),
    {
        core::ops::Rem::rem(Simd::<i16, N>::splat(*self), rhs)
    }
}

impl<'a, const N: usize> RemSpecImpl<Simd<i16, N>> for &'a i16 {
    open spec fn obeys_rem_spec() -> bool {
        true
    }

    open spec fn rem_req(self, rhs: Simd<i16, N>) -> bool {
        nonzero_lanes(rhs)
    }

    open spec fn rem_spec(self, rhs: Simd<i16, N>) -> Simd<i16, N> {
        truncated_remainder(splatted::<i16, N>(*self), rhs)
    }
}

impl<'a, 'b, const N: usize> core::ops::Rem<&'b Simd<i16, N>> for &'a i16 {
    type Output = Simd<i16, N>;

    /// Computes remainder for the uniform scalar `self` and each element of `rhs`, of the division rounded toward zero. No element of `rhs` may be zero.
    fn rem(self, rhs: &'b Simd<i16, N>) -> (r: Simd<i16, N>)
        ensures
            r == truncated_remainder(splatted::<i16, N>(*self), *rhs),
    {
        core::ops::Rem::rem(Simd::<i16, N>::splat(*self), *rhs)
    }
}

impl<'a, 'b, const N: usize> RemSpecImpl<&'b Simd<i16, N>> for &'a i16 {
    open spec fn obeys_rem_spec() -> bool {
        true
    }

    open spec fn rem_req(self, rhs: &'b Simd<i16, N>) -> bool {
        nonzero_lanes(*rhs)
    }

    open spec fn rem_spec(self, rhs: &'b Simd<i16, N>) -> Simd<i16, N> {
        truncated_remainder(splatted::<i16, N>(*self), *rhs)
    }
}

impl<const N: usize> core::ops::Rem<Simd<i32, N>> for i32 {
    type Output = Simd<i32, N>;

    /// Computes remainder for the uniform scalar `self` and each element of `rhs`, of the division rounded toward zero. No element of `rhs` may be zero.
    fn rem(self, rhs: Simd<i32, N>) -> (r: Simd<i32, N>)
        ensures
            r == truncated_remainder(splatted::<i32, N>(self), rhs),
    {
        core::ops::Rem::rem(Simd::<i32, N>::splat(self), rhs)
    }
}

impl<const N: usize> RemSpecImpl<Simd<i32, N>> for i32 {
    open spec fn obeys_rem_spec() -> bool {
        true
    }

    open spec fn rem_req(self, rhs: Simd<i32, N>) -> bool {
        nonzero_lanes(rhs)
    }

    open spec fn rem_spec(self, rhs: Simd<i32, N>) -> Simd<i32, N> {
        truncated_remainder(splatted::<i32, N>(self), rhs)
    }
}

impl<'a, const N: usize> core::ops::Rem<&'a Simd<i32, N>> for i32 {
    type Output = Simd<i32, N>;

    /// Computes remainder for the uniform scalar `self` and each element of `rhs`, of the division rounded toward zero. No element of `rhs` may be zero.
    fn rem(self, rhs: &'a Simd<i32, N>) -> (r: Simd<i32, N>)
        ensures
            r == truncated_remainder(splatted::<i32, N>(self), *rhs),
    {
        core::ops::Rem::rem(Simd::<i32, N>::splat(self), *rhs)
    }
}

impl<'a, const N: usize> RemSpecImpl<&'a Simd<i32, N>> for i32 {
    open spec fn obeys_rem_spec() -> bool {
        true
    }

    open spec fn rem_req(self, rhs: &'a Simd<i32, N>) -> bool {
        nonzero_lanes(*rhs)
    }

    open spec fn rem_spec(self, rhs: &'a Simd<i32, N>) -> Simd<i32, N> {
        truncated_remainder(splatted::<i32, N>(self), *rhs)
    }
}

impl<'a, const N: usize> core::ops::Rem<Simd<i32, N>> for &'a i32 {
    type Output = Simd<i32, N>;

    /// Computes remainder for the uniform scalar `self` and each element of `rhs`, of the division rounded toward zero. No element of `rhs` may be zero.
    fn rem(self, rhs: Simd<i32, N>) -> (r: Simd<i32, N>)
        ensures
            r == truncated_remainder(splatted::<i32, N>(*self), rhs),
    {
        core::ops::Rem::rem(Simd::<i32, N>::splat(*self), rhs)
    }
}

impl<'a, const N: usize> RemSpecImpl<Simd<i32, N>> for &'a i32 {
    open spec fn obeys_rem_spec() -> bool {
        true
    }

    open spec fn rem_req(self, rhs: Simd<i32, N>) -> bool {
        nonzero_lanes(rhs)
    }

    open spec fn rem_spec(self, rhs: Simd<i32, N>) -> Simd<i32, N> {
        truncated_remainder(splatted::<i32, N>(*self), rhs)
    }
}

impl<'a, 'b, const N: usize> core::ops::Rem<&'b Simd<i32, N>> for &'a i32 {
    type Output = Simd<i32, N>;

    /// Computes remainder for the uniform scalar `self` and each element of `rhs`, of the division rounded toward zero. No element of `rhs` may be zero.
    fn rem(self, rhs: &'b Simd<i32, N>) -> (r: Simd<i32, N>)
        ensures
            r == truncated_remainder(splatted::<i32, N>(*self), *rhs),
    {
        core::ops::Rem::rem(Simd::<i32, N>::splat(*self), *rhs)
    }
}

impl<'a, 'b, const N: usize> RemSpecImpl<&'b Simd<i32, N>> for &'a i32 {
    open spec fn obeys_rem_spec() -> bool {
        true
    }

    open spec fn rem_req(self, rhs: &'b Simd<i32, N>) -> bool {
        nonzero_lanes(*rhs)
    }

    open spec fn rem_spec(self, rhs: &'b Simd<i32, N>) -> Simd<i32, N> {
        truncated_remainder(splatted::<i32, N>(*self), *rhs)
    }
}

impl<const N: usize> core::ops::Rem<Simd<i64, N>> for i64 {
    type Output = Simd<i64, N>;

    /// Computes remainder for the uniform scalar `self` and each element of `rhs`, of the division rounded toward zero. No element of `rhs` may be zero.
    fn rem(self, rhs: Simd<i64, N>) -> (r: Simd<i64, N>)
        ensures
            r == truncated_remainder(splatted::<i64, N>(self), rhs),
    {
        core::ops::Rem::rem(Simd::<i64, N>::splat(self), rhs)
    }
}

impl<const N: usize> RemSpecImpl<Simd<i64, N>> for i64 {
    open spec fn obeys_rem_spec() -> bool {
        true
    }

    open spec fn rem_req(self, rhs: Simd<i64, N>) -> bool {
        nonzero_lanes(rhs)
    }

    open spec fn rem_spec(self, rhs: Simd<i64, N>) -> Simd<i64, N> {
        truncated_remainder(splatted::<i64, N>(self), rhs)
    }
}

impl<'a, const N: usize> core::ops::Rem<&'a Simd<i64, N>> for i64 {
    type Output = Simd<i64, N>;

    /// Computes remainder for the uniform scalar `self` and each element of `rhs`, of the division rounded toward zero. No element of `rhs` may be zero.
    fn rem(self, rhs: &'a Simd<i64, N>) -> (r: Simd<i64, N>)
        ensures
            r == truncated_remainder(splatted::<i64, N>(self), *rhs),
    {
        core::ops::Rem::rem(Simd::<i64, N>::splat(self), *rhs)
    }
}

impl<'a, const N: usize> RemSpecImpl<&'a Simd<i64, N>> for i64 {
    open spec fn obeys_rem_spec() -> bool {
        true
    }

    open spec fn rem_req(self, rhs: &'a Simd<i64, N>) -> bool {
        nonzero_lanes(*rhs)
    }

    open spec fn rem_spec(self, rhs: &'a Simd<i64, N>) -> Simd<i64, N> {
        truncated_remainder(splatted::<i64, N>(self), *rhs)
    }
}

impl<'a, const N: usize> core::ops::Rem<Simd<i64, N>> for &'a i64 {
    type Output = Simd<i64, N>;

    /// Computes remainder for the uniform scalar `self` and each element of `rhs`, of the division rounded toward zero. No element of `rhs` may be zero.
    fn rem(self, rhs: Simd<i64, N>) -> (r: Simd<i64, N>)
        ensures
            r == truncated_remainder(splatted::<i64, N>(*self), rhs),
    {
        core::ops::Rem::rem(Simd::<i64, N>::splat(*self), rhs)
    }
}

impl<'a, const N: usize> RemSpecImpl<Simd<i64, N>> for &'a i64 {
    open spec fn obeys_rem_spec() -> bool {
        true
    }

    open spec fn rem_req(self, rhs: Simd<i64, N>) -> bool {
        nonzero_lanes(rhs)
    }

    open spec fn rem_spec(self, rhs: Simd<i64, N>) -> Simd<i64, N> {
        truncated_remainder(splatted::<i64, N>(*self), rhs)
    }
}

impl<'a, 'b, const N: usize> core::ops::Rem<&'b Simd<i64, N>> for &'a i64 {
    type Output = Simd<i64, N>;

    /// Computes remainder for the uniform scalar `self` and each element of `rhs`, of the division rounded toward zero. No element of `rhs` may be zero.
    fn rem(self, rhs: &'b Simd<i64, N>) -> (r: Simd<i64, N>)
        ensures
            r == truncated_remainder(splatted::<i64, N>(*self), *rhs),
    {
        core::ops::Rem::rem(Simd::<i64, N>::splat(*self), *rhs)
    }
}

impl<'a, 'b, const N: usize> RemSpecImpl<&'b Simd<i64, N>> for &'a i64 {
    open spec fn obeys_rem_spec() -> bool {
        true
    }

    open spec fn rem_req(self, rhs: &'b Simd<i64, N>) -> bool {
        nonzero_lanes(*rhs)
    }

    open spec fn rem_spec(self, rhs: &'b Simd<i64, N>) -> Simd<i64, N> {
        truncated_remainder(splatted::<i64, N>(*self), *rhs)
    }
}

impl<'a, T: SimdElement, const N: usize> core::ops::BitAnd<&'a Simd<T, N>> for Simd<T, N> {
    type Output = Simd<T, N>;

    /// Computes bitwise AND for each element of `self` and the corresponding element of `rhs`.
    fn bitand(self, rhs: &'a Simd<T, N>) -> (r: Simd<T, N>)
        ensures
            r == lanewise_and(self, *rhs),
    {
        core::ops::BitAnd::bitand(self, *rhs)
    }
}

impl<'a, T: SimdElement, const N: usize> BitAndSpecImpl<&'a Simd<T, N>> for Simd<T, N> {
    open spec fn obeys_bitand_spec() -> bool {
        true
    }

    open spec fn bitand_req(self, rhs: &'a Simd<T, N>) -> bool {
        true
    }

    open spec fn bitand_spec(self, rhs: &'a Simd<T, N>) -> Simd<T, N> {
        lanewise_and(self, *rhs)
    }
}

impl<'a, T: SimdElement, const N: usize> core::ops::BitAnd<&'a T> for Simd<T, N> {
    type Output = Simd<T, N>;

    /// Computes bitwise AND for each element of `self` and the uniform scalar `rhs`.
    fn bitand(self, rhs: &'a T) -> (r: Simd<T, N>)
        ensures
            r == lanewise_and(self, splatted::<T, N>(*rhs)),
    {
        core::ops::BitAnd::bitand(self, *rhs)
    }
}

impl<'a, T: SimdElement, const N: usize> BitAndSpecImpl<&'a T> for Simd<T, N> {
    open spec fn obeys_bitand_spec() -> bool {
        true
    }

    open spec fn bitand_req(self, rhs: &'a T) -> bool {
        true
    }

    open spec fn bitand_spec(self, rhs: &'a T) -> Simd<T, N> {
        lanewise_and(self, splatted::<T, N>(*rhs))
    }
}

impl<'a, T: SimdElement, const N: usize> core::ops::BitAnd<Simd<T, N>> for &'a Simd<T, N> {
    type Output = Simd<T, N>;

    /// Computes bitwise AND for each element of `self` and the corresponding element of `rhs`.
    fn bitand(self, rhs: Simd<T, N>) -> (r: Simd<T, N>)
        ensures
            r == lanewise_and(*self, rhs),
    {
        core::ops::BitAnd::bitand(*self, rhs)
    }
}

impl<'a, T: SimdElement, const N: usize> BitAndSpecImpl<Simd<T, N>> for &'a Simd<T, N> {
    open spec fn obeys_bitand_spec() -> bool {
        true
    }

    open spec fn bitand_req(self, rhs: Simd<T, N>) -> bool {
        true
    }

    open spec fn bitand_spec(self, rhs: Simd<T, N>) -> Simd<T, N> {
        lanewise_and(*self, rhs)
    }
}

impl<'a, T: SimdElement, const N: usize> core::ops::BitAnd<T> for &'a Simd<T, N> {
    type Output = Simd<T, N>;

    /// Computes bitwise AND for each element of `self` and the uniform scalar `rhs`.
    fn bitand(self, rhs: T) -> (r: Simd<T, N>)
        ensures
            r == lanewise_and(*self, splatted::<T, N>(rhs)),
    {
        core::ops::BitAnd::bitand(*self, rhs)
    }
}

impl<'a, T: SimdElement, const N: usize> BitAndSpecImpl<T> for &'a Simd<T, N> {
    open spec fn obeys_bitand_spec() -> bool {
        true
    }

    open spec fn bitand_req(self, rhs: T) -> bool {
        true
    }

    open spec fn bitand_spec(self, rhs: T) -> Simd<T, N> {
        lanewise_and(*self, splatted::<T, N>(rhs))
    }
}

impl<'a, 'b, T: SimdElement, const N: usize> core::ops::BitAnd<&'b Simd<T, N>> for &'a Simd<T, N> {
    type Output = Simd<T, N>;

    /// Computes bitwise AND for each element of `self` and the corresponding element of `rhs`.
    fn bitand(self, rhs: &'b Simd<T, N>) -> (r: Simd<T, N>)
        ensures
            r == lanewise_and(*self, *rhs),
    {
        core::ops::BitAnd::bitand(*self, *rhs)
    }
}

impl<'a, 'b, T: SimdElement, const N: usize> BitAndSpecImpl<&'b Simd<T, N>> for &'a Simd<T, N> {
    open spec fn obeys_bitand_spec() -> bool {
        true
    }

    open spec fn bitand_req(self, rhs: &'b Simd<T, N>) -> bool {
        true
    }

    open spec fn bitand_spec(self, rhs: &'b Simd<T, N>) -> Simd<T, N> {
        lanewise_and(*self, *rhs)
    }
}

impl<'a, 'b, T: SimdElement, const N: usize> core::ops::BitAnd<&'b T> for &'a Simd<T, N> {
    type Output = Simd<T, N>;

    /// Computes bitwise AND for each element of `self` and the uniform scalar `rhs`.
    fn bitand(self, rhs: &'b T) -> (r: Simd<T, N>)
        ensures
            r == lanewise_and(*self, splatted::<T, N>(*rhs)),
    {
        core::ops::BitAnd::bitand(*self, *rhs)
    }
}

impl<'a, 'b, T: SimdElement, const N: usize> BitAndSpecImpl<&'b T> for &'a Simd<T, N> {
    open spec fn obeys_bitand_spec() -> bool {
        true
    }

    open spec fn bitand_req(self, rhs: &'b T) -> bool {
        true
    }

    open spec fn bitand_spec(self, rhs: &'b T) -> Simd<T, N> {
        lanewise_and(*self, splatted::<T, N>(*rhs))
    }
}

impl<const N: usize> core::ops::BitAnd<Simd<u8, N>> for u8 {
    type Output = Simd<u8, N>;

    /// Computes bitwise AND for the uniform scalar `self` and each element of `rhs`.
    fn bitand(self, rhs: Simd<u8, N>) -> (r: Simd<u8, N>)
        ensures
            r == lanewise_and(splatted::<u8, N>(self), rhs),
    {
        core::ops::BitAnd::bitand(Simd::<u8, N>::splat(self), rhs)
    }
}

impl<const N: usize> BitAndSpecImpl<Simd<u8, N>> for u8 {
    open spec fn obeys_bitand_spec() -> bool {
        true
    }

    open spec fn bitand_req(self, rhs: Simd<u8, N>) -> bool {
        true
    }

    open spec fn bitand_spec(self, rhs: Simd<u8, N>) -> Simd<u8, N> {
        lanewise_and(splatted::<u8, N>(self), rhs)
    }
}

impl<'a, const N: usize> core::ops::BitAnd<&'a Simd<u8, N>> for u8 {
    type Output = Simd<u8, N>;

    /// Computes bitwise AND for the uniform scalar `self` and each element of `rhs`.
    fn bitand(self, rhs: &'a Simd<u8, N>) -> (r: Simd<u8, N>)
        ensures
            r == lanewise_and(splatted::<u8, N>(self), *rhs),
    {
        core::ops::BitAnd::bitand(Simd::<u8, N>::splat(self), *rhs)
    }
}

impl<'a, const N: usize> BitAndSpecImpl<&'a Simd<u8, N>> for u8 {
    open spec fn obeys_bitand_spec() -> bool {
        true
    }

    open spec fn bitand_req(self, rhs: &'a Simd<u8, N>) -> bool {
        true
    }

    open spec fn bitand_spec(self, rhs: &'a Simd<u8, N>) -> Simd<u8, N> {
        lanewise_and(splatted::<u8, N>(self), *rhs)
    }
}

impl<'a, const N: usize> core::ops::BitAnd<Simd<u8, N>> for &'a u8 {
    type Output = Simd<u8, N>;

    /// Computes bitwise AND for the uniform scalar `self` and each element of `rhs`.
    fn bitand(self, rhs: Simd<u8, N>) -> (r: Simd<u8, N>)
        ensures
            r == lanewise_and(splatted::<u8, N>(*self), rhs),
    {
        core::ops::BitAnd::bitand(Simd::<u8, N>::splat(*self), rhs)
    }
}

impl<'a, const N: usize> BitAndSpecImpl<Simd<u8, N>> for &'a u8 {
    open spec fn obeys_bitand_spec() -> bool {
        true
    }

    open spec fn bitand_req(self, rhs: Simd<u8, N>) -> bool {
        true
    }

    open spec fn bitand_spec(self, rhs: Simd<u8, N>) -> Simd<u8, N> {
        lanewise_and(splatted::<u8, N>(*self), rhs)
    }
}

impl<'a, 'b, const N: usize> core::ops::BitAnd<&'b Simd<u8, N>> for &'a u8 {
    type Output = Simd<u8, N>;

    /// Computes bitwise AND for the uniform scalar `self` and each element of `rhs`.
    fn bitand(self, rhs: &'b Simd<u8, N>) -> (r: Simd<u8, N>)
        ensures
            r == lanewise_and(splatted::<u8, N>(*self), *rhs),
    {
        core::ops::BitAnd::bitand(Simd::<u8, N>::splat(*self), *rhs)
    }
}

impl<'a, 'b, const N: usize> BitAndSpecImpl<&'b Simd<u8, N>> for &'a u8 {
    open spec fn obeys_bitand_spec() -> bool {
        true
    }

    open spec fn bitand_req(self, rhs: &'b Simd<u8, N>) -> bool {
        true
    }

    open spec fn bitand_spec(self, rhs: &'b Simd<u8, N>) -> Simd<u8, N> {
        lanewise_and(splatted::<u8, N>(*self), *rhs)
    }
}

impl<const N: usize> core::ops::BitAnd<Simd<u16, N>> for u16 {
    type Output = Simd<u16, N>;

    /// Computes bitwise AND for the uniform scalar `self` and each element of `rhs`.
    fn bitand(self, rhs: Simd<u16, N>) -> (r: Simd<u16, N>)
        ensures
            r == lanewise_and(splatted::<u16, N>(self), rhs),
    {
        core::ops::BitAnd::bitand(Simd::<u16, N>::splat(self), rhs)
    }
}

impl<const N: usize> BitAndSpecImpl<Simd<u16, N>> for u16 {
    open spec fn obeys_bitand_spec() -> bool {
        true
    }

    open spec fn bitand_req(self, rhs: Simd<u16, N>) -> bool {
        true
    }

    open spec fn bitand_spec(self, rhs: Simd<u16, N>) -> Simd<u16, N> {
        lanewise_and(splatted::<u16, N>(self), rhs)
    }
}

impl<'a, const N: usize> core::ops::BitAnd<&'a Simd<u16, N>> for u16 {
    type Output = Simd<u16, N>;

    /// Computes bitwise AND for the uniform scalar `self` and each element of `rhs`.
    fn bitand(self, rhs: &'a Simd<u16, N>) -> (r: Simd<u16, N>)
        ensures
            r == lanewise_and(splatted::<u16, N>(self), *rhs),
    {
        core::ops::BitAnd::bitand(Simd::<u16, N>::splat(self), *rhs)
    }
}

impl<'a, const N: usize> BitAndSpecImpl<&'a Simd<u16, N>> for u16 {
    open spec fn obeys_bitand_spec() -> bool {
        true
    }

    open spec fn bitand_req(self, rhs: &'a Simd<u16, N>) -> bool {
        true
    }

    open spec fn bitand_spec(self, rhs: &'a Simd<u16, N>) -> Simd<u16, N> {
        lanewise_and(splatted::<u16, N>(self), *rhs)
    }
}

impl<'a, const N: usize> core::ops::BitAnd<Simd<u16, N>> for &'a u16 {
    type Output = Simd<u16, N>;

    /// Computes bitwise AND for the uniform scalar `self` and each element of `rhs`.
    fn bitand(self, rhs: Simd<u16, N>) -> (r: Simd<u16, N>)
        ensures
            r == lanewise_and(splatted::<u16, N>(*self), rhs),
    {
        core::ops::BitAnd::bitand(Simd::<u16, N>::splat(*self), rhs)
    }
}

impl<'a, const N: usize> BitAndSpecImpl<Simd<u16, N>> for &'a u16 {
    open spec fn obeys_bitand_spec() -> bool {
        true
    }

    open spec fn bitand_req(self, rhs: Simd<u16, N>) -> bool {
        true
    }

    open spec fn bitand_spec(self, rhs: Simd<u16, N>) -> Simd<u16, N> {
        lanewise_and(splatted::<u16, N>(*self), rhs)
    }
}

impl<'a, 'b, const N: usize> core::ops::BitAnd<&'b Simd<u16, N>> for &'a u16 {
    type Output = Simd<u16, N>;

    /// Computes bitwise AND for the uniform scalar `self` and each element of `rhs`.
    fn bitand(self, rhs: &'b Simd<u16, N>) -> (r: Simd<u16, N>)
        ensures
            r == lanewise_and(splatted::<u16, N>(*self), *rhs),
    {
        core::ops::BitAnd::bitand(Simd::<u16, N>::splat(*self), *rhs)
    }
}

impl<'a, 'b, const N: usize> BitAndSpecImpl<&'b Simd<u16, N>> for &'a u16 {
    open spec fn obeys_bitand_spec() -> bool {
        true
    }

    open spec fn bitand_req(self, rhs: &'b Simd<u16, N>) -> bool {
        true
    }

    open spec fn bitand_spec(self, rhs: &'b Simd<u16, N>) -> Simd<u16, N> {
        lanewise_and(splatted::<u16, N>(*self), *rhs)
    }
}

impl<const N: usize> core::ops::BitAnd<Simd<u32, N>> for u32 {
    type Output = Simd<u32, N>;

    /// Computes bitwise AND for the uniform scalar `self` and each element of `rhs`.
    fn bitand(self, rhs: Simd<u32, N>) -> (r: Simd<u32, N>)
        ensures
            r == lanewise_and(splatted::<u32, N>(self), rhs),
    {
        core::ops::BitAnd::bitand(Simd::<u32, N>::splat(self), rhs)
    }
}

impl<const N: usize> BitAndSpecImpl<Simd<u32, N>> for u32 {
    open spec fn obeys_bitand_spec() -> bool {
        true
    }

    open spec fn bitand_req(self, rhs: Simd<u32, N>) -> bool {
        true
    }

    open spec fn bitand_spec(self, rhs: Simd<u32, N>) -> Simd<u32, N> {
        lanewise_and(splatted::<u32, N>(self), rhs)
    }
}

impl<'a, const N: usize> core::ops::BitAnd<&'a Simd<u32, N>> for u32 {
    type Output = Simd<u32, N>;

    /// Computes bitwise AND for the uniform scalar `self` and each element of `rhs`.
    fn bitand(self, rhs: &'a Simd<u32, N>) -> (r: Simd<u32, N>)
        ensures
            r == lanewise_and(splatted::<u32, N>(self), *rhs),
    {
        core::ops::BitAnd::bitand(Simd::<u32, N>::splat(self), *rhs)
    }
}

impl<'a, const N: usize> BitAndSpecImpl<&'a Simd<u32, N>> for u32 {
    open spec fn obeys_bitand_spec() -> bool {
        true
    }

    open spec fn bitand_req(self, rhs: &'a Simd<u32, N>) -> bool {
        true
    }

    open spec fn bitand_spec(self, rhs: &'a Simd<u32, N>) -> Simd<u32, N> {
        lanewise_and(splatted::<u32, N>(self), *rhs)
    }
}

impl<'a, const N: usize> core::ops::BitAnd<Simd<u32, N>> for &'a u32 {
    type Output = Simd<u32, N>;

    /// Computes bitwise AND for the uniform scalar `self` and each element of `rhs`.
    fn bitand(self, rhs: Simd<u32, N>) -> (r: Simd<u32, N>)
        ensures
            r == lanewise_and(splatted::<u32, N>(*self), rhs),
    {
        core::ops::BitAnd::bitand(Simd::<u32, N>::splat(*self), rhs)
    }
}

impl<'a, const N: usize> BitAndSpecImpl<Simd<u32, N>> for &'a u32 {
    open spec fn obeys_bitand_spec() -> bool {
        true
    }

    open spec fn bitand_req(self, rhs: Simd<u32, N>) -> bool {
        true
    }

    open spec fn bitand_spec(self, rhs: Simd<u32, N>) -> Simd<u32, N> {
        lanewise_and(splatted::<u32, N>(*self), rhs)
    }
}

impl<'a, 'b, const N: usize> core::ops::BitAnd<&'b Simd<u32, N>> for &'a u32 {
    type Output = Simd<u32, N>;

    /// Computes bitwise AND for the uniform scalar `self` and each element of `rhs`.
    fn bitand(self, rhs: &'b Simd<u32, N>) -> (r: Simd<u32, N>)
        ensures
            r == lanewise_and(splatted::<u32, N>(*self), *rhs),
    {
        core::ops::BitAnd::bitand(Simd::<u32, N>::splat(*self), *rhs)
    }
}

impl<'a, 'b, const N: usize> BitAndSpecImpl<&'b Simd<u32, N>> for &'a u32 {
    open spec fn obeys_bitand_spec() -> bool {
        true
    }

    open spec fn bitand_req(self, rhs: &'b Simd<u32, N>) -> bool {
        true
    }

    open spec fn bitand_spec(self, rhs: &'b Simd<u32, N>) -> Simd<u32, N> {
        lanewise_and(splatted::<u32, N>(*self), *rhs)
    }
}

impl<const N: usize> core::ops::BitAnd<Simd<u64, N>> for u64 {
    type Output = Simd<u64, N>;

    /// Computes bitwise AND for the uniform scalar `self` and each element of `rhs`.
    fn bitand(self, rhs: Simd<u64, N>) -> (r: Simd<u64, N>)
        ensures
            r == lanewise_and(splatted::<u64, N>(self), rhs),
    {
        core::ops::BitAnd::bitand(Simd::<u64, N>::splat(self), rhs)
    }
}

impl<const N: usize> BitAndSpecImpl<Simd<u64, N>> for u64 {
    open spec fn obeys_bitand_spec() -> bool {
        true
    }

    open spec fn bitand_req(self, rhs: Simd<u64, N>) -> bool {
        true
    }

    open spec fn bitand_spec(self, rhs: Simd<u64, N>) -> Simd<u64, N> {
        lanewise_and(splatted::<u64, N>(self), rhs)
    }
}

impl<'a, const N: usize> core::ops::BitAnd<&'a Simd<u64, N>> for u64 {
    type Output = Simd<u64, N>;

    /// Computes bitwise AND for the uniform scalar `self` and each element of `rhs`.
    fn bitand(self, rhs: &'a Simd<u64, N>) -> (r: Simd<u64, N>)
        ensures
            r == lanewise_and(splatted::<u64, N>(self), *rhs),
    {
        core::ops::BitAnd::bitand(Simd::<u64, N>::splat(self), *rhs)
    }
}

impl<'a, const N: usize> BitAndSpecImpl<&'a Simd<u64, N>> for u64 {
    open spec fn obeys_bitand_spec() -> bool {
        true
    }

    open spec fn bitand_req(self, rhs: &'a Simd<u64, N>) -> bool {
        true
    }

    open spec fn bitand_spec(self, rhs: &'a Simd<u64, N>) -> Simd<u64, N> {
        lanewise_and(splatted::<u64, N>(self), *rhs)
    }
}

impl<'a, const N: usize> core::ops::BitAnd<Simd<u64, N>> for &'a u64 {
    type Output = Simd<u64, N>;

    /// Computes bitwise AND for the uniform scalar `self` and each element of `rhs`.
    fn bitand(self, rhs: Simd<u64, N>) -> (r: Simd<u64, N>)
        ensures
            r == lanewise_and(splatted::<u64, N>(*self), rhs),
    {
        core::ops::BitAnd::bitand(Simd::<u64, N>::splat(*self), rhs)
    }
}

impl<'a, const N: usize> BitAndSpecImpl<Simd<u64, N>> for &'a u64 {
    open spec fn obeys_bitand_spec() -> bool {
        true
    }

    open spec fn bitand_req(self, rhs: Simd<u64, N>) -> bool {
        true
    }

    open spec fn bitand_spec(self, rhs: Simd<u64, N>) -> Simd<u64, N> {
        lanewise_and(splatted::<u64, N>(*self), rhs)
    }
}

impl<'a, 'b, const N: usize> core::ops::BitAnd<&'b Simd<u64, N>> for &'a u64 {
    type Output = Simd<u64, N>;

    /// Computes bitwise AND for the uniform scalar `self` and each element of `rhs`.
    fn bitand(self, rhs: &'b Simd<u64, N>) -> (r: Simd<u64, N>)
        ensures
            r == lanewise_and(splatted::<u64, N>(*self), *rhs),
    {
        core::ops::BitAnd::bitand(Simd::<u64, N>::splat(*self), *rhs)
    }
}

impl<'a, 'b, const N: usize> BitAndSpecImpl<&'b Simd<u64, N>> for &'a u64 {
    open spec fn obeys_bitand_spec() -> bool {
        true
    }

    open spec fn bitand_req(self, rhs: &'b Simd<u64, N>) -> bool {
        true
    }

    open spec fn bitand_spec(self, rhs: &'b Simd<u64, N>) -> Simd<u64, N> {
        lanewise_and(splatted::<u64, N>(*self), *rhs)
    }
}

impl<const N: usize> core::ops::BitAnd<Simd<i8, N>> for i8 {
    type Output = Simd<i8, N>;

    /// Computes bitwise AND for the uniform scalar `self` and each element of `rhs`.
    fn bitand(self, rhs: Simd<i8, N>) -> (r: Simd<i8, N>)
        ensures
            r == lanewise_and(splatted::<i8, N>(self), rhs),
    {
        core::ops::BitAnd::bitand(Simd::<i8, N>::splat(self), rhs)
    }
}

impl<const N: usize> BitAndSpecImpl<Simd<i8, N>> for i8 {
    open spec fn obeys_bitand_spec() -> bool {
        true
    }

    open spec fn bitand_req(self, rhs: Simd<i8, N>) -> bool {
        true
    }

    open spec fn bitand_spec(self, rhs: Simd<i8, N>) -> Simd<i8, N> {
        lanewise_and(splatted::<i8, N>(self), rhs)
    }
}

impl<'a, const N: usize> core::ops::BitAnd<&'a Simd<i8, N>> for i8 {
    type Output = Simd<i8, N>;

    /// Computes bitwise AND for the uniform scalar `self` and each element of `rhs`.
    fn bitand(self, rhs: &'a Simd<i8, N>) -> (r: Simd<i8, N>)
        ensures
            r == lanewise_and(splatted::<i8, N>(self), *rhs),
    {
        core::ops::BitAnd::bitand(Simd::<i8, N>::splat(self), *rhs)
    }
}

impl<'a, const N: usize> BitAndSpecImpl<&'a Simd<i8, N>> for i8 {
    open spec fn obeys_bitand_spec() -> bool {
        true
    }

    open spec fn bitand_req(self, rhs: &'a Simd<i8, N>) -> bool {
        true
    }

    open spec fn bitand_spec(self, rhs: &'a Simd<i8, N>) -> Simd<i8, N> {
        lanewise_and(splatted::<i8, N>(self), *rhs)
    }
}

impl<'a, const N: usize> core::ops::BitAnd<Simd<i8, N>> for &'a i8 {
    type Output = Simd<i8, N>;

    /// Computes bitwise AND for the uniform scalar `self` and each element of `rhs`.
    fn bitand(self, rhs: Simd<i8, N>) -> (r: Simd<i8, N>)
        ensures
            r == lanewise_and(splatted::<i8, N>(*self), rhs),
    {
        core::ops::BitAnd::bitand(Simd::<i8, N>::splat(*self), rhs)
    }
}

impl<'a, const N: usize> BitAndSpecImpl<Simd<i8, N>> for &'a i8 {
    open spec fn obeys_bitand_spec() -> bool {
        true
    }

    open spec fn bitand_req(self, rhs: Simd<i8, N>) -> bool {
        true
    }

    open spec fn bitand_spec(self, rhs: Simd<i8, N>) -> Simd<i8, N> {
        lanewise_and(splatted::<i8, N>(*self), rhs)
    }
}

impl<'a, 'b, const N: usize> core::ops::BitAnd<&'b Simd<i8, N>> for &'a i8 {
    type Output = Simd<i8, N>;

    /// Computes bitwise AND for the uniform scalar `self` and each element of `rhs`.
    fn bitand(self, rhs: &'b Simd<i8, N>) -> (r: Simd<i8, N>)
        ensures
            r == lanewise_and(splatted::<i8, N>(*self), *rhs),
    {
        core::ops::BitAnd::bitand(Simd::<i8, N>::splat(*self), *rhs)
    }
}

impl<'a, 'b, const N: usize> BitAndSpecImpl<&'b Simd<i8, N>> for &'a i8 {
    open spec fn obeys_bitand_spec() -> bool {
        true
    }

    open spec fn bitand_req(self, rhs: &'b Simd<i8, N>) -> bool {
        true
    }

    open spec fn bitand_spec(self, rhs: &'b Simd<i8, N>) -> Simd<i8, N> {
        lanewise_and(splatted::<i8, N>(*self), *rhs)
    }
}

impl<const N: usize> core::ops::BitAnd<Simd<i16, N>> for i16 {
    type Output = Simd<i16, N>;

    /// Computes bitwise AND for the uniform scalar `self` and each element of `rhs`.
    fn bitand(self, rhs: Simd<i16, N>) -> (r: Simd<i16, N>)
        ensures
            r == lanewise_and(splatted::<i16, N>(self), rhs),
    {
        core::ops::BitAnd::bitand(Simd::<i16, N>::splat(self), rhs)
    }
}

impl<const N: usize> BitAndSpecImpl<Simd<i16, N>> for i16 {
    open spec fn obeys_bitand_spec() -> bool {
        true
    }

    open spec fn bitand_req(self, rhs: Simd<i16, N>) -> bool {
        true
    }

    open spec fn bitand_spec(self, rhs: Simd<i16, N>) -> Simd<i16, N> {
        lanewise_and(splatted::<i16, N>(self), rhs)
    }
}

impl<'a, const N: usize> core::ops::BitAnd<&'a Simd<i16, N>> for i16 {
    type Output = Simd<i16, N>;

    /// Computes bitwise AND for the uniform scalar `self` and each element of `rhs`.
    fn bitand(self, rhs: &'a Simd<i16, N>) -> (r: Simd<i16, N>)
        ensures
            r == lanewise_and(splatted::<i16, N>(self), *rhs),
    {
        core::ops::BitAnd::bitand(Simd::<i16, N>::splat(self), *rhs)
    }
}

impl<'a, const N: usize> BitAndSpecImpl<&'a Simd<i16, N>> for i16 {
    open spec fn obeys_bitand_spec() -> bool {
        true
    }

    open spec fn bitand_req(self, rhs: &'a Simd<i16, N>) -> bool {
        true
    }

    open spec fn bitand_spec(self, rhs: &'a Simd<i16, N>) -> Simd<i16, N> {
        lanewise_and(splatted::<i16, N>(self), *rhs)
    }
}

impl<'a, const N: usize> core::ops::BitAnd<Simd<i16, N>> for &'a i16 {
    type Output = Simd<i16, N>;

    /// Computes bitwise AND for the uniform scalar `self` and each element of `rhs`.
    fn bitand(self, rhs: Simd<i16, N>) -> (r: Simd<i16, N>)
        ensures
            r == lanewise_and(splatted::<i16, N>(*self), rhs),
    {
        core::ops::BitAnd::bitand(Simd::<i16, N>::splat(*self), rhs)
    }
}

impl<'a, const N: usize> BitAndSpecImpl<Simd<i16, N>> for &'a i16 {
    open spec fn obeys_bitand_spec() -> bool {
        true
    }

    open spec fn bitand_req(self, rhs: Simd<i16, N>) -> bool {
        true
    }

    open spec fn bitand_spec(self, rhs: Simd<i16, N>) -> Simd<i16, N> {
        lanewise_and(splatted::<i16, N>(*self), rhs)
    }
}

impl<'a, 'b, const N: usize> core::ops::BitAnd<&'b Simd<i16, N>> for &'a i16 {
    type Output = Simd<i16, N>;

    /// Computes bitwise AND for the uniform scalar `self` and each element of `rhs`.
    fn bitand(self, rhs: &'b Simd<i16, N>) -> (r: Simd<i16, N>)
        ensures
            r == lanewise_and(splatted::<i16, N>(*self), *rhs),
    {
        core::ops::BitAnd::bitand(Simd::<i16, N>::splat(*self), *rhs)
    }
}

impl<'a, 'b, const N: usize> BitAndSpecImpl<&'b Simd<i16, N>> for &'a i16 {
    open spec fn obeys_bitand_spec() -> bool {
        true
    }

    open spec fn bitand_req(self, rhs: &'b Simd<i16, N>) -> bool {
        true
    }

    open spec fn bitand_spec(self, rhs: &'b Simd<i16, N>) -> Simd<i16, N> {
        lanewise_and(splatted::<i16, N>(*self), *rhs)
    }
}

impl<const N: usize> core::ops::BitAnd<Simd<i32, N>> for i32 {
    type Output = Simd<i32, N>;

    /// Computes bitwise AND for the uniform scalar `self` and each element of `rhs`.
    fn bitand(self, rhs: Simd<i32, N>) -> (r: Simd<i32, N>)
        ensures
            r == lanewise_and(splatted::<i32, N>(self), rhs),
    {
        core::ops::BitAnd::bitand(Simd::<i32, N>::splat(self), rhs)
    }
}

impl<const N: usize> BitAndSpecImpl<Simd<i32, N>> for i32 {
    open spec fn obeys_bitand_spec() -> bool {
        true
    }

    open spec fn bitand_req(self, rhs: Simd<i32, N>) -> bool {
        true
    }

    open spec fn bitand_spec(self, rhs: Simd<i32, N>) -> Simd<i32, N> {
        lanewise_and(splatted::<i32, N>(self), rhs)
    }
}

impl<'a, const N: usize> core::ops::BitAnd<&'a Simd<i32, N>> for i32 {
    type Output = Simd<i32, N>;

    /// Computes bitwise AND for the uniform scalar `self` and each element of `rhs`.
    fn bitand(self, rhs: &'a Simd<i32, N>) -> (r: Simd<i32, N>)
        ensures
            r == lanewise_and(splatted::<i32, N>(self), *rhs),
    {
        core::ops::BitAnd::bitand(Simd::<i32, N>::splat(self), *rhs)
    }
}

impl<'a, const N: usize> BitAndSpecImpl<&'a Simd<i32, N>> for i32 {
    open spec fn obeys_bitand_spec() -> bool {
        true
    }

    open spec fn bitand_req(self, rhs: &'a Simd<i32, N>) -> bool {
        true
    }

    open spec fn bitand_spec(self, rhs: &'a Simd<i32, N>) -> Simd<i32, N> {
        lanewise_and(splatted::<i32, N>(self), *rhs)
    }
}

impl<'a, const N: usize> core::ops::BitAnd<Simd<i32, N>> for &'a i32 {
    type Output = Simd<i32, N>;

    /// Computes bitwise AND for the uniform scalar `self` and each element of `rhs`.
    fn bitand(self, rhs: Simd<i32, N>) -> (r: Simd<i32, N>)
        ensures
            r == lanewise_and(splatted::<i32, N>(*self), rhs),
    {
        core::ops::BitAnd::bitand(Simd::<i32, N>::splat(*self), rhs)
    }
}

impl<'a, const N: usize> BitAndSpecImpl<Simd<i32, N>> for &'a i32 {
    open spec fn obeys_bitand_spec() -> bool {
        true
    }

    open spec fn bitand_req(self, rhs: Simd<i32, N>) -> bool {
        true
    }

    open spec fn bitand_spec(self, rhs: Simd<i32, N>) -> Simd<i32, N> {
        lanewise_and(splatted::<i32, N>(*self), rhs)
    }
}

impl<'a, 'b, const N: usize> core::ops::BitAnd<&'b Simd<i32, N>> for &'a i32 {
    type Output = Simd<i32, N>;

    /// Computes bitwise AND for the uniform scalar `self` and each element of `rhs`.
    fn bitand(self, rhs: &'b Simd<i32, N>) -> (r: Simd<i32, N>)
        ensures
            r == lanewise_and(splatted::<i32, N>(*self), *rhs),
    {
        core::ops::BitAnd::bitand(Simd::<i32, N>::splat(*self), *rhs)
    }
}

impl<'a, 'b, const N: usize> BitAndSpecImpl<&'b Simd<i32, N>> for &'a i32 {
    open spec fn obeys_bitand_spec() -> bool {
        true
    }

    open spec fn bitand_req(self, rhs: &'b Simd<i32, N>) -> bool {
        true
    }

    open spec fn bitand_spec(self, rhs: &'b Simd<i32, N>) -> Simd<i32, N> {
        lanewise_and(splatted::<i32, N>(*self), *rhs)
    }
}

impl<const N: usize> core::ops::BitAnd<Simd<i64, N>> for i64 {
    type Output = Simd<i64, N>;

    /// Computes bitwise AND for the uniform scalar `self` and each element of `rhs`.
    fn bitand(self, rhs: Simd<i64, N>) -> (r: Simd<i64, N>)
        ensures
            r == lanewise_and(splatted::<i64, N>(self), rhs),
    {
        core::ops::BitAnd::bitand(Simd::<i64, N>::splat(self), rhs)
    }
}

impl<const N: usize> BitAndSpecImpl<Simd<i64, N>> for i64 {
    open spec fn obeys_bitand_spec() -> bool {
        true
    }

    open spec fn bitand_req(self, rhs: Simd<i64, N>) -> bool {
        true
    }

    open spec fn bitand_spec(self, rhs: Simd<i64, N>) -> Simd<i64, N> {
        lanewise_and(splatted::<i64, N>(self), rhs)
    }
}

impl<'a, const N: usize> core::ops::BitAnd<&'a Simd<i64, N>> for i64 {
    type Output = Simd<i64, N>;

    /// Computes bitwise AND for the uniform scalar `self` and each element of `rhs`.
    fn bitand(self, rhs: &'a Simd<i64, N>) -> (r: Simd<i64, N>)
        ensures
            r == lanewise_and(splatted::<i64, N>(self), *rhs),
    {
        core::ops::BitAnd::bitand(Simd::<i64, N>::splat(self), *rhs)
    }
}

impl<'a, const N: usize> BitAndSpecImpl<&'a Simd<i64, N>> for i64 {
    open spec fn obeys_bitand_spec() -> bool {
        true
    }

    open spec fn bitand_req(self, rhs: &'a Simd<i64, N>) -> bool {
        true
    }

    open spec fn bitand_spec(self, rhs: &'a Simd<i64, N>) -> Simd<i64, N> {
        lanewise_and(splatted::<i64, N>(self), *rhs)
    }
}

impl<'a, const N: usize> core::ops::BitAnd<Simd<i64, N>> for &'a i64 {
    type Output = Simd<i64, N>;

    /// Computes bitwise AND for the uniform scalar `self` and each element of `rhs`.
    fn bitand(self, rhs: Simd<i64, N>) -> (r: Simd<i64, N>)
        ensures
            r == lanewise_and(splatted::<i64, N>(*self), rhs),
    {
        core::ops::BitAnd::bitand(Simd::<i64, N>::splat(*self), rhs)
    }
}

impl<'a, const N: usize> BitAndSpecImpl<Simd<i64, N>> for &'a i64 {
    open spec fn obeys_bitand_spec() -> bool {
        true
    }

    open spec fn bitand_req(self, rhs: Simd<i64, N>) -> bool {
        true
    }

    open spec fn bitand_spec(self, rhs: Simd<i64, N>) -> Simd<i64, N> {
        lanewise_and(splatted::<i64, N>(*self), rhs)
    }
}

impl<'a, 'b, const N: usize> core::ops::BitAnd<&'b Simd<i64, N>> for &'a i64 {
    type Output = Simd<i64, N>;

    /// Computes bitwise AND for the uniform scalar `self` and each element of `rhs`.
    fn bitand(self, rhs: &'b Simd<i64, N>) -> (r: Simd<i64, N>)
        ensures
            r == lanewise_and(splatted::<i64, N>(*self), *rhs),
    {
        core::ops::BitAnd::bitand(Simd::<i64, N>::splat(*self), *rhs)
    }
}

impl<'a, 'b, const N: usize> BitAndSpecImpl<&'b Simd<i64, N>> for &'a i64 {
    open spec fn obeys_bitand_spec() -> bool {
        true
    }

    open spec fn bitand_req(self, rhs: &'b Simd<i64, N>) -> bool {
        true
    }

    open spec fn bitand_spec(self, rhs: &'b Simd<i64, N>) -> Simd<i64, N> {
        lanewise_and(splatted::<i64, N>(*self), *rhs)
    }
}

impl<'a, T: SimdElement, const N: usize> core::ops::BitOr<&'a Simd<T, N>> for Simd<T, N> {
    type Output = Simd<T, N>;

    /// Computes bitwise OR for each element of `self` and the corresponding element of `rhs`.
    fn bitor(self, rhs: &'a Simd<T, N>) -> (r: Simd<T, N>)
        ensures
            r == lanewise_or(self, *rhs),
    {
        core::ops::BitOr::bitor(self, *rhs)
    }
}

impl<'a, T: SimdElement, const N: usize> BitOrSpecImpl<&'a Simd<T, N>> for Simd<T, N> {
    open spec fn obeys_bitor_spec() -> bool {
        true
    }

    open spec fn bitor_req(self, rhs: &'a Simd<T, N>) -> bool {
        true
    }

    open spec fn bitor_spec(self, rhs: &'a Simd<T, N>) -> Simd<T, N> {
        lanewise_or(self, *rhs)
    }
}

impl<'a, T: SimdElement, const N: usize> core::ops::BitOr<&'a T> for Simd<T, N> {
    type Output = Simd<T, N>;

    /// Computes bitwise OR for each element of `self` and the uniform scalar `rhs`.
    fn bitor(self, rhs: &'a T) -> (r: Simd<T, N>)
        ensures
            r == lanewise_or(self, splatted::<T, N>(*rhs)),
    {
        core::ops::BitOr::bitor(self, *rhs)
    }
}

impl<'a, T: SimdElement, const N: usize> BitOrSpecImpl<&'a T> for Simd<T, N> {
    open spec fn obeys_bitor_spec() -> bool {
        true
    }

    open spec fn bitor_req(self, rhs: &'a T) -> bool {
        true
    }

    open spec fn bitor_spec(self, rhs: &'a T) -> Simd<T, N> {
        lanewise_or(self, splatted::<T, N>(*rhs))
    }
}

impl<'a, T: SimdElement, const N: usize> core::ops::BitOr<Simd<T, N>> for &'a Simd<T, N> {
    type Output = Simd<T, N>;

    /// Computes bitwise OR for each element of `self` and the corresponding element of `rhs`.
    fn bitor(self, rhs: Simd<T, N>) -> (r: Simd<T, N>)
        ensures
            r == lanewise_or(*self, rhs),
    {
        core::ops::BitOr::bitor(*self, rhs)
    }
}

impl<'a, T: SimdElement, const N: usize> BitOrSpecImpl<Simd<T, N>> for &'a Simd<T, N> {
    open spec fn obeys_bitor_spec() -> bool {
        true
    }

    open spec fn bitor_req(self, rhs: Simd<T, N>) -> bool {
        true
    }

    open spec fn bitor_spec(self, rhs: Simd<T, N>) -> Simd<T, N> {
        lanewise_or(*self, rhs)
    }
}

impl<'a, T: SimdElement, const N: usize> core::ops::BitOr<T> for &'a Simd<T, N> {
    type Output = Simd<T, N>;

    /// Computes bitwise OR for each element of `self` and the uniform scalar `rhs`.
    fn bitor(self, rhs: T) -> (r: Simd<T, N>)
        ensures
            r == lanewise_or(*self, splatted::<T, N>(rhs)),
    {
        core::ops::BitOr::bitor(*self, rhs)
    }
}

impl<'a, T: SimdElement, const N: usize> BitOrSpecImpl<T> for &'a Simd<T, N> {
    open spec fn obeys_bitor_spec() -> bool {
        true
    }

    open spec fn bitor_req(self, rhs: T) -> bool {
        true
    }

    open spec fn bitor_spec(self, rhs: T) -> Simd<T, N> {
        lanewise_or(*self, splatted::<T, N>(rhs))
    }
}

impl<'a, 'b, T: SimdElement, const N: usize> core::ops::BitOr<&'b Simd<T, N>> for &'a Simd<T, N> {
    type Output = Simd<T, N>;

    /// Computes bitwise OR for each element of `self` and the corresponding element of `rhs`.
    fn bitor(self, rhs: &'b Simd<T, N>) -> (r: Simd<T, N>)
        ensures
            r == lanewise_or(*self, *rhs),
    {
        core::ops::BitOr::bitor(*self, *rhs)
    }
}

impl<'a, 'b, T: SimdElement, const N: usize> BitOrSpecImpl<&'b Simd<T, N>> for &'a Simd<T, N> {
    open spec fn obeys_bitor_spec() -> bool {
        true
    }

    open spec fn bitor_req(self, rhs: &'b Simd<T, N>) -> bool {
        true
    }

    open spec fn bitor_spec(self, rhs: &'b Simd<T, N>) -> Simd<T, N> {
        lanewise_or(*self, *rhs)
    }
}

impl<'a, 'b, T: SimdElement, const N: usize> core::ops::BitOr<&'b T> for &'a Simd<T, N> {
    type Output = Simd<T, N>;

    /// Computes bitwise OR for each element of `self` and the uniform scalar `rhs`.
    fn bitor(self, rhs: &'b T) -> (r: Simd<T, N>)
        ensures
            r == lanewise_or(*self, splatted::<T, N>(*rhs)),
    {
        core::ops::BitOr::bitor(*self, *rhs)
    }
}

impl<'a, 'b, T: SimdElement, const N: usize> BitOrSpecImpl<&'b T> for &'a Simd<T, N> {
    open spec fn obeys_bitor_spec() -> bool {
        true
    }

    open spec fn bitor_req(self, rhs: &'b T) -> bool {
        true
    }

    open spec fn bitor_spec(self, rhs: &'b T) -> Simd<T, N> {
        lanewise_or(*self, splatted::<T, N>(*rhs))
    }
}

impl<const N: usize> core::ops::BitOr<Simd<u8, N>> for u8 {
    type Output = Simd<u8, N>;

    /// Computes bitwise OR for the uniform scalar `self` and each element of `rhs`.
    fn bitor(self, rhs: Simd<u8, N>) -> (r: Simd<u8, N>)
        ensures
            r == lanewise_or(splatted::<u8, N>(self), rhs),
    {
        core::ops::BitOr::bitor(Simd::<u8, N>::splat(self), rhs)
    }
}

impl<const N: usize> BitOrSpecImpl<Simd<u8, N>> for u8 {
    open spec fn obeys_bitor_spec() -> bool {
        true
    }

    open spec fn bitor_req(self, rhs: Simd<u8, N>) -> bool {
        true
    }

    open spec fn bitor_spec(self, rhs: Simd<u8, N>) -> Simd<u8, N> {
        lanewise_or(splatted::<u8, N>(self), rhs)
    }
}

impl<'a, const N: usize> core::ops::BitOr<&'a Simd<u8, N>> for u8 {
    type Output = Simd<u8, N>;

    /// Computes bitwise OR for the uniform scalar `self` and each element of `rhs`.
    fn bitor(self, rhs: &'a Simd<u8, N>) -> (r: Simd<u8, N>)
        ensures
            r == lanewise_or(splatted::<u8, N>(self), *rhs),
    {
        core::ops::BitOr::bitor(Simd::<u8, N>::splat(self), *rhs)
    }
}

impl<'a, const N: usize> BitOrSpecImpl<&'a Simd<u8, N>> for u8 {
    open spec fn obeys_bitor_spec() -> bool {
        true
    }

    open spec fn bitor_req(self, rhs: &'a Simd<u8, N>) -> bool {
        true
    }

    open spec fn bitor_spec(self, rhs: &'a Simd<u8, N>) -> Simd<u8, N> {
        lanewise_or(splatted::<u8, N>(self), *rhs)
    }
}

impl<'a, const N: usize> core::ops::BitOr<Simd<u8, N>> for &'a u8 {
    type Output = Simd<u8, N>;

    /// Computes bitwise OR for the uniform scalar `self` and each element of `rhs`.
    fn bitor(self, rhs: Simd<u8, N>) -> (r: Simd<u8, N>)
        ensures
            r == lanewise_or(splatted::<u8, N>(*self), rhs),
    {
        core::ops::BitOr::bitor(Simd::<u8, N>::splat(*self), rhs)
    }
}

impl<'a, const N: usize> BitOrSpecImpl<Simd<u8, N>> for &'a u8 {
    open spec fn obeys_bitor_spec() -> bool {
        true
    }

    open spec fn bitor_req(self, rhs: Simd<u8, N>) -> bool {
        true
    }

    open spec fn bitor_spec(self, rhs: Simd<u8, N>) -> Simd<u8, N> {
        lanewise_or(splatted::<u8, N>(*self), rhs)
    }
}

impl<'a, 'b, const N: usize> core::ops::BitOr<&'b Simd<u8, N>> for &'a u8 {
    type Output = Simd<u8, N>;

    /// Computes bitwise OR for the uniform scalar `self` and each element of `rhs`.
    fn bitor(self, rhs: &'b Simd<u8, N>) -> (r: Simd<u8, N>)
        ensures
            r == lanewise_or(splatted::<u8, N>(*self), *rhs),
    {
        core::ops::BitOr::bitor(Simd::<u8, N>::splat(*self), *rhs)
    }
}

impl<'a, 'b, const N: usize> BitOrSpecImpl<&'b Simd<u8, N>> for &'a u8 {
    open spec fn obeys_bitor_spec() -> bool {
        true
    }

    open spec fn bitor_req(self, rhs: &'b Simd<u8, N>) -> bool {
        true
    }

    open spec fn bitor_spec(self, rhs: &'b Simd<u8, N>) -> Simd<u8, N> {
        lanewise_or(splatted::<u8, N>(*self), *rhs)
    }
}

impl<const N: usize> core::ops::BitOr<Simd<u16, N>> for u16 {
    type Output = Simd<u16, N>;

    /// Computes bitwise OR for the uniform scalar `self` and each element of `rhs`.
    fn bitor(self, rhs: Simd<u16, N>) -> (r: Simd<u16, N>)
        ensures
            r == lanewise_or(splatted::<u16, N>(self), rhs),
    {
        core::ops::BitOr::bitor(Simd::<u16, N>::splat(self), rhs)
    }
}

impl<const N: usize> BitOrSpecImpl<Simd<u16, N>> for u16 {
    open spec fn obeys_bitor_spec() -> bool {
        true
    }

    open spec fn bitor_req(self, rhs: Simd<u16, N>) -> bool {
        true
    }

    open spec fn bitor_spec(self, rhs: Simd<u16, N>) -> Simd<u16, N> {
        lanewise_or(splatted::<u16, N>(self), rhs)
    }
}

impl<'a, const N: usize> core::ops::BitOr<&'a Simd<u16, N>> for u16 {
    type Output = Simd<u16, N>;

    /// Computes bitwise OR for the uniform scalar `self` and each element of `rhs`.
    fn bitor(self, rhs: &'a Simd<u16, N>) -> (r: Simd<u16, N>)
        ensures
            r == lanewise_or(splatted::<u16, N>(self), *rhs),
    {
        core::ops::BitOr::bitor(Simd::<u16, N>::splat(self), *rhs)
    }
}

impl<'a, const N: usize> BitOrSpecImpl<&'a Simd<u16, N>> for u16 {
    open spec fn obeys_bitor_spec() -> bool {
        true
    }

    open spec fn bitor_req(self, rhs: &'a Simd<u16, N>) -> bool {
        true
    }

    open spec fn bitor_spec(self, rhs: &'a Simd<u16, N>) -> Simd<u16, N> {
        lanewise_or(splatted::<u16, N>(self), *rhs)
    }
}

impl<'a, const N: usize> core::ops::BitOr<Simd<u16, N>> for &'a u16 {
    type Output = Simd<u16, N>;

    /// Computes bitwise OR for the uniform scalar `self` and each element of `rhs`.
    fn bitor(self, rhs: Simd<u16, N>) -> (r: Simd<u16, N>)
        ensures
            r == lanewise_or(splatted::<u16, N>(*self), rhs),
    {
        core::ops::BitOr::bitor(Simd::<u16, N>::splat(*self), rhs)
    }
}

impl<'a, const N: usize> BitOrSpecImpl<Simd<u16, N>> for &'a u16 {
    open spec fn obeys_bitor_spec() -> bool {
        true
    }

    open spec fn bitor_req(self, rhs: Simd<u16, N>) -> bool {
        true
    }

    open spec fn bitor_spec(self, rhs: Simd<u16, N>) -> Simd<u16, N> {
        lanewise_or(splatted::<u16, N>(*self), rhs)
    }
}

impl<'a, 'b, const N: usize> core::ops::BitOr<&'b Simd<u16, N>> for &'a u16 {
    type Output = Simd<u16, N>;

    /// Computes bitwise OR for the uniform scalar `self` and each element of `rhs`.
    fn bitor(self, rhs: &'b Simd<u16, N>) -> (r: Simd<u16, N>)
        ensures
            r == lanewise_or(splatted::<u16, N>(*self), *rhs),
    {
        core::ops::BitOr::bitor(Simd::<u16, N>::splat(*self), *rhs)
    }
}

impl<'a, 'b, const N: usize> BitOrSpecImpl<&'b Simd<u16, N>> for &'a u16 {
    open spec fn obeys_bitor_spec() -> bool {
        true
    }

    open spec fn bitor_req(self, rhs: &'b Simd<u16, N>) -> bool {
        true
    }

    open spec fn bitor_spec(self, rhs: &'b Simd<u16, N>) -> Simd<u16, N> {
        lanewise_or(splatted::<u16, N>(*self), *rhs)
    }
}

impl<const N: usize> core::ops::BitOr<Simd<u32, N>> for u32 {
    type Output = Simd<u32, N>;

    /// Computes bitwise OR for the uniform scalar `self` and each element of `rhs`.
    fn bitor(self, rhs: Simd<u32, N>) -> (r: Simd<u32, N>)
        ensures
            r == lanewise_or(splatted::<u32, N>(self), rhs),
    {
        core::ops::BitOr::bitor(Simd::<u32, N>::splat(self), rhs)
    }
}

impl<const N: usize> BitOrSpecImpl<Simd<u32, N>> for u32 {
    open spec fn obeys_bitor_spec() -> bool {
        true
    }

    open spec fn bitor_req(self, rhs: Simd<u32, N>) -> bool {
        true
    }

    open spec fn bitor_spec(self, rhs: Simd<u32, N>) -> Simd<u32, N> {
        lanewise_or(splatted::<u32, N>(self), rhs)
    }
}

impl<'a, const N: usize> core::ops::BitOr<&'a Simd<u32, N>> for u32 {
    type Output = Simd<u32, N>;

    /// Computes bitwise OR for the uniform scalar `self` and each element of `rhs`.
    fn bitor(self, rhs: &'a Simd<u32, N>) -> (r: Simd<u32, N>)
        ensures
            r == lanewise_or(splatted::<u32, N>(self), *rhs),
    {
        core::ops::BitOr::bitor(Simd::<u32, N>::splat(self), *rhs)
    }
}

impl<'a, const N: usize> BitOrSpecImpl<&'a Simd<u32, N>> for u32 {
    open spec fn obeys_bitor_spec() -> bool {
        true
    }

    open spec fn bitor_req(self, rhs: &'a Simd<u32, N>) -> bool {
        true
    }

    open spec fn bitor_spec(self, rhs: &'a Simd<u32, N>) -> Simd<u32, N> {
        lanewise_or(splatted::<u32, N>(self), *rhs)
    }
}

impl<'a, const N: usize> core::ops::BitOr<Simd<u32, N>> for &'a u32 {
    type Output = Simd<u32, N>;

    /// Computes bitwise OR for the uniform scalar `self` and each element of `rhs`.
    fn bitor(self, rhs: Simd<u32, N>) -> (r: Simd<u32, N>)
        ensures
            r == lanewise_or(splatted::<u32, N>(*self), rhs),
    {
        core::ops::BitOr::bitor(Simd::<u32, N>::splat(*self), rhs)
    }
}

impl<'a, const N: usize> BitOrSpecImpl<Simd<u32, N>> for &'a u32 {
    open spec fn obeys_bitor_spec() -> bool {
        true
    }

    open spec fn bitor_req(self, rhs: Simd<u32, N>) -> bool {
        true
    }

    open spec fn bitor_spec(self, rhs: Simd<u32, N>) -> Simd<u32, N> {
        lanewise_or(splatted::<u32, N>(*self), rhs)
    }
}

impl<'a, 'b, const N: usize> core::ops::BitOr<&'b Simd<u32, N>> for &'a u32 {
    type Output = Simd<u32, N>;

    /// Computes bitwise OR for the uniform scalar `self` and each element of `rhs`.
    fn bitor(self, rhs: &'b Simd<u32, N>) -> (r: Simd<u32, N>)
        ensures
            r == lanewise_or(splatted::<u32, N>(*self), *rhs),
    {
        core::ops::BitOr::bitor(Simd::<u32, N>::splat(*self), *rhs)
    }
}

impl<'a, 'b, const N: usize> BitOrSpecImpl<&'b Simd<u32, N>> for &'a u32 {
    open spec fn obeys_bitor_spec() -> bool {
        true
    }

    open spec fn bitor_req(self, rhs: &'b Simd<u32, N>) -> bool {
        true
    }

    open spec fn bitor_spec(self, rhs: &'b Simd<u32, N>) -> Simd<u32, N> {
        lanewise_or(splatted::<u32, N>(*self), *rhs)
    }
}

impl<const N: usize> core::ops::BitOr<Simd<u64, N>> for u64 {
    type Output = Simd<u64, N>;

    /// Computes bitwise OR for the uniform scalar `self` and each element of `rhs`.
    fn bitor(self, rhs: Simd<u64, N>) -> (r: Simd<u64, N>)
        ensures
            r == lanewise_or(splatted::<u64, N>(self), rhs),
    {
        core::ops::BitOr::bitor(Simd::<u64, N>::splat(self), rhs)
    }
}

impl<const N: usize> BitOrSpecImpl<Simd<u64, N>> for u64 {
    open spec fn obeys_bitor_spec() -> bool {
        true
    }

    open spec fn bitor_req(self, rhs: Simd<u64, N>) -> bool {
        true
    }

    open spec fn bitor_spec(self, rhs: Simd<u64, N>) -> Simd<u64, N> {
        lanewise_or(splatted::<u64, N>(self), rhs)
    }
}

impl<'a, const N: usize> core::ops::BitOr<&'a Simd<u64, N>> for u64 {
    type Output = Simd<u64, N>;

    /// Computes bitwise OR for the uniform scalar `self` and each element of `rhs`.
    fn bitor(self, rhs: &'a Simd<u64, N>) -> (r: Simd<u64, N>)
        ensures
            r == lanewise_or(splatted::<u64, N>(self), *rhs),
    {
        core::ops::BitOr::bitor(Simd::<u64, N>::splat(self), *rhs)
    }
}

impl<'a, const N: usize> BitOrSpecImpl<&'a Simd<u64, N>> for u64 {
    open spec fn obeys_bitor_spec() -> bool {
        true
    }

    open spec fn bitor_req(self, rhs: &'a Simd<u64, N>) -> bool {
        true
    }

    open spec fn bitor_spec(self, rhs: &'a Simd<u64, N>) -> Simd<u64, N> {
        lanewise_or(splatted::<u64, N>(self), *rhs)
    }
}

impl<'a, const N: usize> core::ops::BitOr<Simd<u64, N>> for &'a u64 {
    type Output = Simd<u64, N>;

    /// Computes bitwise OR for the uniform scalar `self` and each element of `rhs`.
    fn bitor(self, rhs: Simd<u64, N>) -> (r: Simd<u64, N>)
        ensures
            r == lanewise_or(splatted::<u64, N>(*self), rhs),
    {
        core::ops::BitOr::bitor(Simd::<u64, N>::splat(*self), rhs)
    }
}

impl<'a, const N: usize> BitOrSpecImpl<Simd<u64, N>> for &'a u64 {
    open spec fn obeys_bitor_spec() -> bool {
        true
    }

    open spec fn bitor_req(self, rhs: Simd<u64, N>) -> bool {
        true
    }

    open spec fn bitor_spec(self, rhs: Simd<u64, N>) -> Simd<u64, N> {
        lanewise_or(splatted::<u64, N>(*self), rhs)
    }
}

impl<'a, 'b, const N: usize> core::ops::BitOr<&'b Simd<u64, N>> for &'a u64 {
    type Output = Simd<u64, N>;

    /// Computes bitwise OR for the uniform scalar `self` and each element of `rhs`.
    fn bitor(self, rhs: &'b Simd<u64, N>) -> (r: Simd<u64, N>)
        ensures
            r == lanewise_or(splatted::<u64, N>(*self), *rhs),
    {
        core::ops::BitOr::bitor(Simd::<u64, N>::splat(*self), *rhs)
    }
}

impl<'a, 'b, const N: usize> BitOrSpecImpl<&'b Simd<u64, N>> for &'a u64 {
    open spec fn obeys_bitor_spec() -> bool {
        true
    }

    open spec fn bitor_req(self, rhs: &'b Simd<u64, N>) -> bool {
        true
    }

    open spec fn bitor_spec(self, rhs: &'b Simd<u64, N>) -> Simd<u64, N> {
        lanewise_or(splatted::<u64, N>(*self), *rhs)
    }
}

impl<const N: usize> core::ops::BitOr<Simd<i8, N>> for i8 {
    type Output = Simd<i8, N>;

    /// Computes bitwise OR for the uniform scalar `self` and each element of `rhs`.
    fn bitor(self, rhs: Simd<i8, N>) -> (r: Simd<i8, N>)
        ensures
            r == lanewise_or(splatted::<i8, N>(self), rhs),
    {
        core::ops::BitOr::bitor(Simd::<i8, N>::splat(self), rhs)
    }
}

impl<const N: usize> BitOrSpecImpl<Simd<i8, N>> for i8 {
    open spec fn obeys_bitor_spec() -> bool {
        true
    }

    open spec fn bitor_req(self, rhs: Simd<i8, N>) -> bool {
        true
    }

    open spec fn bitor_spec(self, rhs: Simd<i8, N>) -> Simd<i8, N> {
        lanewise_or(splatted::<i8, N>(self), rhs)
    }
}

impl<'a, const N: usize> core::ops::BitOr<&'a Simd<i8, N>> for i8 {
    type Output = Simd<i8, N>;

    /// Computes bitwise OR for the uniform scalar `self` and each element of `rhs`.
    fn bitor(self, rhs: &'a Simd<i8, N>) -> (r: Simd<i8, N>)
        ensures
            r == lanewise_or(splatted::<i8, N>(self), *rhs),
    {
        core::ops::BitOr::bitor(Simd::<i8, N>::splat(self), *rhs)
    }
}

impl<'a, const N: usize> BitOrSpecImpl<&'a Simd<i8, N>> for i8 {
    open spec fn obeys_bitor_spec() -> bool {
        true
    }

    open spec fn bitor_req(self, rhs: &'a Simd<i8, N>) -> bool {
        true
    }

    open spec fn bitor_spec(self, rhs: &'a Simd<i8, N>) -> Simd<i8, N> {
        lanewise_or(splatted::<i8, N>(self), *rhs)
    }
}

impl<'a, const N: usize> core::ops::BitOr<Simd<i8, N>> for &'a i8 {
    type Output = Simd<i8, N>;

    /// Computes bitwise OR for the uniform scalar `self` and each element of `rhs`.
    fn bitor(self, rhs: Simd<i8, N>) -> (r: Simd<i8, N>)
        ensures
            r == lanewise_or(splatted::<i8, N>(*self), rhs),
    {
        core::ops::BitOr::bitor(Simd::<i8, N>::splat(*self), rhs)
    }
}

impl<'a, const N: usize> BitOrSpecImpl<Simd<i8, N>> for &'a i8 {
    open spec fn obeys_bitor_spec() -> bool {
        true
    }

    open spec fn bitor_req(self, rhs: Simd<i8, N>) -> bool {
        true
    }

    open spec fn bitor_spec(self, rhs: Simd<i8, N>) -> Simd<i8, N> {
        lanewise_or(splatted::<i8, N>(*self), rhs)
    }
}

impl<'a, 'b, const N: usize> core::ops::BitOr<&'b Simd<i8, N>> for &'a i8 {
    type Output = Simd<i8, N>;

    /// Computes bitwise OR for the uniform scalar `self` and each element of `rhs`.
    fn bitor(self, rhs: &'b Simd<i8, N>) -> (r: Simd<i8, N>)
        ensures
            r == lanewise_or(splatted::<i8, N>(*self), *rhs),
    {
        core::ops::BitOr::bitor(Simd::<i8, N>::splat(*self), *rhs)
    }
}

impl<'a, 'b, const N: usize> BitOrSpecImpl<&'b Simd<i8, N>> for &'a i8 {
    open spec fn obeys_bitor_spec() -> bool {
        true
    }

    open spec fn bitor_req(self, rhs: &'b Simd<i8, N>) -> bool {
        true
    }

    open spec fn bitor_spec(self, rhs: &'b Simd<i8, N>) -> Simd<i8, N> {
        lanewise_or(splatted::<i8, N>(*self), *rhs)
    }
}

impl<const N: usize> core::ops::BitOr<Simd<i16, N>> for i16 {
    type Output = Simd<i16, N>;

    /// Computes bitwise OR for the uniform scalar `self` and each element of `rhs`.
    fn bitor(self, rhs: Simd<i16, N>) -> (r: Simd<i16, N>)
        ensures
            r == lanewise_or(splatted::<i16, N>(self), rhs),
    {
        core::ops::BitOr::bitor(Simd::<i16, N>::splat(self), rhs)
    }
}

impl<const N: usize> BitOrSpecImpl<Simd<i16, N>> for i16 {
    open spec fn obeys_bitor_spec() -> bool {
        true
    }

    open spec fn bitor_req(self, rhs: Simd<i16, N>) -> bool {
        true
    }

    open spec fn bitor_spec(self, rhs: Simd<i16, N>) -> Simd<i16, N> {
        lanewise_or(splatted::<i16, N>(self), rhs)
    }
}

impl<'a, const N: usize> core::ops::BitOr<&'a Simd<i16, N>> for i16 {
    type Output = Simd<i16, N>;

    /// Computes bitwise OR for the uniform scalar `self` and each element of `rhs`.
    fn bitor(self, rhs: &'a Simd<i16, N>) -> (r: Simd<i16, N>)
        ensures
            r == lanewise_or(splatted::<i16, N>(self), *rhs),
    {
        core::ops::BitOr::bitor(Simd::<i16, N>::splat(self), *rhs)
    }
}

impl<'a, const N: usize> BitOrSpecImpl<&'a Simd<i16, N>> for i16 {
    open spec fn obeys_bitor_spec() -> bool {
        true
    }

    open spec fn bitor_req(self, rhs: &'a Simd<i16, N>) -> bool {
        true
    }

    open spec fn bitor_spec(self, rhs: &'a Simd<i16, N>) -> Simd<i16, N> {
        lanewise_or(splatted::<i16, N>(self), *rhs)
    }
}

impl<'a, const N: usize> core::ops::BitOr<Simd<i16, N>> for &'a i16 {
    type Output = Simd<i16, N>;

    /// Computes bitwise OR for the uniform scalar `self` and each element of `rhs`.
    fn bitor(self, rhs: Simd<i16, N>) -> (r: Simd<i16, N>)
        ensures
            r == lanewise_or(splatted::<i16, N>(*self), rhs),
    {
        core::ops::BitOr::bitor(Simd::<i16, N>::splat(*self), rhs)
    }
}

impl<'a, const N: usize> BitOrSpecImpl<Simd<i16, N>> for &'a i16 {
    open spec fn obeys_bitor_spec() -> bool {
        true
    }

    open spec fn bitor_req(self, rhs: Simd<i16, N>) -> bool {
        true
    }

    open spec fn bitor_spec(self, rhs: Simd<i16, N>) -> Simd<i16, N> {
        lanewise_or(splatted::<i16, N>(*self), rhs)
    }
}

impl<'a, 'b, const N: usize> core::ops::BitOr<&'b Simd<i16, N>> for &'a i16 {
    type Output = Simd<i16, N>;

    /// Computes bitwise OR for the uniform scalar `self` and each element of `rhs`.
    fn bitor(self, rhs: &'b Simd<i16, N>) -> (r: Simd<i16, N>)
        ensures
            r == lanewise_or(splatted::<i16, N>(*self), *rhs),
    {
        core::ops::BitOr::bitor(Simd::<i16, N>::splat(*self), *rhs)
    }
}

impl<'a, 'b, const N: usize> BitOrSpecImpl<&'b Simd<i16, N>> for &'a i16 {
    open spec fn obeys_bitor_spec() -> bool {
        true
    }

    open spec fn bitor_req(self, rhs: &'b Simd<i16, N>) -> bool {
        true
    }

    open spec fn bitor_spec(self, rhs: &'b Simd<i16, N>) -> Simd<i16, N> {
        lanewise_or(splatted::<i16, N>(*self), *rhs)
    }
}

impl<const N: usize> core::ops::BitOr<Simd<i32, N>> for i32 {
    type Output = Simd<i32, N>;

    /// Computes bitwise OR for the uniform scalar `self` and each element of `rhs`.
    fn bitor(self, rhs: Simd<i32, N>) -> (r: Simd<i32, N>)
        ensures
            r == lanewise_or(splatted::<i32, N>(self), rhs),
    {
        core::ops::BitOr::bitor(Simd::<i32, N>::splat(self), rhs)
    }
}

impl<const N: usize> BitOrSpecImpl<Simd<i32, N>> for i32 {
    open spec fn obeys_bitor_spec() -> bool {
        true
    }

    open spec fn bitor_req(self, rhs: Simd<i32, N>) -> bool {
        true
    }

    open spec fn bitor_spec(self, rhs: Simd<i32, N>) -> Simd<i32, N> {
        lanewise_or(splatted::<i32, N>(self), rhs)
    }
}

impl<'a, const N: usize> core::ops::BitOr<&'a Simd<i32, N>> for i32 {
    type Output = Simd<i32, N>;

    /// Computes bitwise OR for the uniform scalar `self` and each element of `rhs`.
    fn bitor(self, rhs: &'a Simd<i32, N>) -> (r: Simd<i32, N>)
        ensures
            r == lanewise_or(splatted::<i32, N>(self), *rhs),
    {
        core::ops::BitOr::bitor(Simd::<i32, N>::splat(self), *rhs)
    }
}

impl<'a, const N: usize> BitOrSpecImpl<&'a Simd<i32, N>> for i32 {
    open spec fn obeys_bitor_spec() -> bool {
        true
    }

    open spec fn bitor_req(self, rhs: &'a Simd<i32, N>) -> bool {
        true
    }

    open spec fn bitor_spec(self, rhs: &'a Simd<i32, N>) -> Simd<i32, N> {
        lanewise_or(splatted::<i32, N>(self), *rhs)
    }
}

impl<'a, const N: usize> core::ops::BitOr<Simd<i32, N>> for &'a i32 {
    type Output = Simd<i32, N>;

    /// Computes bitwise OR for the uniform scalar `self` and each element of `rhs`.
    fn bitor(self, rhs: Simd<i32, N>) -> (r: Simd<i32, N>)
        ensures
            r == lanewise_or(splatted::<i32, N>(*self), rhs),
    {
        core::ops::BitOr::bitor(Simd::<i32, N>::splat(*self), rhs)
    }
}

impl<'a, const N: usize> BitOrSpecImpl<Simd<i32, N>> for &'a i32 {
    open spec fn obeys_bitor_spec() -> bool {
        true
    }

    open spec fn bitor_req(self, rhs: Simd<i32, N>) -> bool {
        true
    }

    open spec fn bitor_spec(self, rhs: Simd<i32, N>) -> Simd<i32, N> {
        lanewise_or(splatted::<i32, N>(*self), rhs)
    }
}

impl<'a, 'b, const N: usize> core::ops::BitOr<&'b Simd<i32, N>> for &'a i32 {
    type Output = Simd<i32, N>;

    /// Computes bitwise OR for the uniform scalar `self` and each element of `rhs`.
    fn bitor(self, rhs: &'b Simd<i32, N>) -> (r: Simd<i32, N>)
        ensures
            r == lanewise_or(splatted::<i32, N>(*self), *rhs),
    {
        core::ops::BitOr::bitor(Simd::<i32, N>::splat(*self), *rhs)
    }
}

impl<'a, 'b, const N: usize> BitOrSpecImpl<&'b Simd<i32, N>> for &'a i32 {
    open spec fn obeys_bitor_spec() -> bool {
        true
    }

    open spec fn bitor_req(self, rhs: &'b Simd<i32, N>) -> bool {
        true
    }

    open spec fn bitor_spec(self, rhs: &'b Simd<i32, N>) -> Simd<i32, N> {
        lanewise_or(splatted::<i32, N>(*self), *rhs)
    }
}

impl<const N: usize> core::ops::BitOr<Simd<i64, N>> for i64 {
    type Output = Simd<i64, N>;

    /// Computes bitwise OR for the uniform scalar `self` and each element of `rhs`.
    fn bitor(self, rhs: Simd<i64, N>) -> (r: Simd<i64, N>)
        ensures
            r == lanewise_or(splatted::<i64, N>(self), rhs),
    {
        core::ops::BitOr::bitor(Simd::<i64, N>::splat(self), rhs)
    }
}

impl<const N: usize> BitOrSpecImpl<Simd<i64, N>> for i64 {
    open spec fn obeys_bitor_spec() -> bool {
        true
    }

    open spec fn bitor_req(self, rhs: Simd<i64, N>) -> bool {
        true
    }

    open spec fn bitor_spec(self, rhs: Simd<i64, N>) -> Simd<i64, N> {
        lanewise_or(splatted::<i64, N>(self), rhs)
    }
}

impl<'a, const N: usize> core::ops::BitOr<&'a Simd<i64, N>> for i64 {
    type Output = Simd<i64, N>;

    /// Computes bitwise OR for the uniform scalar `self` and each element of `rhs`.
    fn bitor(self, rhs: &'a Simd<i64, N>) -> (r: Simd<i64, N>)
        ensures
            r == lanewise_or(splatted::<i64, N>(self), *rhs),
    {
        core::ops::BitOr::bitor(Simd::<i64, N>::splat(self), *rhs)
    }
}

impl<'a, const N: usize> BitOrSpecImpl<&'a Simd<i64, N>> for i64 {
    open spec fn obeys_bitor_spec() -> bool {
        true
    }

    open spec fn bitor_req(self, rhs: &'a Simd<i64, N>) -> bool {
        true
    }

    open spec fn bitor_spec(self, rhs: &'a Simd<i64, N>) -> Simd<i64, N> {
        lanewise_or(splatted::<i64, N>(self), *rhs)
    }
}

impl<'a, const N: usize> core::ops::BitOr<Simd<i64, N>> for &'a i64 {
    type Output = Simd<i64, N>;

    /// Computes bitwise OR for the uniform scalar `self` and each element of `rhs`.
    fn bitor(self, rhs: Simd<i64, N>) -> (r: Simd<i64, N>)
        ensures
            r == lanewise_or(splatted::<i64, N>(*self), rhs),
    {
        core::ops::BitOr::bitor(Simd::<i64, N>::splat(*self), rhs)
    }
}

impl<'a, const N: usize> BitOrSpecImpl<Simd<i64, N>> for &'a i64 {
    open spec fn obeys_bitor_spec() -> bool {
        true
    }

    open spec fn bitor_req(self, rhs: Simd<i64, N>) -> bool {
        true
    }

    open spec fn bitor_spec(self, rhs: Simd<i64, N>) -> Simd<i64, N> {
        lanewise_or(splatted::<i64, N>(*self), rhs)
    }
}

impl<'a, 'b, const N: usize> core::ops::BitOr<&'b Simd<i64, N>> for &'a i64 {
    type Output = Simd<i64, N>;

    /// Computes bitwise OR for the uniform scalar `self` and each element of `rhs`.
    fn bitor(self, rhs: &'b Simd<i64, N>) -> (r: Simd<i64, N>)
        ensures
            r == lanewise_or(splatted::<i64, N>(*self), *rhs),
    {
        core::ops::BitOr::bitor(Simd::<i64, N>::splat(*self), *rhs)
    }
}

impl<'a, 'b, const N: usize> BitOrSpecImpl<&'b Simd<i64, N>> for &'a i64 {
    open spec fn obeys_bitor_spec() -> bool {
        true
    }

    open spec fn bitor_req(self, rhs: &'b Simd<i64, N>) -> bool {
        true
    }

    open spec fn bitor_spec(self, rhs: &'b Simd<i64, N>) -> Simd<i64, N> {
        lanewise_or(splatted::<i64, N>(*self), *rhs)
    }
}

impl<'a, T: SimdElement, const N: usize> core::ops::BitXor<&'a Simd<T, N>> for Simd<T, N> {
    type Output = Simd<T, N>;

    /// Computes bitwise XOR for each element of `self` and the corresponding element of `rhs`.
    fn bitxor(self, rhs: &'a Simd<T, N>) -> (r: Simd<T, N>)
        ensures
            r == lanewise_xor(self, *rhs),
    {
        core::ops::BitXor::bitxor(self, *rhs)
    }
}

impl<'a, T: SimdElement, const N: usize> BitXorSpecImpl<&'a Simd<T, N>> for Simd<T, N> {
    open spec fn obeys_bitxor_spec() -> bool {
        true
    }

    open spec fn bitxor_req(self, rhs: &'a Simd<T, N>) -> bool {
        true
    }

    open spec fn bitxor_spec(self, rhs: &'a Simd<T, N>) -> Simd<T, N> {
        lanewise_xor(self, *rhs)
    }
}

impl<'a, T: SimdElement, const N: usize> core::ops::BitXor<&'a T> for Simd<T, N> {
    type Output = Simd<T, N>;

    /// Computes bitwise XOR for each element of `self` and the uniform scalar `rhs`.
    fn bitxor(self, rhs: &'a T) -> (r: Simd<T, N>)
        ensures
            r == lanewise_xor(self, splatted::<T, N>(*rhs)),
    {
        core::ops::BitXor::bitxor(self, *rhs)
    }
}

impl<'a, T: SimdElement, const N: usize> BitXorSpecImpl<&'a T> for Simd<T, N> {
    open spec fn obeys_bitxor_spec() -> bool {
        true
    }

    open spec fn bitxor_req(self, rhs: &'a T) -> bool {
        true
    }

    open spec fn bitxor_spec(self, rhs: &'a T) -> Simd<T, N> {
        lanewise_xor(self, splatted::<T, N>(*rhs))
    }
}

impl<'a, T: SimdElement, const N: usize> core::ops::BitXor<Simd<T, N>> for &'a Simd<T, N> {
    type Output = Simd<T, N>;

    /// Computes bitwise XOR for each element of `self` and the corresponding element of `rhs`.
    fn bitxor(self, rhs: Simd<T, N>) -> (r: Simd<T, N>)
        ensures
            r == lanewise_xor(*self, rhs),
    {
        core::ops::BitXor::bitxor(*self, rhs)
    }
}

impl<'a, T: SimdElement, const N: usize> BitXorSpecImpl<Simd<T, N>> for &'a Simd<T, N> {
    open spec fn obeys_bitxor_spec() -> bool {
        true
    }

    open spec fn bitxor_req(self, rhs: Simd<T, N>) -> bool {
        true
    }

    open spec fn bitxor_spec(self, rhs: Simd<T, N>) -> Simd<T, N> {
        lanewise_xor(*self, rhs)
    }
}

impl<'a, T: SimdElement, const N: usize> core::ops::BitXor<T> for &'a Simd<T, N> {
    type Output = Simd<T, N>;

    /// Computes bitwise XOR for each element of `self` and the uniform scalar `rhs`.
    fn bitxor(self, rhs: T) -> (r: Simd<T, N>)
        ensures
            r == lanewise_xor(*self, splatted::<T, N>(rhs)),
    {
        core::ops::BitXor::bitxor(*self, rhs)
    }
}

impl<'a, T: SimdElement, const N: usize> BitXorSpecImpl<T> for &'a Simd<T, N> {
    open spec fn obeys_bitxor_spec() -> bool {
        true
    }

    open spec fn bitxor_req(self, rhs: T) -> bool {
        true
    }

    open spec fn bitxor_spec(self, rhs: T) -> Simd<T, N> {
        lanewise_xor(*self, splatted::<T, N>(rhs))
    }
}

impl<'a, 'b, T: SimdElement, const N: usize> core::ops::BitXor<&'b Simd<T, N>> for &'a Simd<T, N> {
    type Output = Simd<T, N>;

    /// Computes bitwise XOR for each element of `self` and the corresponding element of `rhs`.
    fn bitxor(self, rhs: &'b Simd<T, N>) -> (r: Simd<T, N>)
        ensures
            r == lanewise_xor(*self, *rhs),
    {
        core::ops::BitXor::bitxor(*self, *rhs)
    }
}

impl<'a, 'b, T: SimdElement, const N: usize> BitXorSpecImpl<&'b Simd<T, N>> for &'a Simd<T, N> {
    open spec fn obeys_bitxor_spec() -> bool {
        true
    }

    open spec fn bitxor_req(self, rhs: &'b Simd<T, N>) -> bool {
        true
    }

    open spec fn bitxor_spec(self, rhs: &'b Simd<T, N>) -> Simd<T, N> {
        lanewise_xor(*self, *rhs)
    }
}

impl<'a, 'b, T: SimdElement, const N: usize> core::ops::BitXor<&'b T> for &'a Simd<T, N> {
    type Output = Simd<T, N>;

    /// Computes bitwise XOR for each element of `self` and the uniform scalar `rhs`.
    fn bitxor(self, rhs: &'b T) -> (r: Simd<T, N>)
        ensures
            r == lanewise_xor(*self, splatted::<T, N>(*rhs)),
    {
        core::ops::BitXor::bitxor(*self, *rhs)
    }
}

impl<'a, 'b, T: SimdElement, const N: usize> BitXorSpecImpl<&'b T> for &'a Simd<T, N> {
    open spec fn obeys_bitxor_spec() -> bool {
        true
    }

    open spec fn bitxor_req(self, rhs: &'b T) -> bool {
        true
    }

    open spec fn bitxor_spec(self, rhs: &'b T) -> Simd<T, N> {
        lanewise_xor(*self, splatted::<T, N>(*rhs))
    }
}

impl<const N: usize> core::ops::BitXor<Simd<u8, N>> for u8 {
    type Output = Simd<u8, N>;

    /// Computes bitwise XOR for the uniform scalar `self` and each element of `rhs`.
    fn bitxor(self, rhs: Simd<u8, N>) -> (r: Simd<u8, N>)
        ensures
            r == lanewise_xor(splatted::<u8, N>(self), rhs),
    {
        core::ops::BitXor::bitxor(Simd::<u8, N>::splat(self), rhs)
    }
}

impl<const N: usize> BitXorSpecImpl<Simd<u8, N>> for u8 {
    open spec fn obeys_bitxor_spec() -> bool {
        true
    }

    open spec fn bitxor_req(self, rhs: Simd<u8, N>) -> bool {
        true
    }

    open spec fn bitxor_spec(self, rhs: Simd<u8, N>) -> Simd<u8, N> {
        lanewise_xor(splatted::<u8, N>(self), rhs)
    }
}

impl<'a, const N: usize> core::ops::BitXor<&'a Simd<u8, N>> for u8 {
    type Output = Simd<u8, N>;

    /// Computes bitwise XOR for the uniform scalar `self` and each element of `rhs`.
    fn bitxor(self, rhs: &'a Simd<u8, N>) -> (r: Simd<u8, N>)
        ensures
            r == lanewise_xor(splatted::<u8, N>(self), *rhs),
    {
        core::ops::BitXor::bitxor(Simd::<u8, N>::splat(self), *rhs)
    }
}

impl<'a, const N: usize> BitXorSpecImpl<&'a Simd<u8, N>> for u8 {
    open spec fn obeys_bitxor_spec() -> bool {
        true
    }

    open spec fn bitxor_req(self, rhs: &'a Simd<u8, N>) -> bool {
        true
    }

    open spec fn bitxor_spec(self, rhs: &'a Simd<u8, N>) -> Simd<u8, N> {
        lanewise_xor(splatted::<u8, N>(self), *rhs)
    }
}

impl<'a, const N: usize> core::ops::BitXor<Simd<u8, N>> for &'a u8 {
    type Output = Simd<u8, N>;

    /// Computes bitwise XOR for the uniform scalar `self` and each element of `rhs`.
    fn bitxor(self, rhs: Simd<u8, N>) -> (r: Simd<u8, N>)
        ensures
            r == lanewise_xor(splatted::<u8, N>(*self), rhs),
    {
        core::ops::BitXor::bitxor(Simd::<u8, N>::splat(*self), rhs)
    }
}

impl<'a, const N: usize> BitXorSpecImpl<Simd<u8, N>> for &'a u8 {
    open spec fn obeys_bitxor_spec() -> bool {
        true
    }

    open spec fn bitxor_req(self, rhs: Simd<u8, N>) -> bool {
        true
    }

    open spec fn bitxor_spec(self, rhs: Simd<u8, N>) -> Simd<u8, N> {
        lanewise_xor(splatted::<u8, N>(*self), rhs)
    }
}

impl<'a, 'b, const N: usize> core::ops::BitXor<&'b Simd<u8, N>> for &'a u8 {
    type Output = Simd<u8, N>;

    /// Computes bitwise XOR for the uniform scalar `self` and each element of `rhs`.
    fn bitxor(self, rhs: &'b Simd<u8, N>) -> (r: Simd<u8, N>)
        ensures
            r == lanewise_xor(splatted::<u8, N>(*self), *rhs),
    {
        core::ops::BitXor::bitxor(Simd::<u8, N>::splat(*self), *rhs)
    }
}

impl<'a, 'b, const N: usize> BitXorSpecImpl<&'b Simd<u8, N>> for &'a u8 {
    open spec fn obeys_bitxor_spec() -> bool {
        true
    }

    open spec fn bitxor_req(self, rhs: &'b Simd<u8, N>) -> bool {
        true
    }

    open spec fn bitxor_spec(self, rhs: &'b Simd<u8, N>) -> Simd<u8, N> {
        lanewise_xor(splatted::<u8, N>(*self), *rhs)
    }
}

impl<const N: usize> core::ops::BitXor<Simd<u16, N>> for u16 {
    type Output = Simd<u16, N>;

    /// Computes bitwise XOR for the uniform scalar `self` and each element of `rhs`.
    fn bitxor(self, rhs: Simd<u16, N>) -> (r: Simd<u16, N>)
        ensures
            r == lanewise_xor(splatted::<u16, N>(self), rhs),
    {
        core::ops::BitXor::bitxor(Simd::<u16, N>::splat(self), rhs)
    }
}

impl<const N: usize> BitXorSpecImpl<Simd<u16, N>> for u16 {
    open spec fn obeys_bitxor_spec() -> bool {
        true
    }

    open spec fn bitxor_req(self, rhs: Simd<u16, N>) -> bool {
        true
    }

    open spec fn bitxor_spec(self, rhs: Simd<u16, N>) -> Simd<u16, N> {
        lanewise_xor(splatted::<u16, N>(self), rhs)
    }
}

impl<'a, const N: usize> core::ops::BitXor<&'a Simd<u16, N>> for u16 {
    type Output = Simd<u16, N>;

    /// Computes bitwise XOR for the uniform scalar `self` and each element of `rhs`.
    fn bitxor(self, rhs: &'a Simd<u16, N>) -> (r: Simd<u16, N>)
        ensures
            r == lanewise_xor(splatted::<u16, N>(self), *rhs),
    {
        core::ops::BitXor::bitxor(Simd::<u16, N>::splat(self), *rhs)
    }
}

impl<'a, const N: usize> BitXorSpecImpl<&'a Simd<u16, N>> for u16 {
    open spec fn obeys_bitxor_spec() -> bool {
        true
    }

    open spec fn bitxor_req(self, rhs: &'a Simd<u16, N>) -> bool {
        true
    }

    open spec fn bitxor_spec(self, rhs: &'a Simd<u16, N>) -> Simd<u16, N> {
        lanewise_xor(splatted::<u16, N>(self), *rhs)
    }
}

impl<'a, const N: usize> core::ops::BitXor<Simd<u16, N>> for &'a u16 {
    type Output = Simd<u16, N>;

    /// Computes bitwise XOR for the uniform scalar `self` and each element of `rhs`.
    fn bitxor(self, rhs: Simd<u16, N>) -> (r: Simd<u16, N>)
        ensures
            r == lanewise_xor(splatted::<u16, N>(*self), rhs),
    {
        core::ops::BitXor::bitxor(Simd::<u16, N>::splat(*self), rhs)
    }
}

impl<'a, const N: usize> BitXorSpecImpl<Simd<u16, N>> for &'a u16 {
    open spec fn obeys_bitxor_spec() -> bool {
        true
    }

    open spec fn bitxor_req(self, rhs: Simd<u16, N>) -> bool {
        true
    }

    open spec fn bitxor_spec(self, rhs: Simd<u16, N>) -> Simd<u16, N> {
        lanewise_xor(splatted::<u16, N>(*self), rhs)
    }
}

impl<'a, 'b, const N: usize> core::ops::BitXor<&'b Simd<u16, N>> for &'a u16 {
    type Output = Simd<u16, N>;

    /// Computes bitwise XOR for the uniform scalar `self` and each element of `rhs`.
    fn bitxor(self, rhs: &'b Simd<u16, N>) -> (r: Simd<u16, N>)
        ensures
            r == lanewise_xor(splatted::<u16, N>(*self), *rhs),
    {
        core::ops::BitXor::bitxor(Simd::<u16, N>::splat(*self), *rhs)
    }
}

impl<'a, 'b, const N: usize> BitXorSpecImpl<&'b Simd<u16, N>> for &'a u16 {
    open spec fn obeys_bitxor_spec() -> bool {
        true
    }

    open spec fn bitxor_req(self, rhs: &'b Simd<u16, N>) -> bool {
        true
    }

    open spec fn bitxor_spec(self, rhs: &'b Simd<u16, N>) -> Simd<u16, N> {
        lanewise_xor(splatted::<u16, N>(*self), *rhs)
    }
}

impl<const N: usize> core::ops::BitXor<Simd<u32, N>> for u32 {
    type Output = Simd<u32, N>;

    /// Computes bitwise XOR for the uniform scalar `self` and each element of `rhs`.
    fn bitxor(self, rhs: Simd<u32, N>) -> (r: Simd<u32, N>)
        ensures
            r == lanewise_xor(splatted::<u32, N>(self), rhs),
    {
        core::ops::BitXor::bitxor(Simd::<u32, N>::splat(self), rhs)
    }
}

impl<const N: usize> BitXorSpecImpl<Simd<u32, N>> for u32 {
    open spec fn obeys_bitxor_spec() -> bool {
        true
    }

    open spec fn bitxor_req(self, rhs: Simd<u32, N>) -> bool {
        true
    }

    open spec fn bitxor_spec(self, rhs: Simd<u32, N>) -> Simd<u32, N> {
        lanewise_xor(splatted::<u32, N>(self), rhs)
    }
}

impl<'a, const N: usize> core::ops::BitXor<&'a Simd<u32, N>> for u32 {
    type Output = Simd<u32, N>;

    /// Computes bitwise XOR for the uniform scalar `self` and each element of `rhs`.
    fn bitxor(self, rhs: &'a Simd<u32, N>) -> (r: Simd<u32, N>)
        ensures
            r == lanewise_xor(splatted::<u32, N>(self), *rhs),
    {
        core::ops::BitXor::bitxor(Simd::<u32, N>::splat(self), *rhs)
    }
}

impl<'a, const N: usize> BitXorSpecImpl<&'a Simd<u32, N>> for u32 {
    open spec fn obeys_bitxor_spec() -> bool {
        true
    }

    open spec fn bitxor_req(self, rhs: &'a Simd<u32, N>) -> bool {
        true
    }

    open spec fn bitxor_spec(self, rhs: &'a Simd<u32, N>) -> Simd<u32, N> {
        lanewise_xor(splatted::<u32, N>(self), *rhs)
    }
}

impl<'a, const N: usize> core::ops::BitXor<Simd<u32, N>> for &'a u32 {
    type Output = Simd<u32, N>;

    /// Computes bitwise XOR for the uniform scalar `self` and each element of `rhs`.
    fn bitxor(self, rhs: Simd<u32, N>) -> (r: Simd<u32, N>)
        ensures
            r == lanewise_xor(splatted::<u32, N>(*self), rhs),
    {
        core::ops::BitXor::bitxor(Simd::<u32, N>::splat(*self), rhs)
    }
}

impl<'a, const N: usize> BitXorSpecImpl<Simd<u32, N>> for &'a u32 {
    open spec fn obeys_bitxor_spec() -> bool {
        true
    }

    open spec fn bitxor_req(self, rhs: Simd<u32, N>) -> bool {
        true
    }

    open spec fn bitxor_spec(self, rhs: Simd<u32, N>) -> Simd<u32, N> {
        lanewise_xor(splatted::<u32, N>(*self), rhs)
    }
}

impl<'a, 'b, const N: usize> core::ops::BitXor<&'b Simd<u32, N>> for &'a u32 {
    type Output = Simd<u32, N>;

    /// Computes bitwise XOR for the uniform scalar `self` and each element of `rhs`.
    fn bitxor(self, rhs: &'b Simd<u32, N>) -> (r: Simd<u32, N>)
        ensures
            r == lanewise_xor(splatted::<u32, N>(*self), *rhs),
    {
        core::ops::BitXor::bitxor(Simd::<u32, N>::splat(*self), *rhs)
    }
}

impl<'a, 'b, const N: usize> BitXorSpecImpl<&'b Simd<u32, N>> for &'a u32 {
    open spec fn obeys_bitxor_spec() -> bool {
        true
    }

    open spec fn bitxor_req(self, rhs: &'b Simd<u32, N>) -> bool {
        true
    }

    open spec fn bitxor_spec(self, rhs: &'b Simd<u32, N>) -> Simd<u32, N> {
        lanewise_xor(splatted::<u32, N>(*self), *rhs)
    }
}

impl<const N: usize> core::ops::BitXor<Simd<u64, N>> for u64 {
    type Output = Simd<u64, N>;

    /// Computes bitwise XOR for the uniform scalar `self` and each element of `rhs`.
    fn bitxor(self, rhs: Simd<u64, N>) -> (r: Simd<u64, N>)
        ensures
            r == lanewise_xor(splatted::<u64, N>(self), rhs),
    {
        core::ops::BitXor::bitxor(Simd::<u64, N>::splat(self), rhs)
    }
}

impl<const N: usize> BitXorSpecImpl<Simd<u64, N>> for u64 {
    open spec fn obeys_bitxor_spec() -> bool {
        true
    }

    open spec fn bitxor_req(self, rhs: Simd<u64, N>) -> bool {
        true
    }

    open spec fn bitxor_spec(self, rhs: Simd<u64, N>) -> Simd<u64, N> {
        lanewise_xor(splatted::<u64, N>(self), rhs)
    }
}

impl<'a, const N: usize> core::ops::BitXor<&'a Simd<u64, N>> for u64 {
    type Output = Simd<u64, N>;

    /// Computes bitwise XOR for the uniform scalar `self` and each element of `rhs`.
    fn bitxor(self, rhs: &'a Simd<u64, N>) -> (r: Simd<u64, N>)
        ensures
            r == lanewise_xor(splatted::<u64, N>(self), *rhs),
    {
        core::ops::BitXor::bitxor(Simd::<u64, N>::splat(self), *rhs)
    }
}

impl<'a, const N: usize> BitXorSpecImpl<&'a Simd<u64, N>> for u64 {
    open spec fn obeys_bitxor_spec() -> bool {
        true
    }

    open spec fn bitxor_req(self, rhs: &'a Simd<u64, N>) -> bool {
        true
    }

    open spec fn bitxor_spec(self, rhs: &'a Simd<u64, N>) -> Simd<u64, N> {
        lanewise_xor(splatted::<u64, N>(self), *rhs)
    }
}

impl<'a, const N: usize> core::ops::BitXor<Simd<u64, N>> for &'a u64 {
    type Output = Simd<u64, N>;

    /// Computes bitwise XOR for the uniform scalar `self` and each element of `rhs`.
    fn bitxor(self, rhs: Simd<u64, N>) -> (r: Simd<u64, N>)
        ensures
            r == lanewise_xor(splatted::<u64, N>(*self), rhs),
    {
        core::ops::BitXor::bitxor(Simd::<u64, N>::splat(*self), rhs)
    }
}

impl<'a, const N: usize> BitXorSpecImpl<Simd<u64, N>> for &'a u64 {
    open spec fn obeys_bitxor_spec() -> bool {
        true
    }

    open spec fn bitxor_req(self, rhs: Simd<u64, N>) -> bool {
        true
    }

    open spec fn bitxor_spec(self, rhs: Simd<u64, N>) -> Simd<u64, N> {
        lanewise_xor(splatted::<u64, N>(*self), rhs)
    }
}

impl<'a, 'b, const N: usize> core::ops::BitXor<&'b Simd<u64, N>> for &'a u64 {
    type Output = Simd<u64, N>;

    /// Computes bitwise XOR for the uniform scalar `self` and each element of `rhs`.
    fn bitxor(self, rhs: &'b Simd<u64, N>) -> (r: Simd<u64, N>)
        ensures
            r == lanewise_xor(splatted::<u64, N>(*self), *rhs),
    {
        core::ops::BitXor::bitxor(Simd::<u64, N>::splat(*self), *rhs)
    }
}

impl<'a, 'b, const N: usize> BitXorSpecImpl<&'b Simd<u64, N>> for &'a u64 {
    open spec fn obeys_bitxor_spec() -> bool {
        true
    }

    open spec fn bitxor_req(self, rhs: &'b Simd<u64, N>) -> bool {
        true
    }

    open spec fn bitxor_spec(self, rhs: &'b Simd<u64, N>) -> Simd<u64, N> {
        lanewise_xor(splatted::<u64, N>(*self), *rhs)
    }
}

impl<const N: usize> core::ops::BitXor<Simd<i8, N>> for i8 {
    type Output = Simd<i8, N>;

    /// Computes bitwise XOR for the uniform scalar `self` and each element of `rhs`.
    fn bitxor(self, rhs: Simd<i8, N>) -> (r: Simd<i8, N>)
        ensures
            r == lanewise_xor(splatted::<i8, N>(self), rhs),
    {
        core::ops::BitXor::bitxor(Simd::<i8, N>::splat(self), rhs)
    }
}

impl<const N: usize> BitXorSpecImpl<Simd<i8, N>> for i8 {
    open spec fn obeys_bitxor_spec() -> bool {
        true
    }

    open spec fn bitxor_req(self, rhs: Simd<i8, N>) -> bool {
        true
    }

    open spec fn bitxor_spec(self, rhs: Simd<i8, N>) -> Simd<i8, N> {
        lanewise_xor(splatted::<i8, N>(self), rhs)
    }
}

impl<'a, const N: usize> core::ops::BitXor<&'a Simd<i8, N>> for i8 {
    type Output = Simd<i8, N>;

    /// Computes bitwise XOR for the uniform scalar `self` and each element of `rhs`.
    fn bitxor(self, rhs: &'a Simd<i8, N>) -> (r: Simd<i8, N>)
        ensures
            r == lanewise_xor(splatted::<i8, N>(self), *rhs),
    {
        core::ops::BitXor::bitxor(Simd::<i8, N>::splat(self), *rhs)
    }
}

impl<'a, const N: usize> BitXorSpecImpl<&'a Simd<i8, N>> for i8 {
    open spec fn obeys_bitxor_spec() -> bool {
        true
    }

    open spec fn bitxor_req(self, rhs: &'a Simd<i8, N>) -> bool {
        true
    }

    open spec fn bitxor_spec(self, rhs: &'a Simd<i8, N>) -> Simd<i8, N> {
        lanewise_xor(splatted::<i8, N>(self), *rhs)
    }
}

impl<'a, const N: usize> core::ops::BitXor<Simd<i8, N>> for &'a i8 {
    type Output = Simd<i8, N>;

    /// Computes bitwise XOR for the uniform scalar `self` and each element of `rhs`.
    fn bitxor(self, rhs: Simd<i8, N>) -> (r: Simd<i8, N>)
        ensures
            r == lanewise_xor(splatted::<i8, N>(*self), rhs),
    {
        core::ops::BitXor::bitxor(Simd::<i8, N>::splat(*self), rhs)
    }
}

impl<'a, const N: usize> BitXorSpecImpl<Simd<i8, N>> for &'a i8 {
    open spec fn obeys_bitxor_spec() -> bool {
        true
    }

    open spec fn bitxor_req(self, rhs: Simd<i8, N>) -> bool {
        true
    }

    open spec fn bitxor_spec(self, rhs: Simd<i8, N>) -> Simd<i8, N> {
        lanewise_xor(splatted::<i8, N>(*self), rhs)
    }
}

impl<'a, 'b, const N: usize> core::ops::BitXor<&'b Simd<i8, N>> for &'a i8 {
    type Output = Simd<i8, N>;

    /// Computes bitwise XOR for the uniform scalar `self` and each element of `rhs`.
    fn bitxor(self, rhs: &'b Simd<i8, N>) -> (r: Simd<i8, N>)
        ensures
            r == lanewise_xor(splatted::<i8, N>(*self), *rhs),
    {
        core::ops::BitXor::bitxor(Simd::<i8, N>::splat(*self), *rhs)
    }
}

impl<'a, 'b, const N: usize> BitXorSpecImpl<&'b Simd<i8, N>> for &'a i8 {
    open spec fn obeys_bitxor_spec() -> bool {
        true
    }

    open spec fn bitxor_req(self, rhs: &'b Simd<i8, N>) -> bool {
        true
    }

    open spec fn bitxor_spec(self, rhs: &'b Simd<i8, N>) -> Simd<i8, N> {
        lanewise_xor(splatted::<i8, N>(*self), *rhs)
    }
}

impl<const N: usize> core::ops::BitXor<Simd<i16, N>> for i16 {
    type Output = Simd<i16, N>;

    /// Computes bitwise XOR for the uniform scalar `self` and each element of `rhs`.
    fn bitxor(self, rhs: Simd<i16, N>) -> (r: Simd<i16, N>)
        ensures
            r == lanewise_xor(splatted::<i16, N>(self), rhs),
    {
        core::ops::BitXor::bitxor(Simd::<i16, N>::splat(self), rhs)
    }
}

impl<const N: usize> BitXorSpecImpl<Simd<i16, N>> for i16 {
    open spec fn obeys_bitxor_spec() -> bool {
        true
    }

    open spec fn bitxor_req(self, rhs: Simd<i16, N>) -> bool {
        true
    }

    open spec fn bitxor_spec(self, rhs: Simd<i16, N>) -> Simd<i16, N> {
        lanewise_xor(splatted::<i16, N>(self), rhs)
    }
}

impl<'a, const N: usize> core::ops::BitXor<&'a Simd<i16, N>> for i16 {
    type Output = Simd<i16, N>;

    /// Computes bitwise XOR for the uniform scalar `self` and each element of `rhs`.
    fn bitxor(self, rhs: &'a Simd<i16, N>) -> (r: Simd<i16, N>)
        ensures
            r == lanewise_xor(splatted::<i16, N>(self), *rhs),
    {
        core::ops::BitXor::bitxor(Simd::<i16, N>::splat(self), *rhs)
    }
}

impl<'a, const N: usize> BitXorSpecImpl<&'a Simd<i16, N>> for i16 {
    open spec fn obeys_bitxor_spec() -> bool {
        true
    }

    open spec fn bitxor_req(self, rhs: &'a Simd<i16, N>) -> bool {
        true
    }

    open spec fn bitxor_spec(self, rhs: &'a Simd<i16, N>) -> Simd<i16, N> {
        lanewise_xor(splatted::<i16, N>(self), *rhs)
    }
}

impl<'a, const N: usize> core::ops::BitXor<Simd<i16, N>> for &'a i16 {
    type Output = Simd<i16, N>;

    /// Computes bitwise XOR for the uniform scalar `self` and each element of `rhs`.
    fn bitxor(self, rhs: Simd<i16, N>) -> (r: Simd<i16, N>)
        ensures
            r == lanewise_xor(splatted::<i16, N>(*self), rhs),
    {
        core::ops::BitXor::bitxor(Simd::<i16, N>::splat(*self), rhs)
    }
}

impl<'a, const N: usize> BitXorSpecImpl<Simd<i16, N>> for &'a i16 {
    open spec fn obeys_bitxor_spec() -> bool {
        true
    }

    open spec fn bitxor_req(self, rhs: Simd<i16, N>) -> bool {
        true
    }

    open spec fn bitxor_spec(self, rhs: Simd<i16, N>) -> Simd<i16, N> {
        lanewise_xor(splatted::<i16, N>(*self), rhs)
    }
}

impl<'a, 'b, const N: usize> core::ops::BitXor<&'b Simd<i16, N>> for &'a i16 {
    type Output = Simd<i16, N>;

    /// Computes bitwise XOR for the uniform scalar `self` and each element of `rhs`.
    fn bitxor(self, rhs: &'b Simd<i16, N>) -> (r: Simd<i16, N>)
        ensures
            r == lanewise_xor(splatted::<i16, N>(*self), *rhs),
    {
        core::ops::BitXor::bitxor(Simd::<i16, N>::splat(*self), *rhs)
    }
}

impl<'a, 'b, const N: usize> BitXorSpecImpl<&'b Simd<i16, N>> for &'a i16 {
    open spec fn obeys_bitxor_spec() -> bool {
        true
    }

    open spec fn bitxor_req(self, rhs: &'b Simd<i16, N>) -> bool {
        true
    }

    open spec fn bitxor_spec(self, rhs: &'b Simd<i16, N>) -> Simd<i16, N> {
        lanewise_xor(splatted::<i16, N>(*self), *rhs)
    }
}

impl<const N: usize> core::ops::BitXor<Simd<i32, N>> for i32 {
    type Output = Simd<i32, N>;

    /// Computes bitwise XOR for the uniform scalar `self` and each element of `rhs`.
    fn bitxor(self, rhs: Simd<i32, N>) -> (r: Simd<i32, N>)
        ensures
            r == lanewise_xor(splatted::<i32, N>(self), rhs),
    {
        core::ops::BitXor::bitxor(Simd::<i32, N>::splat(self), rhs)
    }
}

impl<const N: usize> BitXorSpecImpl<Simd<i32, N>> for i32 {
    open spec fn obeys_bitxor_spec() -> bool {
        true
    }

    open spec fn bitxor_req(self, rhs: Simd<i32, N>) -> bool {
        true
    }

    open spec fn bitxor_spec(self, rhs: Simd<i32, N>) -> Simd<i32, N> {
        lanewise_xor(splatted::<i32, N>(self), rhs)
    }
}

impl<'a, const N: usize> core::ops::BitXor<&'a Simd<i32, N>> for i32 {
    type Output = Simd<i32, N>;

    /// Computes bitwise XOR for the uniform scalar `self` and each element of `rhs`.
    fn bitxor(self, rhs: &'a Simd<i32, N>) -> (r: Simd<i32, N>)
        ensures
            r == lanewise_xor(splatted::<i32, N>(self), *rhs),
    {
        core::ops::BitXor::bitxor(Simd::<i32, N>::splat(self), *rhs)
    }
}

impl<'a, const N: usize> BitXorSpecImpl<&'a Simd<i32, N>> for i32 {
    open spec fn obeys_bitxor_spec() -> bool {
        true
    }

    open spec fn bitxor_req(self, rhs: &'a Simd<i32, N>) -> bool {
        true
    }

    open spec fn bitxor_spec(self, rhs: &'a Simd<i32, N>) -> Simd<i32, N> {
        lanewise_xor(splatted::<i32, N>(self), *rhs)
    }
}

impl<'a, const N: usize> core::ops::BitXor<Simd<i32, N>> for &'a i32 {
    type Output = Simd<i32, N>;

    /// Computes bitwise XOR for the uniform scalar `self` and each element of `rhs`.
    fn bitxor(self, rhs: Simd<i32, N>) -> (r: Simd<i32, N>)
        ensures
            r == lanewise_xor(splatted::<i32, N>(*self), rhs),
    {
        core::ops::BitXor::bitxor(Simd::<i32, N>::splat(*self), rhs)
    }
}

impl<'a, const N: usize> BitXorSpecImpl<Simd<i32, N>> for &'a i32 {
    open spec fn obeys_bitxor_spec() -> bool {
        true
    }

    open spec fn bitxor_req(self, rhs: Simd<i32, N>) -> bool {
        true
    }

    open spec fn bitxor_spec(self, rhs: Simd<i32, N>) -> Simd<i32, N> {
        lanewise_xor(splatted::<i32, N>(*self), rhs)
    }
}

impl<'a, 'b, const N: usize> core::ops::BitXor<&'b Simd<i32, N>> for &'a i32 {
    type Output = Simd<i32, N>;

    /// Computes bitwise XOR for the uniform scalar `self` and each element of `rhs`.
    fn bitxor(self, rhs: &'b Simd<i32, N>) -> (r: Simd<i32, N>)
        ensures
            r == lanewise_xor(splatted::<i32, N>(*self), *rhs),
    {
        core::ops::BitXor::bitxor(Simd::<i32, N>::splat(*self), *rhs)
    }
}

impl<'a, 'b, const N: usize> BitXorSpecImpl<&'b Simd<i32, N>> for &'a i32 {
    open spec fn obeys_bitxor_spec() -> bool {
        true
    }

    open spec fn bitxor_req(self, rhs: &'b Simd<i32, N>) -> bool {
        true
    }

    open spec fn bitxor_spec(self, rhs: &'b Simd<i32, N>) -> Simd<i32, N> {
        lanewise_xor(splatted::<i32, N>(*self), *rhs)
    }
}

impl<const N: usize> core::ops::BitXor<Simd<i64, N>> for i64 {
    type Output = Simd<i64, N>;

    /// Computes bitwise XOR for the uniform scalar `self` and each element of `rhs`.
    fn bitxor(self, rhs: Simd<i64, N>) -> (r: Simd<i64, N>)
        ensures
            r == lanewise_xor(splatted::<i64, N>(self), rhs),
    {
        core::ops::BitXor::bitxor(Simd::<i64, N>::splat(self), rhs)
    }
}

impl<const N: usize> BitXorSpecImpl<Simd<i64, N>> for i64 {
    open spec fn obeys_bitxor_spec() -> bool {
        true
    }

    open spec fn bitxor_req(self, rhs: Simd<i64, N>) -> bool {
        true
    }

    open spec fn bitxor_spec(self, rhs: Simd<i64, N>) -> Simd<i64, N> {
        lanewise_xor(splatted::<i64, N>(self), rhs)
    }
}

impl<'a, const N: usize> core::ops::BitXor<&'a Simd<i64, N>> for i64 {
    type Output = Simd<i64, N>;

    /// Computes bitwise XOR for the uniform scalar `self` and each element of `rhs`.
    fn bitxor(self, rhs: &'a Simd<i64, N>) -> (r: Simd<i64, N>)
        ensures
            r == lanewise_xor(splatted::<i64, N>(self), *rhs),
    {
        core::ops::BitXor::bitxor(Simd::<i64, N>::splat(self), *rhs)
    }
}

impl<'a, const N: usize> BitXorSpecImpl<&'a Simd<i64, N>> for i64 {
    open spec fn obeys_bitxor_spec() -> bool {
        true
    }

    open spec fn bitxor_req(self, rhs: &'a Simd<i64, N>) -> bool {
        true
    }

    open spec fn bitxor_spec(self, rhs: &'a Simd<i64, N>) -> Simd<i64, N> {
        lanewise_xor(splatted::<i64, N>(self), *rhs)
    }
}

impl<'a, const N: usize> core::ops::BitXor<Simd<i64, N>> for &'a i64 {
    type Output = Simd<i64, N>;

    /// Computes bitwise XOR for the uniform scalar `self` and each element of `rhs`.
    fn bitxor(self, rhs: Simd<i64, N>) -> (r: Simd<i64, N>)
        ensures
            r == lanewise_xor(splatted::<i64, N>(*self), rhs),
    {
        core::ops::BitXor::bitxor(Simd::<i64, N>::splat(*self), rhs)
    }
}

impl<'a, const N: usize> BitXorSpecImpl<Simd<i64, N>> for &'a i64 {
    open spec fn obeys_bitxor_spec() -> bool {
        true
    }

    open spec fn bitxor_req(self, rhs: Simd<i64, N>) -> bool {
        true
    }

    open spec fn bitxor_spec(self, rhs: Simd<i64, N>) -> Simd<i64, N> {
        lanewise_xor(splatted::<i64, N>(*self), rhs)
    }
}

impl<'a, 'b, const N: usize> core::ops::BitXor<&'b Simd<i64, N>> for &'a i64 {
    type Output = Simd<i64, N>;

    /// Computes bitwise XOR for the uniform scalar `self` and each element of `rhs`.
    fn bitxor(self, rhs: &'b Simd<i64, N>) -> (r: Simd<i64, N>)
        ensures
            r == lanewise_xor(splatted::<i64, N>(*self), *rhs),
    {
        core::ops::BitXor::bitxor(Simd::<i64, N>::splat(*self), *rhs)
    }
}

impl<'a, 'b, const N: usize> BitXorSpecImpl<&'b Simd<i64, N>> for &'a i64 {
    open spec fn obeys_bitxor_spec() -> bool {
        true
    }

    open spec fn bitxor_req(self, rhs: &'b Simd<i64, N>) -> bool {
        true
    }

    open spec fn bitxor_spec(self, rhs: &'b Simd<i64, N>) -> Simd<i64, N> {
        lanewise_xor(splatted::<i64, N>(*self), *rhs)
    }
}

impl<'a, T: SimdElement, const N: usize> core::ops::Neg for &'a Simd<T, N> {
    type Output = Simd<T, N>;

    /// Negates each element of `self`, with wrapping arithmetic.
    fn neg(self) -> (r: Simd<T, N>)
        ensures
            r == wrapping_negation(*self),
    {
        core::ops::Neg::neg(*self)
    }
}

impl<'a, T: SimdElement, const N: usize> NegSpecImpl for &'a Simd<T, N> {
    open spec fn obeys_neg_spec() -> bool {
        true
    }

    open spec fn neg_req(self) -> bool {
        true
    }

    open spec fn neg_spec(self) -> Simd<T, N> {
        wrapping_negation(*self)
    }
}

impl<'a, T: SimdElement, const N: usize> core::ops::Not for &'a Simd<T, N> {
    type Output = Simd<T, N>;

    /// Flips all bits of all elements of `self`.
    fn not(self) -> (r: Simd<T, N>)
        ensures
            r == lanewise_not(*self),
    {
        core::ops::Not::not(*self)
    }
}

impl<'a, T: SimdElement, const N: usize> NotSpecImpl for &'a Simd<T, N> {
    open spec fn obeys_not_spec() -> bool {
        true
    }

    open spec fn not_req(self) -> bool {
        true
    }

    open spec fn not_spec(self) -> Simd<T, N> {
        lanewise_not(*self)
    }
}

} // verus!
