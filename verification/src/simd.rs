//! The generic SIMD vector [`Simd<T, N>`] and the operations that every
//! lane type supports.

use vstd::prelude::*;

use crate::compare::{CmpEq, CmpNe, CmpLt, CmpGt, CmpLe, CmpGe};

use vstd::arithmetic::power2::{pow2, lemma_pow2_unfold, lemma2_to64};

use crate::element::{
    SimdElement,
    wrapped,
    mask_lane,
    is_mask_lane,
    bit_blend,
    lemma_wrap_add,
    lemma_wrap_mul,
};

verus! {

/// A SIMD vector with `N` elements of type `T`.
///
/// The lanes are held in an array; every operation works lane by lane in the
/// same way as the vector instructions that it stands for.
#[derive(Clone, Copy, Debug)]
pub struct Simd<T: SimdElement, const N: usize> {
    lanes: [T; N],
}

impl<T: SimdElement, const N: usize> View for Simd<T, N> {
    type V = Seq<T>;

    /// The lanes, lowest first.
    closed spec fn view(&self) -> Seq<T> {
        self.lanes@
    }
}

/// A vector has exactly `N` lanes.
pub broadcast proof fn lemma_simd_len<T: SimdElement, const N: usize>(v: Simd<T, N>)
    ensures
        #[trigger] v@.len() == N,
{
}

/// Two vectors with the same lanes are the same vector.
pub proof fn lemma_simd_ext<T: SimdElement, const N: usize>(a: Simd<T, N>, b: Simd<T, N>)
    requires
        a@ == b@,
    ensures
        a == b,
{
    assert(a.lanes =~= b.lanes);
}

/// The vector whose lanes are `s` (meaningful when `s` has `N` lanes).
pub closed spec fn from_lanes<T: SimdElement, const N: usize>(s: Seq<T>) -> Simd<T, N> {
    choose|v: Simd<T, N>| v@ == s
}

/// An array filled in from `s` over the first `k` positions of `a`.
closed spec fn filled<T, const N: usize>(a: [T; N], s: Seq<T>, k: nat) -> [T; N]
    decreases k,
{
    if k == 0 {
        a
    } else {
        vstd::array::spec_array_update(filled(a, s, (k - 1) as nat), k - 1, s[k - 1])
    }
}

proof fn lemma_filled<T, const N: usize>(a: [T; N], s: Seq<T>, k: nat)
    requires
        k <= N,
    ensures
        forall|j: int| 0 <= j < k ==> #[trigger] filled(a, s, k)@[j] == s[j],
        filled(a, s, k)@.len() == N,
    decreases k,
{
    broadcast use vstd::array::axiom_spec_array_update;

    if k > 0 {
        lemma_filled(a, s, (k - 1) as nat);
    }
}

/// [`from_lanes`] has the lanes it is given.
pub proof fn lemma_from_lanes<T: SimdElement, const N: usize>(s: Seq<T>)
    requires
        s.len() == N,
    ensures
        from_lanes::<T, N>(s)@ == s,
{
    let a = vstd::pervasive::arbitrary::<[T; N]>();
    lemma_filled(a, s, N as nat);
    let w = Simd::<T, N> { lanes: filled(a, s, N as nat) };
    assert(w@ =~= s);
}

/// The vector with every lane equal to `value`.
pub open spec fn splatted<T: SimdElement, const N: usize>(value: T) -> Simd<T, N> {
    from_lanes(Seq::new(N as nat, |i: int| value))
}

/// A vector equals [`from_lanes`] of its own lanes.
pub proof fn lemma_is_from_lanes<T: SimdElement, const N: usize>(v: Simd<T, N>, s: Seq<T>)
    requires
        v@ == s,
    ensures
        v == from_lanes::<T, N>(s),
{
    lemma_from_lanes::<T, N>(s);
    lemma_simd_ext(v, from_lanes::<T, N>(s));
}

/// The sum of the integers of the lanes in `s`.
pub open spec fn sum_values<T: SimdElement>(s: Seq<T>) -> int
    decreases s.len(),
{
    if s.len() == 0 {
        0
    } else {
        sum_values(s.drop_last()) + s.last().value()
    }
}

/// The product of the integers of the lanes in `s`.
pub open spec fn product_values<T: SimdElement>(s: Seq<T>) -> int
    decreases s.len(),
{
    if s.len() == 0 {
        1
    } else {
        product_values(s.drop_last()) * s.last().value()
    }
}

/// The bitmask of `s`: bit `i` is set when the most significant bit of lane
/// `i` is set; all higher bits are clear.
pub open spec fn bitmask_value<T: SimdElement>(s: Seq<T>) -> int
    decreases s.len(),
{
    if s.len() == 0 {
        0
    } else {
        bitmask_value(s.drop_last()) + if s.last().top_bit() {
            pow2((s.len() - 1) as nat) as int
        } else {
            0
        }
    }
}

/// Whether the most significant bit of some lane of `s` is set.
pub open spec fn any_top_bit<T: SimdElement>(s: Seq<T>) -> bool {
    exists|i: int| 0 <= i < s.len() && (#[trigger] s[i]).top_bit()
}

/// Whether the most significant bit of every lane of `s` is set.
pub open spec fn all_top_bits<T: SimdElement>(s: Seq<T>) -> bool {
    forall|i: int| 0 <= i < s.len() ==> (#[trigger] s[i]).top_bit()
}

/// Whether every lane of `s` is a mask lane (all bits set or all clear).
pub open spec fn is_mask<T: SimdElement>(s: Seq<T>) -> bool {
    forall|i: int| 0 <= i < s.len() ==> is_mask_lane(#[trigger] s[i])
}

/// Whether `r` is the transpose of the square matrix `m` (row `i` of `r` is
/// column `i` of `m`).
pub open spec fn is_transpose<T: SimdElement, const N: usize>(
    r: Seq<Simd<T, N>>,
    m: Seq<Simd<T, N>>,
) -> bool {
    forall|i: int, j: int| 0 <= i < N && 0 <= j < N ==> (#[trigger] r[i]@)[j] == (#[trigger] m[j]@)[i]
}

/// The mask whose lane `i` is true where `cond(i)` holds.
pub open spec fn mask_where<T: SimdElement, const N: usize>(cond: spec_fn(int) -> bool) -> Simd<T, N> {
    from_lanes(Seq::new(N as nat, |i: int| mask_lane::<T>(cond(i))))
}

/// The mask of lanes where `a` equals `b`.
pub open spec fn mask_eq<T: SimdElement, const N: usize>(a: Simd<T, N>, b: Simd<T, N>) -> Simd<T, N> {
    mask_where(|i: int| a@[i] == b@[i])
}

/// The mask of lanes where `a` differs from `b`.
pub open spec fn mask_ne<T: SimdElement, const N: usize>(a: Simd<T, N>, b: Simd<T, N>) -> Simd<T, N> {
    mask_where(|i: int| a@[i] != b@[i])
}

/// The mask of lanes where `a` is less than `b`.
pub open spec fn mask_lt<T: SimdElement, const N: usize>(a: Simd<T, N>, b: Simd<T, N>) -> Simd<T, N> {
    mask_where(|i: int| a@[i].value() < b@[i].value())
}

/// The mask of lanes where `a` is greater than `b`.
pub open spec fn mask_gt<T: SimdElement, const N: usize>(a: Simd<T, N>, b: Simd<T, N>) -> Simd<T, N> {
    mask_where(|i: int| a@[i].value() > b@[i].value())
}

/// The mask of lanes where `a` is less than or equal to `b`.
pub open spec fn mask_le<T: SimdElement, const N: usize>(a: Simd<T, N>, b: Simd<T, N>) -> Simd<T, N> {
    mask_where(|i: int| a@[i].value() <= b@[i].value())
}

/// The mask of lanes where `a` is greater than or equal to `b`.
pub open spec fn mask_ge<T: SimdElement, const N: usize>(a: Simd<T, N>, b: Simd<T, N>) -> Simd<T, N> {
    mask_where(|i: int| a@[i].value() >= b@[i].value())
}

/// Bitwise selection of `if_one` and `if_zero` by `mask`.
pub open spec fn bit_select<T: SimdElement, const N: usize>(
    mask: Simd<T, N>,
    if_one: Simd<T, N>,
    if_zero: Simd<T, N>,
) -> Simd<T, N> {
    from_lanes(Seq::new(N as nat, |i: int| bit_blend(mask@[i], if_one@[i], if_zero@[i])))
}

/// The lanes of a mask built by [`mask_where`].
pub proof fn lemma_mask_where<T: SimdElement, const N: usize>(cond: spec_fn(int) -> bool)
    ensures
        forall|i: int| 0 <= i < N ==> #[trigger] mask_where::<T, N>(cond)@[i] == mask_lane::<T>(cond(i)),
{
    lemma_from_lanes::<T, N>(Seq::new(N as nat, |i: int| mask_lane::<T>(cond(i))));
}

/// The lanes of [`bit_select`].
pub proof fn lemma_bit_select<T: SimdElement, const N: usize>(
    mask: Simd<T, N>,
    if_one: Simd<T, N>,
    if_zero: Simd<T, N>,
)
    ensures
        forall|i: int|
            0 <= i < N ==> #[trigger] bit_select(mask, if_one, if_zero)@[i] == bit_blend(mask@[i], if_one@[i], if_zero@[i]),
{
    lemma_from_lanes::<T, N>(Seq::new(N as nat, |i: int| bit_blend(mask@[i], if_one@[i], if_zero@[i])));
}

proof fn lemma_sum_step<T: SimdElement>(s: Seq<T>, i: int)
    requires
        0 <= i < s.len(),
    ensures
        sum_values(s.take(i + 1)) == sum_values(s.take(i)) + s[i].value(),
        product_values(s.take(i + 1)) == product_values(s.take(i)) * s[i].value(),
        bitmask_value(s.take(i + 1)) == bitmask_value(s.take(i)) + if s[i].top_bit() {
            pow2(i as nat) as int
        } else {
            0
        },
{
    assert(s.take(i + 1).drop_last() =~= s.take(i));
}

impl<T: SimdElement, const N: usize> Simd<T, N> {
    /// Converts an array to a SIMD vector.
    pub fn new(array: [T; N]) -> (r: Self)
        ensures
            r@ == array@,
    {
        Simd { lanes: array }
    }

    /// Constructs a new SIMD vector with all elements set to the given value.
    pub fn splat(value: T) -> (r: Self)
        ensures
            r == splatted::<T, N>(value),
            forall|i: int| 0 <= i < N ==> #[trigger] r@[i] == value,
    {
        let r = Simd { lanes: [value; N] };
        proof {
            assert(r@ =~= Seq::new(N as nat, |i: int| value));
            lemma_is_from_lanes(r, Seq::new(N as nat, |i: int| value));
        }
        r
    }

    /// The vector with all bits of all lanes clear.
    pub fn zeroed() -> (r: Self)
        ensures
            forall|i: int| 0 <= i < N ==> #[trigger] r@[i] == T::spec_zero(),
    {
        Self::splat(T::zero())
    }

    /// Converts a SIMD vector to an array.
    pub fn to_array(self) -> (r: [T; N])
        ensures
            r@ == self@,
    {
        self.lanes
    }

    /// Returns an array reference containing the entire SIMD vector.
    pub fn as_array(&self) -> (r: &[T; N])
        ensures
            r@ == self@,
    {
        &self.lanes
    }

    /// Returns a mutable array reference containing the entire SIMD vector.
    pub fn as_mut_array(&mut self) -> (r: &mut [T; N])
        ensures
            r@ == old(self)@,
            final(self)@ == final(r)@,
    {
        &mut self.lanes
    }

    /// Converts a slice to a SIMD vector, filling the lanes past the end of
    /// the slice with zeros.
    pub fn from_slice(values: &[T]) -> (r: Self)
        requires
            values@.len() <= N,
        ensures
            forall|i: int| 0 <= i < values@.len() ==> #[trigger] r@[i] == values@[i],
            forall|i: int| values@.len() <= i < N ==> #[trigger] r@[i] == T::spec_zero(),
    {
        let mut out = [T::zero(); N];
        for i in 0..values.len()
            invariant
                values@.len() <= N,
                forall|j: int| 0 <= j < i ==> #[trigger] out@[j] == values@[j],
                forall|j: int| i <= j < N ==> #[trigger] out@[j] == T::spec_zero(),
        {
            out[i] = values[i];
        }
        Simd { lanes: out }
    }

    /// Returns a mask that checks if each element of `self` is equal to the
    /// corresponding element of `other`.
    pub(crate) fn lanes_eq(self, other: Self) -> (r: Self)
        ensures
            r == mask_eq(self, other),
            forall|i: int| 0 <= i < N ==> #[trigger] r@[i] == mask_lane::<T>(self@[i] == other@[i]),
    {
        let mut out = self.lanes;
        for i in 0..N
            invariant
                forall|j: int| 0 <= j < i ==> #[trigger] out@[j] == mask_lane::<T>(self@[j] == other@[j]),
        {
            out[i] = if self.lanes[i].lane_eq(other.lanes[i]) { T::ones() } else { T::zero() };
        }
        let r = Simd { lanes: out };
        proof {
            lemma_mask_where::<T, N>(|i: int| self@[i] == other@[i]);
            assert(r@ =~= mask_eq(self, other)@);
            lemma_simd_ext(r, mask_eq(self, other));
        }
        r
    }

    /// Returns a mask that checks if each element of `self` is not equal to
    /// the corresponding element of `other`.
    pub(crate) fn lanes_ne(self, other: Self) -> (r: Self)
        ensures
            r == mask_ne(self, other),
            forall|i: int| 0 <= i < N ==> #[trigger] r@[i] == mask_lane::<T>(self@[i] != other@[i]),
    {
        let mut out = self.lanes;
        for i in 0..N
            invariant
                forall|j: int| 0 <= j < i ==> #[trigger] out@[j] == mask_lane::<T>(self@[j] != other@[j]),
        {
            out[i] = if self.lanes[i].lane_eq(other.lanes[i]) { T::zero() } else { T::ones() };
        }
        let r = Simd { lanes: out };
        proof {
            lemma_mask_where::<T, N>(|i: int| self@[i] != other@[i]);
            assert(r@ =~= mask_ne(self, other)@);
            lemma_simd_ext(r, mask_ne(self, other));
        }
        r
    }

    /// Returns a mask that checks if each element of `self` is greater than
    /// the corresponding element of `other`.
    pub(crate) fn lanes_gt(self, other: Self) -> (r: Self)
        ensures
            r == mask_gt(self, other),
            forall|i: int|
                0 <= i < N ==> #[trigger] r@[i] == mask_lane::<T>(self@[i].value() > other@[i].value()),
    {
        let mut out = self.lanes;
        for i in 0..N
            invariant
                forall|j: int|
                    0 <= j < i ==> #[trigger] out@[j] == mask_lane::<T>(self@[j].value() > other@[j].value()),
        {
            out[i] = if other.lanes[i].lane_lt(self.lanes[i]) { T::ones() } else { T::zero() };
        }
        let r = Simd { lanes: out };
        proof {
            lemma_mask_where::<T, N>(|i: int| self@[i].value() > other@[i].value());
            assert(r@ =~= mask_gt(self, other)@);
            lemma_simd_ext(r, mask_gt(self, other));
        }
        r
    }

    /// Returns a mask that checks if each element of `self` is less than the
    /// corresponding element of `other`.
    pub(crate) fn lanes_lt(self, other: Self) -> (r: Self)
        ensures
            r == mask_lt(self, other),
            forall|i: int|
                0 <= i < N ==> #[trigger] r@[i] == mask_lane::<T>(self@[i].value() < other@[i].value()),
    {
        // lt is gt the other way around
        let r = other.lanes_gt(self);
        proof {
            lemma_mask_where::<T, N>(|i: int| self@[i].value() < other@[i].value());
            assert(r@ =~= mask_lt(self, other)@);
            lemma_simd_ext(r, mask_lt(self, other));
        }
        r
    }

    /// Returns a mask that checks if each element of `self` is less than or
    /// equal to the corresponding element of `other`.
    pub(crate) fn lanes_le(self, other: Self) -> (r: Self)
        ensures
            r == mask_le(self, other),
            forall|i: int|
                0 <= i < N ==> #[trigger] r@[i] == mask_lane::<T>(self@[i].value() <= other@[i].value()),
    {
        let mut out = self.lanes;
        for i in 0..N
            invariant
                forall|j: int|
                    0 <= j < i ==> #[trigger] out@[j] == mask_lane::<T>(self@[j].value() <= other@[j].value()),
        {
            out[i] = if other.lanes[i].lane_lt(self.lanes[i]) { T::zero() } else { T::ones() };
        }
        let r = Simd { lanes: out };
        proof {
            lemma_mask_where::<T, N>(|i: int| self@[i].value() <= other@[i].value());
            assert(r@ =~= mask_le(self, other)@);
            lemma_simd_ext(r, mask_le(self, other));
        }
        r
    }

    /// Returns a mask that checks if each element of `self` is greater than
    /// or equal to the corresponding element of `other`.
    pub(crate) fn lanes_ge(self, other: Self) -> (r: Self)
        ensures
            r == mask_ge(self, other),
            forall|i: int|
                0 <= i < N ==> #[trigger] r@[i] == mask_lane::<T>(self@[i].value() >= other@[i].value()),
    {
        let r = other.lanes_le(self);
        proof {
            lemma_mask_where::<T, N>(|i: int| self@[i].value() >= other@[i].value());
            assert(r@ =~= mask_ge(self, other)@);
            lemma_simd_ext(r, mask_ge(self, other));
        }
        r
    }

    /// Returns a mask that checks if each element of `self` is equal to
    /// the corresponding element of `other`, or, where `other` is a scalar,
    /// equal to `other`.
    pub fn simd_eq<Rhs>(self, other: Rhs) -> (r: Self)
        where
            Self: CmpEq<Rhs>,
        ensures
            r == CmpEq::eq_mask(self, other),
    {
        CmpEq::simd_eq(self, other)
    }

    /// Returns a mask that checks if each element of `self` is not equal to
    /// the corresponding element of `other`, or, where `other` is a scalar,
    /// not equal to `other`.
    pub fn simd_ne<Rhs>(self, other: Rhs) -> (r: Self)
        where
            Self: CmpNe<Rhs>,
        ensures
            r == CmpNe::ne_mask(self, other),
    {
        CmpNe::simd_ne(self, other)
    }

    /// Returns a mask that checks if each element of `self` is less than
    /// the corresponding element of `other`, or, where `other` is a scalar,
    /// less than `other`.
    pub fn simd_lt<Rhs>(self, other: Rhs) -> (r: Self)
        where
            Self: CmpLt<Rhs>,
        ensures
            r == CmpLt::lt_mask(self, other),
    {
        CmpLt::simd_lt(self, other)
    }

    /// Returns a mask that checks if each element of `self` is greater than
    /// the corresponding element of `other`, or, where `other` is a scalar,
    /// greater than `other`.
    pub fn simd_gt<Rhs>(self, other: Rhs) -> (r: Self)
        where
            Self: CmpGt<Rhs>,
        ensures
            r == CmpGt::gt_mask(self, other),
    {
        CmpGt::simd_gt(self, other)
    }

    /// Returns a mask that checks if each element of `self` is less than or equal to
    /// the corresponding element of `other`, or, where `other` is a scalar,
    /// less than or equal to `other`.
    pub fn simd_le<Rhs>(self, other: Rhs) -> (r: Self)
        where
            Self: CmpLe<Rhs>,
        ensures
            r == CmpLe::le_mask(self, other),
    {
        CmpLe::simd_le(self, other)
    }

    /// Returns a mask that checks if each element of `self` is greater than or equal to
    /// the corresponding element of `other`, or, where `other` is a scalar,
    /// greater than or equal to `other`.
    pub fn simd_ge<Rhs>(self, other: Rhs) -> (r: Self)
        where
            Self: CmpGe<Rhs>,
        ensures
            r == CmpGe::ge_mask(self, other),
    {
        CmpGe::simd_ge(self, other)
    }

    /// Reducing addition: the sum of the vector's elements, with wrapping
    /// arithmetic.
    pub fn reduce_add(self) -> (r: T)
        ensures
            r.value() == wrapped::<T>(sum_values(self@)),
    {
        let mut acc = T::zero();
        proof {
            T::lemma_masks();
            T::lemma_range();
            vstd::arithmetic::div_mod::lemma_small_mod((0 - T::min_value()) as nat, T::modulus() as nat);
            assert(self@.take(0) =~= Seq::<T>::empty());
        }
        for i in 0..N
            invariant
                acc.value() == wrapped::<T>(sum_values(self@.take(i as int))),
        {
            proof {
                lemma_sum_step(self@, i as int);
                T::lemma_range();
                lemma_wrap_add(sum_values(self@.take(i as int)), self@[i as int].value(), T::min_value(), T::modulus());
            }
            acc = acc.lane_add(self.lanes[i]);
        }
        proof {
            assert(self@.take(N as int) =~= self@);
        }
        acc
    }

    /// Reducing multiplication: the product of the vector's elements, with
    /// wrapping arithmetic.
    pub fn reduce_mul(self) -> (r: T)
        ensures
            r.value() == wrapped::<T>(product_values(self@)),
    {
        let mut acc = T::one();
        proof {
            T::lemma_range();
            vstd::arithmetic::div_mod::lemma_small_mod((1 - T::min_value()) as nat, T::modulus() as nat);
            assert(self@.take(0) =~= Seq::<T>::empty());
        }
        for i in 0..N
            invariant
                acc.value() == wrapped::<T>(product_values(self@.take(i as int))),
        {
            proof {
                lemma_sum_step(self@, i as int);
                T::lemma_range();
                lemma_wrap_mul(product_values(self@.take(i as int)), self@[i as int].value(), T::min_value(), T::modulus());
            }
            acc = acc.lane_mul(self.lanes[i]);
        }
        proof {
            assert(self@.take(N as int) =~= self@);
        }
        acc
    }

    /// Bitwise selection: each bit comes from `if_one` where the bit of
    /// `self` is one, and from `if_zero` where it is zero.
    pub fn bitselect(self, if_one: Self, if_zero: Self) -> (r: Self)
        ensures
            r == bit_select(self, if_one, if_zero),
            forall|i: int| 0 <= i < N ==> #[trigger] r@[i] == bit_blend(self@[i], if_one@[i], if_zero@[i]),
    {
        let mut out = self.lanes;
        for i in 0..N
            invariant
                forall|j: int| 0 <= j < i ==> #[trigger] out@[j] == bit_blend(self@[j], if_one@[j], if_zero@[j]),
        {
            let m = self.lanes[i];
            out[i] = if_one.lanes[i].lane_and(m).lane_or(if_zero.lanes[i].lane_and(m.lane_not()));
        }
        let r = Simd { lanes: out };
        proof {
            lemma_bit_select(self, if_one, if_zero);
            assert(r@ =~= bit_select(self, if_one, if_zero)@);
            lemma_simd_ext(r, bit_select(self, if_one, if_zero));
        }
        r
    }

    /// Elementwise selection: for each lane of the mask `self`, the lane of
    /// `if_true` where all its bits are one, and the lane of `if_false` where
    /// all are zero. On lanes that are not masks it selects bit by bit.
    pub fn select(self, if_true: Self, if_false: Self) -> (r: Self)
        ensures
            r == bit_select(self, if_true, if_false),
            forall|i: int| 0 <= i < N ==> #[trigger] r@[i] == bit_blend(self@[i], if_true@[i], if_false@[i]),
            forall|i: int|
                0 <= i < N && is_mask_lane(self@[i]) ==> #[trigger] r@[i] == (if self@[i] == T::spec_ones() {
                    if_true@[i]
                } else {
                    if_false@[i]
                }),
    {
        let r = self.bitselect(if_true, if_false);
        proof {
            assert forall|i: int| 0 <= i < N && is_mask_lane(self@[i]) implies #[trigger] r@[i] == (if self@[i]
                == T::spec_ones() {
                if_true@[i]
            } else {
                if_false@[i]
            }) by {
                T::lemma_blend_mask(self@[i], if_true@[i], if_false@[i]);
            }
        }
        r
    }

    /// Elementwise selection, the former name of [`select`](Self::select).
    pub fn blend(self, if_true: Self, if_false: Self) -> (r: Self)
        ensures
            r == bit_select(self, if_true, if_false),
            forall|i: int| 0 <= i < N ==> #[trigger] r@[i] == bit_blend(self@[i], if_true@[i], if_false@[i]),
            forall|i: int|
                0 <= i < N && is_mask_lane(self@[i]) ==> #[trigger] r@[i] == (if self@[i] == T::spec_ones() {
                    if_true@[i]
                } else {
                    if_false@[i]
                }),
    {
        self.select(if_true, if_false)
    }

    /// Converts to a bitmask: bit `i` is one where lane `i` is true (its most
    /// significant bit is set). Remaining bits are zero.
    pub fn to_bitmask(self) -> (r: u32)
        requires
            N <= 32,
        ensures
            r == bitmask_value(self@),
    {
        let mut r: u32 = 0;
        let mut bit: u64 = 1;
        proof {
            lemma2_to64();
            assert(self@.take(0) =~= Seq::<T>::empty());
        }
        for i in 0..N
            invariant
                N <= 32,
                bit == pow2(i as nat),
                r == bitmask_value(self@.take(i as int)),
                r < bit,
        {
            proof {
                lemma_sum_step(self@, i as int);
                lemma_pow2_unfold((i + 1) as nat);
                lemma2_to64();
                if i < 31 {
                    vstd::arithmetic::power2::lemma_pow2_strictly_increases(i as nat, 31);
                }
            }
            if self.lanes[i].lane_top_bit() {
                r = r + bit as u32;
            }
            bit = bit * 2;
        }
        proof {
            assert(self@.take(N as int) =~= self@);
        }
        r
    }

    /// Returns `true` if any element of `self` is true (has its most
    /// significant bit set).
    pub fn any(self) -> (r: bool)
        ensures
            r == any_top_bit(self@),
    {
        let mut found = false;
        for i in 0..N
            invariant
                found == exists|j: int| 0 <= j < i && (#[trigger] self@[j]).top_bit(),
        {
            if self.lanes[i].lane_top_bit() {
                found = true;
            }
            proof {
                assert(self@[i as int] == self.lanes@[i as int]);
            }
        }
        found
    }

    /// Returns `true` if all elements of `self` are true (have their most
    /// significant bit set).
    pub fn all(self) -> (r: bool)
        ensures
            r == all_top_bits(self@),
    {
        let mut every = true;
        for i in 0..N
            invariant
                every == forall|j: int| 0 <= j < i ==> (#[trigger] self@[j]).top_bit(),
        {
            if !self.lanes[i].lane_top_bit() {
                every = false;
            }
            proof {
                assert(self@[i as int] == self.lanes@[i as int]);
            }
        }
        every
    }

    /// Returns `true` if none of the elements of `self` are true.
    pub fn none(self) -> (r: bool)
        ensures
            r == !any_top_bit(self@),
    {
        !self.any()
    }

    /// Transposes an array of SIMD vectors interpreted as a square matrix.
    pub fn transpose(matrix: [Self; N]) -> (r: [Self; N])
        ensures
            is_transpose(r@, matrix@),
    {
        let mut out = matrix;
        for i in 0..N
            invariant
                forall|a: int, b: int|
                    0 <= a < i && 0 <= b < N ==> (#[trigger] out@[a]@)[b] == (#[trigger] matrix@[b]@)[a],
        {
            let mut column = matrix[i];
            for j in 0..N
                invariant
                    i < N,
                    forall|b: int| 0 <= b < j ==> #[trigger] column@[b] == matrix@[b]@[i as int],
            {
                let ghost before = column;
                column.lanes[j] = matrix[j].lanes[i];
                proof {
                    assert forall|b: int| 0 <= b < j + 1 implies #[trigger] column@[b] == matrix@[b]@[i as int] by {
                        if b < j {
                            assert(before@[b] == matrix@[b]@[i as int]);
                        }
                    }
                }
            }
            out[i] = column;
        }
        out
    }
}

} // verus!
