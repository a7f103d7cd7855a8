//! Properties that relate several operations of the library.

use vstd::prelude::*;

use vstd::arithmetic::power2::{pow2, lemma_pow2_unfold, lemma_pow2_pos};

use crate::element::{SimdElement, wrapped, lane_of, lemma_lane_of, mask_lane, lemma_wrap_add, bit_of, bit_blend};
use crate::simd::{
    Simd,
    sum_values,
    lemma_from_lanes,
    lemma_simd_ext,
    lemma_mask_where,
    mask_eq,
    mask_ne,
    mask_lt,
    mask_gt,
    mask_le,
    mask_ge,
    bit_select,
    lemma_bit_select,
    bitmask_value,
    any_top_bit,
    all_top_bits,
    is_mask,
    is_transpose,
};
use crate::ops::{
    wrapping_sum,
    wrapping_difference,
    wrapping_negation,
    lanewise_not,
    lanewise_and,
    lanewise_or,
    lanewise_xor,
    lanewise_shl,
    lanewise_shr,
};
use crate::integer::{lanewise_max, lanewise_min};

verus! {

broadcast use crate::simd::lemma_simd_len;

proof fn lemma_lanewise_not<T: SimdElement, const N: usize>(a: Simd<T, N>)
    ensures
        forall|i: int| 0 <= i < N ==> #[trigger] lanewise_not(a)@[i] == a@[i].bit_not(),
{
    lemma_from_lanes::<T, N>(Seq::new(N as nat, |i: int| a@[i].bit_not()));
}

proof fn lemma_not_mask<T: SimdElement>(b: bool)
    ensures
        mask_lane::<T>(b).bit_not() == mask_lane::<T>(!b),
{
    T::lemma_masks();
}

/// `a < b` lane by lane is `b > a`: the less-than mask is the greater-than
/// mask with the operands swapped.
pub proof fn law_lt_is_swapped_gt<T: SimdElement, const N: usize>(a: Simd<T, N>, b: Simd<T, N>)
    ensures
        mask_lt(a, b) == mask_gt(b, a),
{
    lemma_mask_where::<T, N>(|i: int| a@[i].value() < b@[i].value());
    lemma_mask_where::<T, N>(|i: int| b@[i].value() > a@[i].value());
    assert(mask_lt(a, b)@ =~= mask_gt(b, a)@);
    lemma_simd_ext(mask_lt(a, b), mask_gt(b, a));
}

/// The not-equal mask is the bitwise NOT of the equal mask.
pub proof fn law_ne_is_not_eq<T: SimdElement, const N: usize>(a: Simd<T, N>, b: Simd<T, N>)
    ensures
        mask_ne(a, b) == lanewise_not(mask_eq(a, b)),
{
    lemma_mask_where::<T, N>(|i: int| a@[i] == b@[i]);
    lemma_mask_where::<T, N>(|i: int| a@[i] != b@[i]);
    lemma_lanewise_not(mask_eq(a, b));
    assert forall|i: int| 0 <= i < N implies #[trigger] mask_ne(a, b)@[i] == lanewise_not(mask_eq(a, b))@[i] by {
        lemma_not_mask::<T>(a@[i] == b@[i]);
    }
    assert(mask_ne(a, b)@ =~= lanewise_not(mask_eq(a, b))@);
    lemma_simd_ext(mask_ne(a, b), lanewise_not(mask_eq(a, b)));
}

/// The less-or-equal mask is the bitwise NOT of the greater-than mask.
pub proof fn law_le_is_not_gt<T: SimdElement, const N: usize>(a: Simd<T, N>, b: Simd<T, N>)
    ensures
        mask_le(a, b) == lanewise_not(mask_gt(a, b)),
{
    lemma_mask_where::<T, N>(|i: int| a@[i].value() > b@[i].value());
    lemma_mask_where::<T, N>(|i: int| a@[i].value() <= b@[i].value());
    lemma_lanewise_not(mask_gt(a, b));
    assert forall|i: int| 0 <= i < N implies #[trigger] mask_le(a, b)@[i] == lanewise_not(mask_gt(a, b))@[i] by {
        lemma_not_mask::<T>(a@[i].value() > b@[i].value());
    }
    assert(mask_le(a, b)@ =~= lanewise_not(mask_gt(a, b))@);
    lemma_simd_ext(mask_le(a, b), lanewise_not(mask_gt(a, b)));
}

/// The greater-or-equal mask is the bitwise NOT of the less-than mask.
pub proof fn law_ge_is_not_lt<T: SimdElement, const N: usize>(a: Simd<T, N>, b: Simd<T, N>)
    ensures
        mask_ge(a, b) == lanewise_not(mask_lt(a, b)),
{
    lemma_mask_where::<T, N>(|i: int| a@[i].value() < b@[i].value());
    lemma_mask_where::<T, N>(|i: int| a@[i].value() >= b@[i].value());
    lemma_lanewise_not(mask_lt(a, b));
    assert forall|i: int| 0 <= i < N implies #[trigger] mask_ge(a, b)@[i] == lanewise_not(mask_lt(a, b))@[i] by {
        lemma_not_mask::<T>(a@[i].value() < b@[i].value());
    }
    assert(mask_ge(a, b)@ =~= lanewise_not(mask_lt(a, b))@);
    lemma_simd_ext(mask_ge(a, b), lanewise_not(mask_lt(a, b)));
}

/// Every comparison yields a mask: each lane has all bits set or all clear.
pub proof fn law_comparisons_are_masks<T: SimdElement, const N: usize>(a: Simd<T, N>, b: Simd<T, N>)
    ensures
        is_mask(mask_eq(a, b)@),
        is_mask(mask_ne(a, b)@),
        is_mask(mask_lt(a, b)@),
        is_mask(mask_gt(a, b)@),
        is_mask(mask_le(a, b)@),
        is_mask(mask_ge(a, b)@),
{
    lemma_mask_where::<T, N>(|i: int| a@[i] == b@[i]);
    lemma_mask_where::<T, N>(|i: int| a@[i] != b@[i]);
    lemma_mask_where::<T, N>(|i: int| a@[i].value() < b@[i].value());
    lemma_mask_where::<T, N>(|i: int| a@[i].value() > b@[i].value());
    lemma_mask_where::<T, N>(|i: int| a@[i].value() <= b@[i].value());
    lemma_mask_where::<T, N>(|i: int| a@[i].value() >= b@[i].value());
}

/// Selection by a mask takes whole lanes: a lane of `if_true` where the
/// mask is true and a lane of `if_false` where it is false.
pub proof fn law_select_by_mask<T: SimdElement, const N: usize>(
    mask: Simd<T, N>,
    if_true: Simd<T, N>,
    if_false: Simd<T, N>,
)
    requires
        is_mask(mask@),
    ensures
        forall|i: int|
            0 <= i < N ==> #[trigger] bit_select(mask, if_true, if_false)@[i] == (if mask@[i] == T::spec_ones() {
                if_true@[i]
            } else {
                if_false@[i]
            }),
{
    lemma_bit_select(mask, if_true, if_false);
    assert forall|i: int| 0 <= i < N implies #[trigger] bit_select(mask, if_true, if_false)@[i] == (if mask@[i]
        == T::spec_ones() {
        if_true@[i]
    } else {
        if_false@[i]
    }) by {
        T::lemma_blend_mask(mask@[i], if_true@[i], if_false@[i]);
    }
}

/// Selecting `a` where `a > b` and `b` elsewhere is the lane-wise maximum.
pub proof fn law_select_gt_is_max<T: SimdElement, const N: usize>(a: Simd<T, N>, b: Simd<T, N>)
    ensures
        bit_select(mask_gt(a, b), a, b) == lanewise_max(a, b),
{
    let m = mask_gt(a, b);
    law_comparisons_are_masks(a, b);
    law_select_by_mask(m, a, b);
    lemma_mask_where::<T, N>(|i: int| a@[i].value() > b@[i].value());
    let s = Seq::new(N as nat, |i: int| if a@[i].value() < b@[i].value() { b@[i] } else { a@[i] });
    lemma_from_lanes::<T, N>(s);
    assert forall|i: int| 0 <= i < N implies #[trigger] bit_select(m, a, b)@[i] == lanewise_max(a, b)@[i] by {
        T::lemma_masks();
        T::lemma_value(a@[i], b@[i]);
    }
    assert(bit_select(m, a, b)@ =~= lanewise_max(a, b)@);
    lemma_simd_ext(bit_select(m, a, b), lanewise_max(a, b));
}

/// Selecting `a` where `a < b` and `b` elsewhere is the lane-wise minimum.
pub proof fn law_select_lt_is_min<T: SimdElement, const N: usize>(a: Simd<T, N>, b: Simd<T, N>)
    ensures
        bit_select(mask_lt(a, b), a, b) == lanewise_min(a, b),
{
    let m = mask_lt(a, b);
    law_comparisons_are_masks(a, b);
    law_select_by_mask(m, a, b);
    lemma_mask_where::<T, N>(|i: int| a@[i].value() < b@[i].value());
    let s = Seq::new(N as nat, |i: int| if b@[i].value() < a@[i].value() { b@[i] } else { a@[i] });
    lemma_from_lanes::<T, N>(s);
    assert forall|i: int| 0 <= i < N implies #[trigger] bit_select(m, a, b)@[i] == lanewise_min(a, b)@[i] by {
        T::lemma_masks();
        T::lemma_value(a@[i], b@[i]);
    }
    assert(bit_select(m, a, b)@ =~= lanewise_min(a, b)@);
    lemma_simd_ext(bit_select(m, a, b), lanewise_min(a, b));
}

/// Two vectors are equal exactly when their equality mask is all true.
pub proof fn law_eq_iff_all_lanes_equal<T: SimdElement, const N: usize>(a: Simd<T, N>, b: Simd<T, N>)
    ensures
        (a == b) == all_top_bits(mask_eq(a, b)@),
{
    lemma_mask_where::<T, N>(|i: int| a@[i] == b@[i]);
    T::lemma_masks();
    if all_top_bits(mask_eq(a, b)@) {
        assert forall|i: int| 0 <= i < N implies a@[i] == b@[i] by {
            assert(mask_eq(a, b)@[i].top_bit());
        }
        assert(a@ =~= b@);
        lemma_simd_ext(a, b);
    }
    if a == b {
        assert forall|i: int| 0 <= i < mask_eq(a, b)@.len() implies (#[trigger] mask_eq(a, b)@[i]).top_bit() by {
            assert(mask_eq(a, b)@[i] == mask_lane::<T>(a@[i] == b@[i]));
        }
    }
}

/// The bitmask of `s` is below two to the number of lanes (the bits above
/// the lanes are clear).
pub proof fn law_bitmask_bound<T: SimdElement>(s: Seq<T>)
    ensures
        0 <= bitmask_value(s) < pow2(s.len()),
    decreases s.len(),
{
    if s.len() == 0 {
        vstd::arithmetic::power2::lemma2_to64();
    } else {
        law_bitmask_bound(s.drop_last());
        lemma_pow2_unfold(s.len());
        lemma_pow2_pos((s.len() - 1) as nat);
    }
}

/// Bit `i` of the bitmask of `s` is set exactly when lane `i` is true (has
/// its most significant bit set).
pub proof fn law_bitmask_bit<T: SimdElement>(s: Seq<T>, i: int)
    requires
        0 <= i < s.len(),
    ensures
        (bitmask_value(s) / pow2(i as nat) as int) % 2 == (if s[i].top_bit() {
            1int
        } else {
            0int
        }),
    decreases s.len(),
{
    let n = s.len();
    let rest = s.drop_last();
    let b = bitmask_value(rest);
    let t: int = if s.last().top_bit() { 1 } else { 0 };
    law_bitmask_bound(rest);
    lemma_pow2_pos(i as nat);
    lemma_pow2_pos((n - 1) as nat);
    assert(bitmask_value(s) == b + t * pow2((n - 1) as nat));
    if i == n - 1 {
        // The low part is below the weight of the last lane.
        vstd::arithmetic::div_mod::lemma_div_multiples_vanish_fancy(t, b, pow2(i as nat) as int);
        assert(t * pow2(i as nat) == pow2(i as nat) * t) by (nonlinear_arith);
        assert((b + t * pow2(i as nat)) / pow2(i as nat) as int == t);
    } else {
        law_bitmask_bit(rest, i);
        assert(rest[i] == s[i]);
        // The weight of the last lane is an even multiple of pow2(i).
        let k = (n - 1 - i) as nat;
        vstd::arithmetic::power2::lemma_pow2_adds(i as nat, k);
        lemma_pow2_unfold(k);
        lemma_pow2_pos((k - 1) as nat);
        let q = t * pow2((k - 1) as nat);
        assert(t * pow2((n - 1) as nat) == pow2(i as nat) * (2 * q)) by (nonlinear_arith)
            requires
                pow2((n - 1) as nat) == pow2(i as nat) * pow2(k),
                pow2(k) == 2 * pow2((k - 1) as nat),
                q == t * pow2((k - 1) as nat),
        ;
        vstd::arithmetic::div_mod::lemma_hoist_over_denominator(b, 2 * q, pow2(i as nat));
        assert((2 * q) * pow2(i as nat) == pow2(i as nat) * (2 * q)) by (nonlinear_arith);
        vstd::arithmetic::div_mod::lemma_mod_multiples_vanish(q, b / pow2(i as nat) as int, 2);
        assert(2 * q + b / pow2(i as nat) as int == b / pow2(i as nat) as int + 2 * q);
    }
}

/// Some lane is true exactly when the bitmask is not zero.
pub proof fn law_any_iff_bitmask_nonzero<T: SimdElement>(s: Seq<T>)
    ensures
        any_top_bit(s) == (bitmask_value(s) != 0),
    decreases s.len(),
{
    if s.len() > 0 {
        let rest = s.drop_last();
        law_any_iff_bitmask_nonzero(rest);
        law_bitmask_bound(rest);
        lemma_pow2_pos((s.len() - 1) as nat);
        if any_top_bit(rest) {
            let j = choose|j: int| 0 <= j < rest.len() && (#[trigger] rest[j]).top_bit();
            assert(s[j].top_bit());
        }
        if any_top_bit(s) {
            let j = choose|j: int| 0 <= j < s.len() && (#[trigger] s[j]).top_bit();
            if j < s.len() - 1 {
                assert(rest[j].top_bit());
            }
        }
    }
}

/// All lanes are true exactly when the bitmask has the low `N` bits set.
pub proof fn law_all_iff_bitmask_full<T: SimdElement>(s: Seq<T>)
    ensures
        all_top_bits(s) == (bitmask_value(s) == pow2(s.len()) - 1),
    decreases s.len(),
{
    if s.len() == 0 {
        vstd::arithmetic::power2::lemma2_to64();
    } else {
        let rest = s.drop_last();
        law_all_iff_bitmask_full(rest);
        law_bitmask_bound(rest);
        lemma_pow2_unfold(s.len());
        lemma_pow2_pos((s.len() - 1) as nat);
        if all_top_bits(s) {
            assert forall|j: int| 0 <= j < rest.len() implies (#[trigger] rest[j]).top_bit() by {
                assert(s[j].top_bit());
            }
        }
        if bitmask_value(s) == pow2(s.len()) - 1 {
            assert forall|j: int| 0 <= j < s.len() implies (#[trigger] s[j]).top_bit() by {
                if j < s.len() - 1 {
                    assert(rest[j].top_bit());
                }
            }
        }
    }
}

/// Transposing twice gives back the matrix.
pub proof fn law_transpose_twice<T: SimdElement, const N: usize>(
    m: Seq<Simd<T, N>>,
    t: Seq<Simd<T, N>>,
    u: Seq<Simd<T, N>>,
)
    requires
        m.len() == N,
        u.len() == N,
        is_transpose(t, m),
        is_transpose(u, t),
    ensures
        u == m,
{
    assert forall|i: int| 0 <= i < N implies #[trigger] u[i] == m[i] by {
        assert forall|j: int| 0 <= j < N implies u[i]@[j] == m[i]@[j] by {
            assert(u[i]@[j] == t[j]@[i]);
            assert(t[j]@[i] == m[i]@[j]);
        }
        assert(u[i]@ =~= m[i]@);
        lemma_simd_ext(u[i], m[i]);
    }
    assert(u =~= m);
}

proof fn lemma_wrapping_sum<T: SimdElement, const N: usize>(a: Simd<T, N>, b: Simd<T, N>)
    ensures
        forall|i: int|
            0 <= i < N ==> (#[trigger] wrapping_sum(a, b)@[i]).value() == wrapped::<T>(a@[i].value() + b@[i].value()),
{
    lemma_from_lanes::<T, N>(Seq::new(N as nat, |i: int| lane_of::<T>(a@[i].value() + b@[i].value())));
    assert forall|i: int| 0 <= i < N implies (#[trigger] wrapping_sum(a, b)@[i]).value() == wrapped::<T>(
        a@[i].value() + b@[i].value(),
    ) by {
        lemma_lane_of::<T>(a@[i].value() + b@[i].value());
    }
}

proof fn lemma_wrapping_difference<T: SimdElement, const N: usize>(a: Simd<T, N>, b: Simd<T, N>)
    ensures
        forall|i: int|
            0 <= i < N ==> (#[trigger] wrapping_difference(a, b)@[i]).value() == wrapped::<T>(
                a@[i].value() - b@[i].value(),
            ),
{
    lemma_from_lanes::<T, N>(Seq::new(N as nat, |i: int| lane_of::<T>(a@[i].value() - b@[i].value())));
    assert forall|i: int| 0 <= i < N implies (#[trigger] wrapping_difference(a, b)@[i]).value() == wrapped::<T>(
        a@[i].value() - b@[i].value(),
    ) by {
        lemma_lane_of::<T>(a@[i].value() - b@[i].value());
    }
}

proof fn lemma_wrapping_negation<T: SimdElement, const N: usize>(a: Simd<T, N>)
    ensures
        forall|i: int| 0 <= i < N ==> (#[trigger] wrapping_negation(a)@[i]).value() == wrapped::<T>(-a@[i].value()),
{
    lemma_from_lanes::<T, N>(Seq::new(N as nat, |i: int| lane_of::<T>(-a@[i].value())));
    assert forall|i: int| 0 <= i < N implies (#[trigger] wrapping_negation(a)@[i]).value() == wrapped::<T>(
        -a@[i].value(),
    ) by {
        lemma_lane_of::<T>(-a@[i].value());
    }
}

/// Wrapping a value that is already in the range of `T` leaves it alone.
proof fn lemma_wrapped_in_range<T: SimdElement>(x: T)
    ensures
        wrapped::<T>(x.value()) == x.value(),
{
    T::lemma_range();
    T::lemma_value(x, x);
    vstd::arithmetic::div_mod::lemma_small_mod((x.value() - T::min_value()) as nat, T::modulus() as nat);
}

/// Wrapping addition is commutative.
pub proof fn law_add_commutes<T: SimdElement, const N: usize>(a: Simd<T, N>, b: Simd<T, N>)
    ensures
        wrapping_sum(a, b) == wrapping_sum(b, a),
{
    assert(Seq::new(N as nat, |i: int| lane_of::<T>(a@[i].value() + b@[i].value())) =~= Seq::new(
        N as nat,
        |i: int| lane_of::<T>(b@[i].value() + a@[i].value()),
    ));
}

/// Subtracting `b` undoes adding `b`, with wrapping arithmetic.
pub proof fn law_sub_undoes_add<T: SimdElement, const N: usize>(a: Simd<T, N>, b: Simd<T, N>)
    ensures
        wrapping_difference(wrapping_sum(a, b), b) == a,
{
    let s = wrapping_sum(a, b);
    let d = wrapping_difference(s, b);
    lemma_wrapping_sum(a, b);
    lemma_wrapping_difference(s, b);
    T::lemma_range();
    assert forall|i: int| 0 <= i < N implies #[trigger] d@[i] == a@[i] by {
        lemma_wrap_add(a@[i].value() + b@[i].value(), -b@[i].value(), T::min_value(), T::modulus());
        assert(a@[i].value() + b@[i].value() + -b@[i].value() == a@[i].value());
        lemma_wrapped_in_range(a@[i]);
        T::lemma_value(d@[i], a@[i]);
    }
    assert(d@ =~= a@);
    lemma_simd_ext(d, a);
}

/// Negating twice gives back the vector, with wrapping arithmetic.
pub proof fn law_neg_twice<T: SimdElement, const N: usize>(a: Simd<T, N>)
    ensures
        wrapping_negation(wrapping_negation(a)) == a,
{
    let n = wrapping_negation(a);
    let m = wrapping_negation(n);
    lemma_wrapping_negation(a);
    lemma_wrapping_negation(n);
    T::lemma_range();
    assert forall|i: int| 0 <= i < N implies #[trigger] m@[i] == a@[i] by {
        let x = a@[i].value();
        // -wrap(-x) differs from x by a multiple of the modulus.
        lemma_wrap_add(-x, 0, T::min_value(), T::modulus());
        vstd::arithmetic::div_mod::lemma_fundamental_div_mod(-x - T::min_value(), T::modulus());
        let q = (-x - T::min_value()) / T::modulus();
        assert(-n@[i].value() == x + T::modulus() * q);
        vstd::arithmetic::div_mod::lemma_mod_multiples_vanish(q, x - T::min_value(), T::modulus());
        assert(-n@[i].value() - T::min_value() == T::modulus() * q + (x - T::min_value()));
        lemma_wrapped_in_range(a@[i]);
        T::lemma_value(m@[i], a@[i]);
    }
    assert(m@ =~= a@);
    lemma_simd_ext(m, a);
}

proof fn lemma_sum_of_wrapped_sums<T: SimdElement>(s: Seq<T>, x: Seq<T>, y: Seq<T>)
    requires
        s.len() == x.len(),
        s.len() == y.len(),
        forall|i: int| 0 <= i < s.len() ==> (#[trigger] s[i]).value() == wrapped::<T>(x[i].value() + y[i].value()),
    ensures
        wrapped::<T>(sum_values(s)) == wrapped::<T>(sum_values(x) + sum_values(y)),
    decreases s.len(),
{
    T::lemma_range();
    if s.len() == 0 {
    } else {
        let (s1, x1, y1) = (s.drop_last(), x.drop_last(), y.drop_last());
        lemma_sum_of_wrapped_sums(s1, x1, y1);
        let v = x.last().value() + y.last().value();
        let (m, k) = (T::min_value(), T::modulus());
        // wrap(sum(s1) + wrap(v)) == wrap(sum(s1) + v)
        lemma_wrap_add(v, sum_values(s1), m, k);
        // wrap(sum(s1) + v) == wrap(wrap(sum(s1)) + v) == wrap(sum(x1) + sum(y1) + v)
        lemma_wrap_add(sum_values(s1), v, m, k);
        lemma_wrap_add(sum_values(x1) + sum_values(y1), v, m, k);
        assert(sum_values(s1) + wrapped::<T>(v) == wrapped::<T>(v) + sum_values(s1));
        assert(sum_values(x1) + sum_values(y1) + v == sum_values(x) + sum_values(y));
    }
}

/// Reducing addition distributes over lane-wise addition: the sum of the
/// lanes of `a + b` is the sum of the lanes of `a` plus that of `b`, with
/// wrapping arithmetic.
pub proof fn law_reduce_add_of_sum<T: SimdElement, const N: usize>(a: Simd<T, N>, b: Simd<T, N>)
    ensures
        wrapped::<T>(sum_values(wrapping_sum(a, b)@)) == wrapped::<T>(
            wrapped::<T>(sum_values(a@)) + wrapped::<T>(sum_values(b@)),
        ),
{
    let (m, k) = (T::min_value(), T::modulus());
    T::lemma_range();
    lemma_wrapping_sum(a, b);
    lemma_sum_of_wrapped_sums(wrapping_sum(a, b)@, a@, b@);
    let (sa, sb) = (sum_values(a@), sum_values(b@));
    lemma_wrap_add(sa, wrapped::<T>(sb), m, k);
    lemma_wrap_add(sb, sa, m, k);
    assert(sa + wrapped::<T>(sb) == wrapped::<T>(sb) + sa);
    assert(sb + sa == sa + sb);
}

/// Shifting right by `amount` divides each lane by two to the amount taken
/// modulo the lane width, rounding down; on signed lanes a negative lane
/// stays negative (the shift is arithmetic).
pub proof fn law_shr_divides<T: SimdElement, const N: usize>(a: Simd<T, N>, amount: u32)
    ensures
        forall|i: int|
            0 <= i < N ==> (#[trigger] lanewise_shr(a, amount)@[i]).value() == a@[i].value() / (pow2(
                (amount % T::bits()) as nat,
            ) as int),
{
    lemma_from_lanes::<T, N>(Seq::new(N as nat, |i: int| a@[i].shr_bits(amount)));
    assert forall|i: int| 0 <= i < N implies (#[trigger] lanewise_shr(a, amount)@[i]).value() == a@[i].value()
        / (pow2((amount % T::bits()) as nat) as int) by {
        a@[i].lemma_shr_value(amount);
    }
}

/// Shifting left by `amount` multiplies each lane by two to the amount taken
/// modulo the lane width, wrapping into the lane type.
pub proof fn law_shl_multiplies<T: SimdElement, const N: usize>(a: Simd<T, N>, amount: u32)
    ensures
        forall|i: int|
            0 <= i < N ==> (#[trigger] lanewise_shl(a, amount)@[i]).value() == wrapped::<T>(
                a@[i].value() * pow2((amount % T::bits()) as nat),
            ),
{
    lemma_from_lanes::<T, N>(Seq::new(N as nat, |i: int| a@[i].shl_bits(amount)));
    assert forall|i: int| 0 <= i < N implies (#[trigger] lanewise_shl(a, amount)@[i]).value() == wrapped::<T>(
        a@[i].value() * pow2((amount % T::bits()) as nat),
    ) by {
        a@[i].lemma_shl_value(amount);
    }
}

/// Bitwise AND, OR and XOR work bit by bit on every bit of every lane.
pub proof fn law_and_or_xor_bits<T: SimdElement, const N: usize>(a: Simd<T, N>, b: Simd<T, N>, i: int, k: nat)
    requires
        0 <= i < N,
        k < T::bits(),
    ensures
        bit_of(lanewise_and(a, b)@[i].value(), k) == (bit_of(a@[i].value(), k) && bit_of(b@[i].value(), k)),
        bit_of(lanewise_or(a, b)@[i].value(), k) == (bit_of(a@[i].value(), k) || bit_of(b@[i].value(), k)),
        bit_of(lanewise_xor(a, b)@[i].value(), k) == (bit_of(a@[i].value(), k) != bit_of(b@[i].value(), k)),
{
    lemma_from_lanes::<T, N>(Seq::new(N as nat, |j: int| a@[j].bit_and(b@[j])));
    lemma_from_lanes::<T, N>(Seq::new(N as nat, |j: int| a@[j].bit_or(b@[j])));
    lemma_from_lanes::<T, N>(Seq::new(N as nat, |j: int| a@[j].bit_xor(b@[j])));
    a@[i].lemma_bitwise_bits(b@[i], k);
}

/// XOR with the same vector twice gives back the vector.
pub proof fn law_xor_twice<T: SimdElement, const N: usize>(a: Simd<T, N>, b: Simd<T, N>)
    ensures
        lanewise_xor(lanewise_xor(a, b), b) == a,
{
    let x = lanewise_xor(a, b);
    let y = lanewise_xor(x, b);
    lemma_from_lanes::<T, N>(Seq::new(N as nat, |j: int| a@[j].bit_xor(b@[j])));
    lemma_from_lanes::<T, N>(Seq::new(N as nat, |j: int| x@[j].bit_xor(b@[j])));
    assert forall|i: int| 0 <= i < N implies #[trigger] y@[i] == a@[i] by {
        assert forall|k: nat| k < T::bits() implies #[trigger] bit_of(y@[i].value(), k) == bit_of(a@[i].value(), k) by {
            a@[i].lemma_bitwise_bits(b@[i], k);
            x@[i].lemma_bitwise_bits(b@[i], k);
        }
        lemma_bits_determine(y@[i], a@[i]);
    }
    assert(y@ =~= a@);
    lemma_simd_ext(y, a);
}

/// NOT flips every bit of every lane; as an integer it is `-x - 1`,
/// wrapped into the lane type.
pub proof fn law_not_flips_bits<T: SimdElement, const N: usize>(a: Simd<T, N>, i: int, k: nat)
    requires
        0 <= i < N,
        k < T::bits(),
    ensures
        bit_of(lanewise_not(a)@[i].value(), k) == !bit_of(a@[i].value(), k),
        lanewise_not(a)@[i].value() == wrapped::<T>(-a@[i].value() - 1),
{
    lemma_lanewise_not(a);
    a@[i].lemma_bitwise_bits(a@[i], k);
    a@[i].lemma_not_value();
}

/// Bit `k` of a lane of `bit_select(mask, if_one, if_zero)` is that of
/// `if_one` where bit `k` of the mask is set, and that of `if_zero` where it
/// is clear, for any mask, not only for masks of whole lanes.
pub proof fn law_bit_select_bits<T: SimdElement, const N: usize>(
    mask: Simd<T, N>,
    if_one: Simd<T, N>,
    if_zero: Simd<T, N>,
    i: int,
    k: nat,
)
    requires
        0 <= i < N,
        k < T::bits(),
    ensures
        bit_of(bit_select(mask, if_one, if_zero)@[i].value(), k) == (if bit_of(mask@[i].value(), k) {
            bit_of(if_one@[i].value(), k)
        } else {
            bit_of(if_zero@[i].value(), k)
        }),
{
    lemma_from_lanes::<T, N>(Seq::new(N as nat, |j: int| bit_blend(mask@[j], if_one@[j], if_zero@[j])));
    let m = mask@[i];
    let a = if_one@[i];
    let b = if_zero@[i];
    a.lemma_bitwise_bits(m, k);
    m.lemma_bitwise_bits(m, k);
    b.lemma_bitwise_bits(m.bit_not(), k);
    a.bit_and(m).lemma_bitwise_bits(b.bit_and(m.bit_not()), k);
}

/// A lane is determined by its bits below the lane width.
pub proof fn lemma_bits_determine<T: SimdElement>(x: T, y: T)
    requires
        forall|k: nat| k < T::bits() ==> #[trigger] bit_of(x.value(), k) == bit_of(y.value(), k),
    ensures
        x == y,
{
    T::lemma_width();
    T::lemma_value(x, y);
    T::lemma_value(y, x);
    lemma_same_low_bits(x.value(), y.value(), T::min_value(), T::bits() as nat);
}

/// Halving then dividing by `d` is dividing by `2 * d`, and the remainder
/// modulo `2 * d` splits into the low bit and the rest, for every integer.
proof fn lemma_div_mod_two(x: int, d: int)
    requires
        d > 0,
    ensures
        (x / 2) / d == x / (2 * d),
        x % (2 * d) == 2 * ((x / 2) % d) + x % 2,
{
    let q1 = x / 2;
    let r1 = x % 2;
    let q2 = q1 / d;
    let r2 = q1 % d;
    vstd::arithmetic::div_mod::lemma_fundamental_div_mod(x, 2);
    vstd::arithmetic::div_mod::lemma_fundamental_div_mod(q1, d);
    vstd::arithmetic::div_mod::lemma_mod_bound(x, 2);
    vstd::arithmetic::div_mod::lemma_mod_bound(q1, d);
    assert(x == q2 * (2 * d) + (2 * r2 + r1) && 2 * r2 + r1 < 2 * d) by (nonlinear_arith)
        requires
            x == 2 * q1 + r1,
            q1 == d * q2 + r2,
            0 <= r1 < 2,
            0 <= r2 < d,
    ;
    vstd::arithmetic::div_mod::lemma_fundamental_div_mod_converse(x, 2 * d, q2, 2 * r2 + r1);
}

/// Integers with the same bits below `w` are congruent modulo two to the `w`.
proof fn lemma_low_bits_mod(x: int, y: int, w: nat)
    requires
        forall|k: nat| k < w ==> #[trigger] bit_of(x, k) == bit_of(y, k),
    ensures
        x % (pow2(w) as int) == y % (pow2(w) as int),
    decreases w,
{
    if w == 0 {
        vstd::arithmetic::power2::lemma2_to64();
    } else {
        lemma_pow2_unfold(w);
        let h = pow2((w - 1) as nat) as int;
        lemma_pow2_pos((w - 1) as nat);
        assert forall|k: nat| k < w - 1 implies #[trigger] bit_of(x / 2, k) == bit_of(y / 2, k) by {
            lemma_pow2_unfold(k + 1);
            lemma_pow2_pos(k);
            lemma_div_mod_two(x, pow2(k) as int);
            lemma_div_mod_two(y, pow2(k) as int);
            assert(bit_of(x, k + 1) == bit_of(y, k + 1));
        }
        lemma_low_bits_mod(x / 2, y / 2, (w - 1) as nat);
        vstd::arithmetic::power2::lemma2_to64();
        assert(bit_of(x, 0) == bit_of(y, 0));
        vstd::arithmetic::div_mod::lemma_mod_bound(x, 2);
        vstd::arithmetic::div_mod::lemma_mod_bound(y, 2);
        lemma_div_mod_two(x, h);
        lemma_div_mod_two(y, h);
    }
}

/// Integers in a range of length two to the `w` with the same bits below
/// `w` are equal.
proof fn lemma_same_low_bits(x: int, y: int, min: int, w: nat)
    requires
        forall|k: nat| k < w ==> #[trigger] bit_of(x, k) == bit_of(y, k),
        min <= x < min + pow2(w),
        min <= y < min + pow2(w),
    ensures
        x == y,
{
    lemma_low_bits_mod(x, y, w);
    lemma_pow2_pos(w);
    let m = pow2(w) as int;
    vstd::arithmetic::div_mod::lemma_fundamental_div_mod(x, m);
    vstd::arithmetic::div_mod::lemma_fundamental_div_mod(y, m);
    let d = x / m - y / m;
    assert(x - y == m * d) by (nonlinear_arith)
        requires
            x == m * (x / m) + x % m,
            y == m * (y / m) + y % m,
            x % m == y % m,
            d == x / m - y / m,
    ;
    if d >= 1 {
        assert(m * d >= m) by (nonlinear_arith)
            requires
                d >= 1,
                m > 0,
        ;
    } else if d <= -1 {
        assert(m * d <= -m) by (nonlinear_arith)
            requires
                d <= -1,
                m > 0,
        ;
    }
}

} // verus!
