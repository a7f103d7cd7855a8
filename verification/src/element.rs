//! The lane types of a [`Simd`](crate::simd::Simd) vector and the
//! operations that the vector applies to each lane.

use vstd::prelude::*;

use vstd::arithmetic::power2::{pow2, lemma2_to64, lemma_pow2_pos, lemma_pow2_adds, lemma_pow2_unfold};
use vstd::bits::{
    lemma_u8_shr_is_div,
    lemma_u16_shr_is_div,
    lemma_u32_shr_is_div,
    lemma_u64_shr_is_div,
    lemma_u64_shl_is_mul,
    lemma_u64_pow2_no_overflow,
};

verus! {

/// `x` reduced into the range `[min, min + modulus)`: the member of that
/// range congruent to `x` modulo `modulus`.
pub open spec fn wrap(x: int, min: int, modulus: int) -> int {
    (x - min) % modulus + min
}

/// `x` clamped into the range `[min, max]`.
pub open spec fn clamp(x: int, min: int, max: int) -> int {
    if x < min {
        min
    } else if x > max {
        max
    } else {
        x
    }
}

/// `x` reduced into the range of the lane type `T`, as wrapping arithmetic
/// on `T` does: the value of `T` congruent to `x` modulo `T::modulus()`.
pub open spec fn wrapped<T: SimdElement>(x: int) -> int {
    wrap(x, T::min_value(), T::modulus())
}

/// The largest value of the lane type `T`.
pub open spec fn max_value<T: SimdElement>() -> int {
    T::min_value() + T::modulus() - 1
}

/// `x` clamped into the range of the lane type `T`, as saturating
/// arithmetic on `T` does.
pub open spec fn clamped<T: SimdElement>(x: int) -> int {
    clamp(x, T::min_value(), max_value::<T>())
}

/// The lane of type `T` whose integer is `x` wrapped into the range of `T`.
pub open spec fn lane_of<T: SimdElement>(x: int) -> T {
    choose|t: T| t.value() == wrapped::<T>(x)
}

/// [`lane_of`] has the integer it is meant to have.
pub proof fn lemma_lane_of<T: SimdElement>(x: int)
    ensures
        lane_of::<T>(x).value() == wrapped::<T>(x),
{
    T::lemma_range();
    vstd::arithmetic::div_mod::lemma_mod_bound(x - T::min_value(), T::modulus());
    T::lemma_value_onto(wrapped::<T>(x));
}

/// The quotient of `x` by `d` rounded toward zero, as Rust's integer
/// division computes it.
pub open spec fn trunc_div(x: int, d: int) -> int {
    let q = (if x < 0 {
        -x
    } else {
        x
    }) / (if d < 0 {
        -d
    } else {
        d
    });
    if (x < 0) == (d < 0) {
        q
    } else {
        -q
    }
}

/// The remainder of the division of `x` by `d` rounded toward zero, as
/// Rust's `%` computes it: it has the sign of `x`.
pub open spec fn trunc_rem(x: int, d: int) -> int {
    x - d * trunc_div(x, d)
}

/// The truncating quotient and remainder case by case, with the bounds that
/// keep them in range.
pub proof fn lemma_trunc_div_rem(x: int, d: int)
    requires
        d != 0,
    ensures
        x >= 0 && d > 0 ==> trunc_div(x, d) == x / d && trunc_rem(x, d) == x % d,
        x < 0 && d < 0 ==> trunc_div(x, d) == (x * -1) / (d * -1) && trunc_rem(x, d) == ((x * -1) % (d
            * -1)) * -1,
        x < 0 && d > 0 ==> trunc_div(x, d) == ((x * -1) / d) * -1 && trunc_rem(x, d) == ((x * -1) % d)
            * -1,
        x >= 0 && d < 0 ==> trunc_div(x, d) == (x / (d * -1)) * -1 && trunc_rem(x, d) == x % (d * -1),
        x == 0 ==> trunc_div(x, d) == 0 && trunc_rem(x, d) == 0,
        d == -1 ==> trunc_div(x, d) == -x && trunc_rem(x, d) == 0,
        d != -1 && x >= 0 ==> -x <= trunc_div(x, d) <= x,
        d != -1 && x < 0 ==> x <= trunc_div(x, d) < -x,
        d > 0 ==> -d < trunc_rem(x, d) < d,
        d < 0 ==> d < trunc_rem(x, d) < -d,
{
    let a = if x < 0 {
        -x
    } else {
        x
    };
    let b = if d < 0 {
        -d
    } else {
        d
    };
    let q = a / b;
    vstd::arithmetic::div_mod::lemma_fundamental_div_mod(a, b);
    vstd::arithmetic::div_mod::lemma_mod_bound(a, b);
    vstd::arithmetic::div_mod::lemma_div_pos_is_pos(a, b);
    vstd::arithmetic::div_mod::lemma_div_is_ordered_by_denominator(a, 1, b);
    vstd::arithmetic::div_mod::lemma_div_basics(a);
    vstd::arithmetic::div_mod::lemma_div_basics(b);
    if a > 0 && b > 1 {
        vstd::arithmetic::div_mod::lemma_div_decreases(a, b);
    }
    assert(a == b * q + a % b);
    if (x < 0) == (d < 0) {
        assert(trunc_div(x, d) == q);
        if d < 0 {
            assert(d * q == -(b * q)) by (nonlinear_arith)
                requires
                    d == -b,
            ;
        } else {
            assert(d * q == b * q);
        }
    } else {
        assert(trunc_div(x, d) == -q);
        if d < 0 {
            assert(d * (-q) == b * q) by (nonlinear_arith)
                requires
                    d == -b,
            ;
        } else {
            assert(d * (-q) == -(b * q)) by (nonlinear_arith)
                requires
                    d == b,
            ;
        }
    }
}

/// Bit `k` of the two's complement representation of `x` (for a negative
/// `x`, the bits above its width are all set).
pub open spec fn bit_of(x: int, k: nat) -> bool {
    (x / (pow2(k) as int)) % 2 == 1
}

/// Adding two to the power `w` leaves every bit below `w` unchanged.
pub proof fn lemma_bit_of_add_pow2(x: int, k: nat, w: nat)
    requires
        k < w,
    ensures
        bit_of(x + pow2(w) as int, k) == bit_of(x, k),
{
    let e = (w - k) as nat;
    lemma_pow2_adds(k, e);
    assert(k + e == w);
    lemma_pow2_unfold(e);
    lemma_pow2_pos(k);
    let p = pow2(k);
    let h = pow2((e - 1) as nat) as int;
    assert(x + pow2(w) as int == x + (2 * h) * (p as int)) by (nonlinear_arith)
        requires
            pow2(w) == pow2(k) * pow2(e),
            pow2(e) == 2 * h,
            p == pow2(k),
    ;
    vstd::arithmetic::div_mod::lemma_hoist_over_denominator(x, 2 * h, p);
    vstd::arithmetic::div_mod::lemma_mod_multiples_vanish(h, x / (p as int), 2);
}

/// Rounding a negative quotient down, through the complement `-x - 1`.
pub proof fn lemma_floor_div_neg(x: int, p: int)
    requires
        x < 0,
        p > 0,
    ensures
        x / p == -((-x - 1) / p) - 1,
{
    let y = -x - 1;
    let q = y / p;
    let r = y % p;
    vstd::arithmetic::div_mod::lemma_fundamental_div_mod(y, p);
    vstd::arithmetic::div_mod::lemma_mod_bound(y, p);
    assert(x == (-q - 1) * p + (p - r - 1)) by (nonlinear_arith)
        requires
            y == p * q + r,
            y == -x - 1,
    ;
    vstd::arithmetic::div_mod::lemma_fundamental_div_mod_converse(x, p, -q - 1, p - r - 1);
}

/// A value already in the range is its own wrap.
pub proof fn lemma_wrap_in_range(v: int, min: int, m: int)
    requires
        min <= v < min + m,
    ensures
        wrap(v, min, m) == v,
{
    vstd::arithmetic::div_mod::lemma_small_mod((v - min) as nat, m as nat);
}

/// The lane that a comparison yields: all bits set for `true`, all bits
/// clear for `false`.
pub open spec fn mask_lane<T: SimdElement>(b: bool) -> T {
    if b {
        T::spec_ones()
    } else {
        T::spec_zero()
    }
}

/// A lane of a mask: either all bits set or all bits clear.
pub open spec fn is_mask_lane<T: SimdElement>(x: T) -> bool {
    x == T::spec_ones() || x == T::spec_zero()
}

/// The lane that bitwise selection yields: the bits of `if_one` where
/// `mask` has a one, and the bits of `if_zero` where it has a zero.
pub open spec fn bit_blend<T: SimdElement>(mask: T, if_one: T, if_zero: T) -> T {
    if_one.bit_and(mask).bit_or(if_zero.bit_and(mask.bit_not()))
}

trait Sealed {}

/// A type usable as the element of a SIMD vector: one of the primitive
/// integer types.
///
/// The trait is sealed: it is implemented for `i8`, `i16`, `i32`, `i64`,
/// `u8`, `u16`, `u32` and `u64`, and cannot be implemented elsewhere.
#[allow(private_bounds)]
pub trait SimdElement: Copy + Sized + Sealed {
    /// The smallest value of the type.
    spec fn min_value() -> int;

    /// The number of values of the type (two to the power of its width).
    spec fn modulus() -> int;

    /// The width of the type in bits.
    spec fn bits() -> u32;

    /// The integer that a value stands for.
    spec fn value(self) -> int;

    /// The value with all bits clear.
    spec fn spec_zero() -> Self;

    /// The value with all bits set.
    spec fn spec_ones() -> Self;

    /// Whether the most significant bit is set.
    spec fn top_bit(self) -> bool;

    /// Bitwise AND.
    spec fn bit_and(self, rhs: Self) -> Self;

    /// Bitwise OR.
    spec fn bit_or(self, rhs: Self) -> Self;

    /// Bitwise XOR.
    spec fn bit_xor(self, rhs: Self) -> Self;

    /// Bitwise NOT.
    spec fn bit_not(self) -> Self;

    /// Left shift by `amount` modulo the width.
    spec fn shl_bits(self, amount: u32) -> Self;

    /// Right shift (arithmetic for signed types) by `amount` modulo the width.
    spec fn shr_bits(self, amount: u32) -> Self;

    /// What remains of `self` when all its bits are shifted out to the right:
    /// all ones for a negative value of a signed type, zero otherwise.
    spec fn sign_fill(self) -> Self;

    /// The range of the type holds zero and one.
    proof fn lemma_range()
        ensures
            Self::modulus() > 1,
            Self::min_value() <= 0,
            Self::min_value() + Self::modulus() > 1,
    ;

    /// A value lies in the range of its type, and its integer determines it.
    proof fn lemma_value(self, other: Self)
        ensures
            Self::min_value() <= self.value() < Self::min_value() + Self::modulus(),
            (self.value() == other.value()) == (self == other),
    ;

    /// Every integer in the range of the type is the integer of a value.
    proof fn lemma_value_onto(x: int)
        requires
            Self::min_value() <= x < Self::min_value() + Self::modulus(),
        ensures
            exists|t: Self| t.value() == x,
    ;

    /// The width is the base-2 logarithm of the modulus, and the range starts
    /// less than one modulus below zero.
    proof fn lemma_width()
        ensures
            0 < Self::bits() <= 64,
            pow2(Self::bits() as nat) == Self::modulus(),
            -Self::modulus() < Self::min_value() <= 0,
    ;

    /// A left shift multiplies by two to the amount taken modulo the width,
    /// wrapping into the type.
    proof fn lemma_shl_value(self, amount: u32)
        ensures
            self.shl_bits(amount).value() == wrap(
                self.value() * pow2((amount % Self::bits()) as nat),
                Self::min_value(),
                Self::modulus(),
            ),
    ;

    /// A right shift divides by two to the amount taken modulo the width,
    /// rounding down: on a signed type a negative value stays negative (the
    /// shift is arithmetic).
    proof fn lemma_shr_value(self, amount: u32)
        ensures
            self.shr_bits(amount).value() == self.value() / (pow2((amount % Self::bits()) as nat) as int),
    ;

    /// What remains when all bits are shifted out to the right: -1 for a
    /// negative value, 0 otherwise.
    proof fn lemma_sign_fill_value(self)
        ensures
            self.sign_fill().value() == (if self.value() < 0 {
                -1int
            } else {
                0int
            }),
    ;

    /// NOT is `-x - 1`, wrapped into the type (on an unsigned type, the
    /// largest value minus `x`).
    proof fn lemma_not_value(self)
        ensures
            self.bit_not().value() == wrap(-self.value() - 1, Self::min_value(), Self::modulus()),
    ;

    /// The top bit is bit `bits() - 1` of the value: the sign bit on a signed
    /// type.
    proof fn lemma_top_bit_value(self)
        ensures
            self.top_bit() == bit_of(self.value(), (Self::bits() - 1) as nat),
    ;

    /// AND, OR, XOR and NOT work bit by bit on every bit of the width.
    proof fn lemma_bitwise_bits(self, rhs: Self, k: nat)
        requires
            k < Self::bits(),
        ensures
            bit_of(self.bit_and(rhs).value(), k) == (bit_of(self.value(), k) && bit_of(rhs.value(), k)),
            bit_of(self.bit_or(rhs).value(), k) == (bit_of(self.value(), k) || bit_of(rhs.value(), k)),
            bit_of(self.bit_xor(rhs).value(), k) == (bit_of(self.value(), k) != bit_of(rhs.value(), k)),
            bit_of(self.bit_not().value(), k) == !bit_of(self.value(), k),
    ;

    /// Facts about the two mask lanes.
    proof fn lemma_masks()
        ensures
            Self::spec_zero().value() == 0,
            !Self::spec_zero().top_bit(),
            Self::spec_ones().top_bit(),
            Self::spec_ones().bit_not() == Self::spec_zero(),
            Self::spec_zero().bit_not() == Self::spec_ones(),
    ;

    /// Bitwise selection by a mask lane selects a whole lane.
    proof fn lemma_blend_mask(mask: Self, if_one: Self, if_zero: Self)
        requires
            mask == Self::spec_ones() || mask == Self::spec_zero(),
        ensures
            if_one.bit_and(mask).bit_or(if_zero.bit_and(mask.bit_not())) == (if mask == Self::spec_ones() {
                if_one
            } else {
                if_zero
            }),
    ;

    /// The value with all bits clear.
    fn zero() -> (r: Self)
        ensures
            r == Self::spec_zero(),
    ;

    /// The value with all bits set.
    fn ones() -> (r: Self)
        ensures
            r == Self::spec_ones(),
    ;

    /// The width of the type in bits.
    fn lane_bits() -> (r: u32)
        ensures
            r == Self::bits(),
    ;

    /// What remains when all bits are shifted out to the right.
    fn lane_sign_fill(self) -> (r: Self)
        ensures
            r == self.sign_fill(),
    ;

    /// The value one.
    fn one() -> (r: Self)
        ensures
            r.value() == 1,
    ;

    /// Equality of two lanes.
    fn lane_eq(self, rhs: Self) -> (r: bool)
        ensures
            r == (self == rhs),
    ;

    /// Whether `self` is less than `rhs`.
    fn lane_lt(self, rhs: Self) -> (r: bool)
        ensures
            r == (self.value() < rhs.value()),
    ;

    /// Whether the most significant bit is set.
    fn lane_top_bit(self) -> (r: bool)
        ensures
            r == self.top_bit(),
    ;

    /// Wrapping addition.
    fn lane_add(self, rhs: Self) -> (r: Self)
        ensures
            r.value() == wrap(self.value() + rhs.value(), Self::min_value(), Self::modulus()),
    ;

    /// Wrapping subtraction.
    fn lane_sub(self, rhs: Self) -> (r: Self)
        ensures
            r.value() == wrap(self.value() - rhs.value(), Self::min_value(), Self::modulus()),
    ;

    /// Wrapping multiplication.
    fn lane_mul(self, rhs: Self) -> (r: Self)
        ensures
            r.value() == wrap(self.value() * rhs.value(), Self::min_value(), Self::modulus()),
    ;

    /// Division rounded toward zero, wrapping: the one quotient out of range,
    /// the minimum divided by -1, wraps to the minimum.
    fn lane_div(self, rhs: Self) -> (r: Self)
        requires
            rhs.value() != 0,
        ensures
            r.value() == wrap(trunc_div(self.value(), rhs.value()), Self::min_value(), Self::modulus()),
    ;

    /// The remainder of the division rounded toward zero; the minimum
    /// modulo -1 is 0.
    fn lane_rem(self, rhs: Self) -> (r: Self)
        requires
            rhs.value() != 0,
        ensures
            r.value() == trunc_rem(self.value(), rhs.value()),
    ;

    /// Wrapping negation.
    fn lane_neg(self) -> (r: Self)
        ensures
            r.value() == wrap(-self.value(), Self::min_value(), Self::modulus()),
    ;

    /// Wrapping absolute value.
    fn lane_abs(self) -> (r: Self)
        ensures
            r.value() == wrap(if self.value() < 0 {
                -self.value()
            } else {
                self.value()
            }, Self::min_value(), Self::modulus()),
    ;

    /// Saturating addition.
    fn lane_saturating_add(self, rhs: Self) -> (r: Self)
        ensures
            r.value() == clamp(self.value() + rhs.value(), Self::min_value(), Self::min_value() + Self::modulus() - 1),
    ;

    /// Saturating subtraction.
    fn lane_saturating_sub(self, rhs: Self) -> (r: Self)
        ensures
            r.value() == clamp(self.value() - rhs.value(), Self::min_value(), Self::min_value() + Self::modulus() - 1),
    ;

    /// Bitwise AND.
    fn lane_and(self, rhs: Self) -> (r: Self)
        ensures
            r == self.bit_and(rhs),
    ;

    /// Bitwise OR.
    fn lane_or(self, rhs: Self) -> (r: Self)
        ensures
            r == self.bit_or(rhs),
    ;

    /// Bitwise XOR.
    fn lane_xor(self, rhs: Self) -> (r: Self)
        ensures
            r == self.bit_xor(rhs),
    ;

    /// Bitwise NOT.
    fn lane_not(self) -> (r: Self)
        ensures
            r == self.bit_not(),
    ;

    /// Wrapping left shift.
    fn lane_shl(self, amount: u32) -> (r: Self)
        ensures
            r == self.shl_bits(amount),
    ;

    /// Wrapping right shift.
    fn lane_shr(self, amount: u32) -> (r: Self)
        ensures
            r == self.shr_bits(amount),
    ;
}


/// Wrapping after each addition is wrapping once at the end.
pub proof fn lemma_wrap_add(x: int, v: int, min: int, modulus: int)
    requires
        modulus > 0,
    ensures
        wrap(wrap(x, min, modulus) + v, min, modulus) == wrap(x + v, min, modulus),
{
    vstd::arithmetic::div_mod::lemma_add_mod_noop(x - min, v, modulus);
    vstd::arithmetic::div_mod::lemma_mod_twice(x - min, modulus);
    vstd::arithmetic::div_mod::lemma_add_mod_noop((x - min) % modulus, v, modulus);
}

/// Wrapping after each multiplication is wrapping once at the end.
pub proof fn lemma_wrap_mul(x: int, v: int, min: int, modulus: int)
    requires
        modulus > 0,
    ensures
        wrap(wrap(x, min, modulus) * v, min, modulus) == wrap(x * v, min, modulus),
{
    let a = x - min;
    let q = a / modulus;
    vstd::arithmetic::div_mod::lemma_fundamental_div_mod(a, modulus);
    let lhs = (a % modulus + min) * v - min;
    let rhs = x * v - min;
    assert(lhs == modulus * (-(q * v)) + rhs) by (nonlinear_arith)
        requires
            a == modulus * q + a % modulus,
            a == x - min,
            lhs == (a % modulus + min) * v - min,
            rhs == x * v - min,
    ;
    vstd::arithmetic::div_mod::lemma_mod_multiples_vanish(-(q * v), rhs, modulus);
}

/// Wrapping a product as `i*::wrapping_mul` specifies it (the residue moved
/// into the signed range) agrees with [`wrapped`].
proof fn lemma_signed_crop(x: int, m: int, half: int)
    requires
        m == 2 * half,
        half > 0,
    ensures
        (if x % m > half - 1 {
            x % m - m
        } else {
            x % m
        }) == (x + half) % m - half,
{
    vstd::arithmetic::div_mod::lemma_add_mod_noop(x, half, m);
    vstd::arithmetic::div_mod::lemma_mod_bound(x, m);
    vstd::arithmetic::div_mod::lemma_small_mod(half as nat, m as nat);
    let y = x % m + half;
    if y < m {
        vstd::arithmetic::div_mod::lemma_small_mod(y as nat, m as nat);
    } else {
        vstd::arithmetic::div_mod::lemma_mod_self_0(m);
        vstd::arithmetic::div_mod::lemma_add_mod_noop(y - m, m, m);
        vstd::arithmetic::div_mod::lemma_small_mod((y - m) as nat, m as nat);
    }
}

/// Bit-level facts about shifts and NOT on `u8`.
proof fn lemma_u8_int_facts(x: u8, s: u32)
    by (bit_vector)
    requires
        s < 8u32,
    ensures
        x >> s == x >> (s as u8),
        (x << s) as int == ((x as int) * ((1u64 << (s as u64)) as int)) % 0x100,
        (!x) as int == 0xff - (x as int),
{
}

/// Bit-level facts about single bits of `u8`.
proof fn lemma_u8_bit_facts(x: u8, y: u8, kk: u8)
    by (bit_vector)
    requires
        kk < 8u8,
    ensures
        (x % 2 == 1) == (x & 1 == 1),
        ((((x & y) >> kk) & 1) == 1) == ((((x >> kk) & 1) == 1) && (((y >> kk) & 1) == 1)),
        ((((x | y) >> kk) & 1) == 1) == ((((x >> kk) & 1) == 1) || (((y >> kk) & 1) == 1)),
        ((((x ^ y) >> kk) & 1) == 1) == ((((x >> kk) & 1) == 1) != (((y >> kk) & 1) == 1)),
        ((((!x) >> kk) & 1) == 1) == !(((x >> kk) & 1) == 1),
        (x >= 0x80) == (((x >> (8u8 - 1)) & 1) == 1),
{
}

/// Bit `k` of a `u8` is the low bit of its right shift by `k`.
proof fn lemma_u8_bit(x: u8, k: nat)
    requires
        k < 8u32,
    ensures
        bit_of(x as int, k) == (((x >> (k as u8)) & 1) == 1),
{
    lemma_u8_shr_is_div(x, k as u8);
    lemma_u8_bit_facts(x >> (k as u8), x, 0);
}

impl Sealed for u8 {}

impl SimdElement for u8 {
    open spec fn min_value() -> int {
        0
    }

    open spec fn modulus() -> int {
        0x100
    }

    open spec fn value(self) -> int {
        self as int
    }

    open spec fn spec_zero() -> Self {
        0
    }

    open spec fn spec_ones() -> Self {
        0xff
    }

    open spec fn top_bit(self) -> bool {
        self >= 0x80
    }

    open spec fn bit_and(self, rhs: Self) -> Self {
        self & rhs
    }

    open spec fn bit_or(self, rhs: Self) -> Self {
        self | rhs
    }

    open spec fn bit_xor(self, rhs: Self) -> Self {
        self ^ rhs
    }

    open spec fn bit_not(self) -> Self {
        !self
    }

    open spec fn shl_bits(self, amount: u32) -> Self {
        self << (amount % 8u32)
    }

    open spec fn shr_bits(self, amount: u32) -> Self {
        self >> (amount % 8u32)
    }

    open spec fn bits() -> u32 {
        8u32
    }

    open spec fn sign_fill(self) -> Self {
        0
    }

    proof fn lemma_range() {
    }

    proof fn lemma_width() {
        lemma2_to64();
    }

    proof fn lemma_shl_value(self, amount: u32) {
        let s = amount % 8u32;
        lemma_u64_pow2_no_overflow(s as nat);
        lemma_u64_shl_is_mul(1u64, s as u64);
        lemma_u8_int_facts(self, s);
    }

    proof fn lemma_shr_value(self, amount: u32) {
        let s = amount % 8u32;
        lemma_u8_shr_is_div(self, s as u8);
        lemma_u8_int_facts(self, s);
    }

    proof fn lemma_sign_fill_value(self) {
    }

    proof fn lemma_top_bit_value(self) {
        lemma_u8_bit(self, (8u32 - 1) as nat);
        lemma_u8_bit_facts(self, self, 0);
    }

    proof fn lemma_not_value(self) {
        lemma_u8_int_facts(self, 0);
        vstd::arithmetic::div_mod::lemma_mod_sub_multiples_vanish(0xff - (self as int), 0x100);
        vstd::arithmetic::div_mod::lemma_small_mod((0xff - (self as int)) as nat, 0x100);
    }

    proof fn lemma_bitwise_bits(self, rhs: Self, k: nat) {
        lemma_u8_bit(self, k);
        lemma_u8_bit(rhs, k);
        lemma_u8_bit(self & rhs, k);
        lemma_u8_bit(self | rhs, k);
        lemma_u8_bit(self ^ rhs, k);
        lemma_u8_bit(!self, k);
        lemma_u8_bit_facts(self, rhs, k as u8);
    }

    proof fn lemma_value(self, other: Self) {
    }

    proof fn lemma_value_onto(x: int) {
        assert((x as u8).value() == x);
    }

    proof fn lemma_masks() {
        assert(!0xffu8 == 0u8 && !0u8 == 0xffu8) by (bit_vector);
    }

    proof fn lemma_blend_mask(mask: Self, if_one: Self, if_zero: Self) {
        assert((if_one & mask) | (if_zero & !mask) == (if mask == 0xffu8 {
            if_one
        } else {
            if_zero
        })) by (bit_vector)
            requires
                mask == 0xffu8 || mask == 0u8,
        ;
    }

    fn zero() -> (r: Self) {
        0
    }

    fn ones() -> (r: Self) {
        u8::MAX
    }

    fn lane_bits() -> (r: u32) {
        8u32
    }

    fn lane_sign_fill(self) -> (r: Self) {
        0
    }

    fn one() -> (r: Self) {
        1
    }

    fn lane_eq(self, rhs: Self) -> (r: bool) {
        self == rhs
    }

    fn lane_lt(self, rhs: Self) -> (r: bool) {
        self < rhs
    }

    fn lane_top_bit(self) -> (r: bool) {
        self >= 0x80
    }

    fn lane_add(self, rhs: Self) -> (r: Self) {
        self.wrapping_add(rhs)
    }

    fn lane_sub(self, rhs: Self) -> (r: Self) {
        self.wrapping_sub(rhs)
    }

    fn lane_mul(self, rhs: Self) -> (r: Self) {
        self.wrapping_mul(rhs)
    }

    fn lane_div(self, rhs: Self) -> (r: Self) {
        proof {
            lemma_trunc_div_rem(self as int, rhs as int);
            vstd::arithmetic::div_mod::lemma_small_mod((self / rhs) as nat, 0x100);
        }
        self / rhs
    }

    fn lane_rem(self, rhs: Self) -> (r: Self) {
        proof {
            lemma_trunc_div_rem(self as int, rhs as int);
        }
        self % rhs
    }

    fn lane_neg(self) -> (r: Self) {
        0u8.wrapping_sub(self)
    }

    fn lane_abs(self) -> (r: Self) {
        self
    }

    fn lane_saturating_add(self, rhs: Self) -> (r: Self) {
        self.saturating_add(rhs)
    }

    fn lane_saturating_sub(self, rhs: Self) -> (r: Self) {
        self.saturating_sub(rhs)
    }

    fn lane_and(self, rhs: Self) -> (r: Self) {
        self & rhs
    }

    fn lane_or(self, rhs: Self) -> (r: Self) {
        self | rhs
    }

    fn lane_xor(self, rhs: Self) -> (r: Self) {
        self ^ rhs
    }

    fn lane_not(self) -> (r: Self) {
        !self
    }

    fn lane_shl(self, amount: u32) -> (r: Self) {
        self.wrapping_shl(amount)
    }

    fn lane_shr(self, amount: u32) -> (r: Self) {
        self.wrapping_shr(amount)
    }
}

/// Bit-level facts about shifts and NOT on `u16`.
proof fn lemma_u16_int_facts(x: u16, s: u32)
    by (bit_vector)
    requires
        s < 16u32,
    ensures
        x >> s == x >> (s as u16),
        (x << s) as int == ((x as int) * ((1u64 << (s as u64)) as int)) % 0x1_0000,
        (!x) as int == 0xffff - (x as int),
{
}

/// Bit-level facts about single bits of `u16`.
proof fn lemma_u16_bit_facts(x: u16, y: u16, kk: u16)
    by (bit_vector)
    requires
        kk < 16u16,
    ensures
        (x % 2 == 1) == (x & 1 == 1),
        ((((x & y) >> kk) & 1) == 1) == ((((x >> kk) & 1) == 1) && (((y >> kk) & 1) == 1)),
        ((((x | y) >> kk) & 1) == 1) == ((((x >> kk) & 1) == 1) || (((y >> kk) & 1) == 1)),
        ((((x ^ y) >> kk) & 1) == 1) == ((((x >> kk) & 1) == 1) != (((y >> kk) & 1) == 1)),
        ((((!x) >> kk) & 1) == 1) == !(((x >> kk) & 1) == 1),
        (x >= 0x8000) == (((x >> (16u16 - 1)) & 1) == 1),
{
}

/// Bit `k` of a `u16` is the low bit of its right shift by `k`.
proof fn lemma_u16_bit(x: u16, k: nat)
    requires
        k < 16u32,
    ensures
        bit_of(x as int, k) == (((x >> (k as u16)) & 1) == 1),
{
    lemma_u16_shr_is_div(x, k as u16);
    lemma_u16_bit_facts(x >> (k as u16), x, 0);
}

impl Sealed for u16 {}

impl SimdElement for u16 {
    open spec fn min_value() -> int {
        0
    }

    open spec fn modulus() -> int {
        0x1_0000
    }

    open spec fn value(self) -> int {
        self as int
    }

    open spec fn spec_zero() -> Self {
        0
    }

    open spec fn spec_ones() -> Self {
        0xffff
    }

    open spec fn top_bit(self) -> bool {
        self >= 0x8000
    }

    open spec fn bit_and(self, rhs: Self) -> Self {
        self & rhs
    }

    open spec fn bit_or(self, rhs: Self) -> Self {
        self | rhs
    }

    open spec fn bit_xor(self, rhs: Self) -> Self {
        self ^ rhs
    }

    open spec fn bit_not(self) -> Self {
        !self
    }

    open spec fn shl_bits(self, amount: u32) -> Self {
        self << (amount % 16u32)
    }

    open spec fn shr_bits(self, amount: u32) -> Self {
        self >> (amount % 16u32)
    }

    open spec fn bits() -> u32 {
        16u32
    }

    open spec fn sign_fill(self) -> Self {
        0
    }

    proof fn lemma_range() {
    }

    proof fn lemma_width() {
        lemma2_to64();
    }

    proof fn lemma_shl_value(self, amount: u32) {
        let s = amount % 16u32;
        lemma_u64_pow2_no_overflow(s as nat);
        lemma_u64_shl_is_mul(1u64, s as u64);
        lemma_u16_int_facts(self, s);
    }

    proof fn lemma_shr_value(self, amount: u32) {
        let s = amount % 16u32;
        lemma_u16_shr_is_div(self, s as u16);
        lemma_u16_int_facts(self, s);
    }

    proof fn lemma_sign_fill_value(self) {
    }

    proof fn lemma_top_bit_value(self) {
        lemma_u16_bit(self, (16u32 - 1) as nat);
        lemma_u16_bit_facts(self, self, 0);
    }

    proof fn lemma_not_value(self) {
        lemma_u16_int_facts(self, 0);
        vstd::arithmetic::div_mod::lemma_mod_sub_multiples_vanish(0xffff - (self as int), 0x1_0000);
        vstd::arithmetic::div_mod::lemma_small_mod((0xffff - (self as int)) as nat, 0x1_0000);
    }

    proof fn lemma_bitwise_bits(self, rhs: Self, k: nat) {
        lemma_u16_bit(self, k);
        lemma_u16_bit(rhs, k);
        lemma_u16_bit(self & rhs, k);
        lemma_u16_bit(self | rhs, k);
        lemma_u16_bit(self ^ rhs, k);
        lemma_u16_bit(!self, k);
        lemma_u16_bit_facts(self, rhs, k as u16);
    }

    proof fn lemma_value(self, other: Self) {
    }

    proof fn lemma_value_onto(x: int) {
        assert((x as u16).value() == x);
    }

    proof fn lemma_masks() {
        assert(!0xffffu16 == 0u16 && !0u16 == 0xffffu16) by (bit_vector);
    }

    proof fn lemma_blend_mask(mask: Self, if_one: Self, if_zero: Self) {
        assert((if_one & mask) | (if_zero & !mask) == (if mask == 0xffffu16 {
            if_one
        } else {
            if_zero
        })) by (bit_vector)
            requires
                mask == 0xffffu16 || mask == 0u16,
        ;
    }

    fn zero() -> (r: Self) {
        0
    }

    fn ones() -> (r: Self) {
        u16::MAX
    }

    fn lane_bits() -> (r: u32) {
        16u32
    }

    fn lane_sign_fill(self) -> (r: Self) {
        0
    }

    fn one() -> (r: Self) {
        1
    }

    fn lane_eq(self, rhs: Self) -> (r: bool) {
        self == rhs
    }

    fn lane_lt(self, rhs: Self) -> (r: bool) {
        self < rhs
    }

    fn lane_top_bit(self) -> (r: bool) {
        self >= 0x8000
    }

    fn lane_add(self, rhs: Self) -> (r: Self) {
        self.wrapping_add(rhs)
    }

    fn lane_sub(self, rhs: Self) -> (r: Self) {
        self.wrapping_sub(rhs)
    }

    fn lane_mul(self, rhs: Self) -> (r: Self) {
        self.wrapping_mul(rhs)
    }

    fn lane_div(self, rhs: Self) -> (r: Self) {
        proof {
            lemma_trunc_div_rem(self as int, rhs as int);
            vstd::arithmetic::div_mod::lemma_small_mod((self / rhs) as nat, 0x1_0000);
        }
        self / rhs
    }

    fn lane_rem(self, rhs: Self) -> (r: Self) {
        proof {
            lemma_trunc_div_rem(self as int, rhs as int);
        }
        self % rhs
    }

    fn lane_neg(self) -> (r: Self) {
        0u16.wrapping_sub(self)
    }

    fn lane_abs(self) -> (r: Self) {
        self
    }

    fn lane_saturating_add(self, rhs: Self) -> (r: Self) {
        self.saturating_add(rhs)
    }

    fn lane_saturating_sub(self, rhs: Self) -> (r: Self) {
        self.saturating_sub(rhs)
    }

    fn lane_and(self, rhs: Self) -> (r: Self) {
        self & rhs
    }

    fn lane_or(self, rhs: Self) -> (r: Self) {
        self | rhs
    }

    fn lane_xor(self, rhs: Self) -> (r: Self) {
        self ^ rhs
    }

    fn lane_not(self) -> (r: Self) {
        !self
    }

    fn lane_shl(self, amount: u32) -> (r: Self) {
        self.wrapping_shl(amount)
    }

    fn lane_shr(self, amount: u32) -> (r: Self) {
        self.wrapping_shr(amount)
    }
}

/// Bit-level facts about shifts and NOT on `u32`.
proof fn lemma_u32_int_facts(x: u32, s: u32)
    by (bit_vector)
    requires
        s < 32u32,
    ensures
        x >> s == x >> (s as u32),
        (x << s) as int == ((x as int) * ((1u64 << (s as u64)) as int)) % 0x1_0000_0000,
        (!x) as int == 0xffff_ffff - (x as int),
{
}

/// Bit-level facts about single bits of `u32`.
proof fn lemma_u32_bit_facts(x: u32, y: u32, kk: u32)
    by (bit_vector)
    requires
        kk < 32u32,
    ensures
        (x % 2 == 1) == (x & 1 == 1),
        ((((x & y) >> kk) & 1) == 1) == ((((x >> kk) & 1) == 1) && (((y >> kk) & 1) == 1)),
        ((((x | y) >> kk) & 1) == 1) == ((((x >> kk) & 1) == 1) || (((y >> kk) & 1) == 1)),
        ((((x ^ y) >> kk) & 1) == 1) == ((((x >> kk) & 1) == 1) != (((y >> kk) & 1) == 1)),
        ((((!x) >> kk) & 1) == 1) == !(((x >> kk) & 1) == 1),
        (x >= 0x8000_0000) == (((x >> (32u32 - 1)) & 1) == 1),
{
}

/// Bit `k` of a `u32` is the low bit of its right shift by `k`.
proof fn lemma_u32_bit(x: u32, k: nat)
    requires
        k < 32u32,
    ensures
        bit_of(x as int, k) == (((x >> (k as u32)) & 1) == 1),
{
    lemma_u32_shr_is_div(x, k as u32);
    lemma_u32_bit_facts(x >> (k as u32), x, 0);
}

impl Sealed for u32 {}

impl SimdElement for u32 {
    open spec fn min_value() -> int {
        0
    }

    open spec fn modulus() -> int {
        0x1_0000_0000
    }

    open spec fn value(self) -> int {
        self as int
    }

    open spec fn spec_zero() -> Self {
        0
    }

    open spec fn spec_ones() -> Self {
        0xffff_ffff
    }

    open spec fn top_bit(self) -> bool {
        self >= 0x8000_0000
    }

    open spec fn bit_and(self, rhs: Self) -> Self {
        self & rhs
    }

    open spec fn bit_or(self, rhs: Self) -> Self {
        self | rhs
    }

    open spec fn bit_xor(self, rhs: Self) -> Self {
        self ^ rhs
    }

    open spec fn bit_not(self) -> Self {
        !self
    }

    open spec fn shl_bits(self, amount: u32) -> Self {
        self << (amount % 32u32)
    }

    open spec fn shr_bits(self, amount: u32) -> Self {
        self >> (amount % 32u32)
    }

    open spec fn bits() -> u32 {
        32u32
    }

    open spec fn sign_fill(self) -> Self {
        0
    }

    proof fn lemma_range() {
    }

    proof fn lemma_width() {
        lemma2_to64();
    }

    proof fn lemma_shl_value(self, amount: u32) {
        let s = amount % 32u32;
        lemma_u64_pow2_no_overflow(s as nat);
        lemma_u64_shl_is_mul(1u64, s as u64);
        lemma_u32_int_facts(self, s);
    }

    proof fn lemma_shr_value(self, amount: u32) {
        let s = amount % 32u32;
        lemma_u32_shr_is_div(self, s as u32);
        lemma_u32_int_facts(self, s);
    }

    proof fn lemma_sign_fill_value(self) {
    }

    proof fn lemma_top_bit_value(self) {
        lemma_u32_bit(self, (32u32 - 1) as nat);
        lemma_u32_bit_facts(self, self, 0);
    }

    proof fn lemma_not_value(self) {
        lemma_u32_int_facts(self, 0);
        vstd::arithmetic::div_mod::lemma_mod_sub_multiples_vanish(0xffff_ffff - (self as int), 0x1_0000_0000);
        vstd::arithmetic::div_mod::lemma_small_mod((0xffff_ffff - (self as int)) as nat, 0x1_0000_0000);
    }

    proof fn lemma_bitwise_bits(self, rhs: Self, k: nat) {
        lemma_u32_bit(self, k);
        lemma_u32_bit(rhs, k);
        lemma_u32_bit(self & rhs, k);
        lemma_u32_bit(self | rhs, k);
        lemma_u32_bit(self ^ rhs, k);
        lemma_u32_bit(!self, k);
        lemma_u32_bit_facts(self, rhs, k as u32);
    }

    proof fn lemma_value(self, other: Self) {
    }

    proof fn lemma_value_onto(x: int) {
        assert((x as u32).value() == x);
    }

    proof fn lemma_masks() {
        assert(!0xffff_ffffu32 == 0u32 && !0u32 == 0xffff_ffffu32) by (bit_vector);
    }

    proof fn lemma_blend_mask(mask: Self, if_one: Self, if_zero: Self) {
        assert((if_one & mask) | (if_zero & !mask) == (if mask == 0xffff_ffffu32 {
            if_one
        } else {
            if_zero
        })) by (bit_vector)
            requires
                mask == 0xffff_ffffu32 || mask == 0u32,
        ;
    }

    fn zero() -> (r: Self) {
        0
    }

    fn ones() -> (r: Self) {
        u32::MAX
    }

    fn lane_bits() -> (r: u32) {
        32u32
    }

    fn lane_sign_fill(self) -> (r: Self) {
        0
    }

    fn one() -> (r: Self) {
        1
    }

    fn lane_eq(self, rhs: Self) -> (r: bool) {
        self == rhs
    }

    fn lane_lt(self, rhs: Self) -> (r: bool) {
        self < rhs
    }

    fn lane_top_bit(self) -> (r: bool) {
        self >= 0x8000_0000
    }

    fn lane_add(self, rhs: Self) -> (r: Self) {
        self.wrapping_add(rhs)
    }

    fn lane_sub(self, rhs: Self) -> (r: Self) {
        self.wrapping_sub(rhs)
    }

    fn lane_mul(self, rhs: Self) -> (r: Self) {
        self.wrapping_mul(rhs)
    }

    fn lane_div(self, rhs: Self) -> (r: Self) {
        proof {
            lemma_trunc_div_rem(self as int, rhs as int);
            vstd::arithmetic::div_mod::lemma_small_mod((self / rhs) as nat, 0x1_0000_0000);
        }
        self / rhs
    }

    fn lane_rem(self, rhs: Self) -> (r: Self) {
        proof {
            lemma_trunc_div_rem(self as int, rhs as int);
        }
        self % rhs
    }

    fn lane_neg(self) -> (r: Self) {
        0u32.wrapping_sub(self)
    }

    fn lane_abs(self) -> (r: Self) {
        self
    }

    fn lane_saturating_add(self, rhs: Self) -> (r: Self) {
        self.saturating_add(rhs)
    }

    fn lane_saturating_sub(self, rhs: Self) -> (r: Self) {
        self.saturating_sub(rhs)
    }

    fn lane_and(self, rhs: Self) -> (r: Self) {
        self & rhs
    }

    fn lane_or(self, rhs: Self) -> (r: Self) {
        self | rhs
    }

    fn lane_xor(self, rhs: Self) -> (r: Self) {
        self ^ rhs
    }

    fn lane_not(self) -> (r: Self) {
        !self
    }

    fn lane_shl(self, amount: u32) -> (r: Self) {
        self.wrapping_shl(amount)
    }

    fn lane_shr(self, amount: u32) -> (r: Self) {
        self.wrapping_shr(amount)
    }
}

/// Bit-level facts about shifts and NOT on `u64`.
proof fn lemma_u64_int_facts(x: u64, s: u32)
    by (bit_vector)
    requires
        s < 64u32,
    ensures
        x >> s == x >> (s as u64),
        (x << s) as int == ((x as int) * ((1u64 << (s as u64)) as int)) % 0x1_0000_0000_0000_0000,
        (!x) as int == 0xffff_ffff_ffff_ffff - (x as int),
{
}

/// Bit-level facts about single bits of `u64`.
proof fn lemma_u64_bit_facts(x: u64, y: u64, kk: u64)
    by (bit_vector)
    requires
        kk < 64u64,
    ensures
        (x % 2 == 1) == (x & 1 == 1),
        ((((x & y) >> kk) & 1) == 1) == ((((x >> kk) & 1) == 1) && (((y >> kk) & 1) == 1)),
        ((((x | y) >> kk) & 1) == 1) == ((((x >> kk) & 1) == 1) || (((y >> kk) & 1) == 1)),
        ((((x ^ y) >> kk) & 1) == 1) == ((((x >> kk) & 1) == 1) != (((y >> kk) & 1) == 1)),
        ((((!x) >> kk) & 1) == 1) == !(((x >> kk) & 1) == 1),
        (x >= 0x8000_0000_0000_0000) == (((x >> (64u64 - 1)) & 1) == 1),
{
}

/// Bit `k` of a `u64` is the low bit of its right shift by `k`.
proof fn lemma_u64_bit(x: u64, k: nat)
    requires
        k < 64u32,
    ensures
        bit_of(x as int, k) == (((x >> (k as u64)) & 1) == 1),
{
    lemma_u64_shr_is_div(x, k as u64);
    lemma_u64_bit_facts(x >> (k as u64), x, 0);
}

impl Sealed for u64 {}

impl SimdElement for u64 {
    open spec fn min_value() -> int {
        0
    }

    open spec fn modulus() -> int {
        0x1_0000_0000_0000_0000
    }

    open spec fn value(self) -> int {
        self as int
    }

    open spec fn spec_zero() -> Self {
        0
    }

    open spec fn spec_ones() -> Self {
        0xffff_ffff_ffff_ffff
    }

    open spec fn top_bit(self) -> bool {
        self >= 0x8000_0000_0000_0000
    }

    open spec fn bit_and(self, rhs: Self) -> Self {
        self & rhs
    }

    open spec fn bit_or(self, rhs: Self) -> Self {
        self | rhs
    }

    open spec fn bit_xor(self, rhs: Self) -> Self {
        self ^ rhs
    }

    open spec fn bit_not(self) -> Self {
        !self
    }

    open spec fn shl_bits(self, amount: u32) -> Self {
        self << (amount % 64u32)
    }

    open spec fn shr_bits(self, amount: u32) -> Self {
        self >> (amount % 64u32)
    }

    open spec fn bits() -> u32 {
        64u32
    }

    open spec fn sign_fill(self) -> Self {
        0
    }

    proof fn lemma_range() {
    }

    proof fn lemma_width() {
        lemma2_to64();
    }

    proof fn lemma_shl_value(self, amount: u32) {
        let s = amount % 64u32;
        lemma_u64_pow2_no_overflow(s as nat);
        lemma_u64_shl_is_mul(1u64, s as u64);
        lemma_u64_int_facts(self, s);
    }

    proof fn lemma_shr_value(self, amount: u32) {
        let s = amount % 64u32;
        lemma_u64_shr_is_div(self, s as u64);
        lemma_u64_int_facts(self, s);
    }

    proof fn lemma_sign_fill_value(self) {
    }

    proof fn lemma_top_bit_value(self) {
        lemma_u64_bit(self, (64u32 - 1) as nat);
        lemma_u64_bit_facts(self, self, 0);
    }

    proof fn lemma_not_value(self) {
        lemma_u64_int_facts(self, 0);
        vstd::arithmetic::div_mod::lemma_mod_sub_multiples_vanish(0xffff_ffff_ffff_ffff - (self as int), 0x1_0000_0000_0000_0000);
        vstd::arithmetic::div_mod::lemma_small_mod((0xffff_ffff_ffff_ffff - (self as int)) as nat, 0x1_0000_0000_0000_0000);
    }

    proof fn lemma_bitwise_bits(self, rhs: Self, k: nat) {
        lemma_u64_bit(self, k);
        lemma_u64_bit(rhs, k);
        lemma_u64_bit(self & rhs, k);
        lemma_u64_bit(self | rhs, k);
        lemma_u64_bit(self ^ rhs, k);
        lemma_u64_bit(!self, k);
        lemma_u64_bit_facts(self, rhs, k as u64);
    }

    proof fn lemma_value(self, other: Self) {
    }

    proof fn lemma_value_onto(x: int) {
        assert((x as u64).value() == x);
    }

    proof fn lemma_masks() {
        assert(!0xffff_ffff_ffff_ffffu64 == 0u64 && !0u64 == 0xffff_ffff_ffff_ffffu64) by (bit_vector);
    }

    proof fn lemma_blend_mask(mask: Self, if_one: Self, if_zero: Self) {
        assert((if_one & mask) | (if_zero & !mask) == (if mask == 0xffff_ffff_ffff_ffffu64 {
            if_one
        } else {
            if_zero
        })) by (bit_vector)
            requires
                mask == 0xffff_ffff_ffff_ffffu64 || mask == 0u64,
        ;
    }

    fn zero() -> (r: Self) {
        0
    }

    fn ones() -> (r: Self) {
        u64::MAX
    }

    fn lane_bits() -> (r: u32) {
        64u32
    }

    fn lane_sign_fill(self) -> (r: Self) {
        0
    }

    fn one() -> (r: Self) {
        1
    }

    fn lane_eq(self, rhs: Self) -> (r: bool) {
        self == rhs
    }

    fn lane_lt(self, rhs: Self) -> (r: bool) {
        self < rhs
    }

    fn lane_top_bit(self) -> (r: bool) {
        self >= 0x8000_0000_0000_0000
    }

    fn lane_add(self, rhs: Self) -> (r: Self) {
        self.wrapping_add(rhs)
    }

    fn lane_sub(self, rhs: Self) -> (r: Self) {
        self.wrapping_sub(rhs)
    }

    fn lane_mul(self, rhs: Self) -> (r: Self) {
        self.wrapping_mul(rhs)
    }

    fn lane_div(self, rhs: Self) -> (r: Self) {
        proof {
            lemma_trunc_div_rem(self as int, rhs as int);
            vstd::arithmetic::div_mod::lemma_small_mod((self / rhs) as nat, 0x1_0000_0000_0000_0000);
        }
        self / rhs
    }

    fn lane_rem(self, rhs: Self) -> (r: Self) {
        proof {
            lemma_trunc_div_rem(self as int, rhs as int);
        }
        self % rhs
    }

    fn lane_neg(self) -> (r: Self) {
        0u64.wrapping_sub(self)
    }

    fn lane_abs(self) -> (r: Self) {
        self
    }

    fn lane_saturating_add(self, rhs: Self) -> (r: Self) {
        self.saturating_add(rhs)
    }

    fn lane_saturating_sub(self, rhs: Self) -> (r: Self) {
        self.saturating_sub(rhs)
    }

    fn lane_and(self, rhs: Self) -> (r: Self) {
        self & rhs
    }

    fn lane_or(self, rhs: Self) -> (r: Self) {
        self | rhs
    }

    fn lane_xor(self, rhs: Self) -> (r: Self) {
        self ^ rhs
    }

    fn lane_not(self) -> (r: Self) {
        !self
    }

    fn lane_shl(self, amount: u32) -> (r: Self) {
        self.wrapping_shl(amount)
    }

    fn lane_shr(self, amount: u32) -> (r: Self) {
        self.wrapping_shr(amount)
    }
}

/// The bit-level form of a left shift of `i8`.
proof fn lemma_i8_shl_fact(x: i8, s: u32)
    by (bit_vector)
    requires
        s < 8u32,
    ensures
        (x << s) as int == ((x as int) * ((1u64 << (s as u64)) as int) + 0x80) % 0x100 - 0x80,
{
}

/// Bit-level facts about right shifts of `i8`.
proof fn lemma_i8_shift_facts(x: i8, s: u32)
    by (bit_vector)
    requires
        s < 8u32,
    ensures
        x >= 0 ==> ((x >> s) as int) == (((x as u8) >> (s as u8)) as int),
        x >> s == !((!x) >> s),
{
}

/// Bit-level facts relating `i8` to its unsigned reinterpretation.
proof fn lemma_i8_cast_facts(x: i8, y: i8)
    by (bit_vector)
    ensures
        (x as u8) as int == (if x < 0 {
            x as int + 0x100
        } else {
            x as int
        }),
        (!x) as int == -(x as int) - 1,
        (x & y) as u8 == (x as u8) & (y as u8),
        (x | y) as u8 == (x as u8) | (y as u8),
        (x ^ y) as u8 == (x as u8) ^ (y as u8),
        (!x) as u8 == !(x as u8),
{
}

/// A right shift of a non-negative `i8` is a division.
proof fn lemma_i8_shr_nonneg(x: i8, s: u32)
    requires
        x >= 0,
        s < 8u32,
    ensures
        (x >> s) as int == (x as int) / (pow2(s as nat) as int),
{
    lemma_i8_shift_facts(x, s);
    lemma_i8_cast_facts(x, x);
    lemma_u8_shr_is_div(x as u8, s as u8);
}

/// A `i8` has the bits of its unsigned reinterpretation.
proof fn lemma_i8_bit(x: i8, k: nat)
    requires
        k < 8u32,
    ensures
        bit_of(x as int, k) == bit_of((x as u8) as int, k),
{
    lemma2_to64();
    lemma_i8_cast_facts(x, x);
    if x < 0 {
        lemma_bit_of_add_pow2(x as int, k, 8u32 as nat);
    }
}

impl Sealed for i8 {}

impl SimdElement for i8 {
    open spec fn min_value() -> int {
        -0x80
    }

    open spec fn modulus() -> int {
        0x100
    }

    open spec fn value(self) -> int {
        self as int
    }

    open spec fn spec_zero() -> Self {
        0
    }

    open spec fn spec_ones() -> Self {
        -1i8
    }

    open spec fn top_bit(self) -> bool {
        self < 0
    }

    open spec fn bit_and(self, rhs: Self) -> Self {
        self & rhs
    }

    open spec fn bit_or(self, rhs: Self) -> Self {
        self | rhs
    }

    open spec fn bit_xor(self, rhs: Self) -> Self {
        self ^ rhs
    }

    open spec fn bit_not(self) -> Self {
        !self
    }

    open spec fn shl_bits(self, amount: u32) -> Self {
        self << (amount % 8u32)
    }

    open spec fn shr_bits(self, amount: u32) -> Self {
        self >> (amount % 8u32)
    }

    open spec fn bits() -> u32 {
        8u32
    }

    open spec fn sign_fill(self) -> Self {
        if self < 0 {
            -1i8
        } else {
            0i8
        }
    }

    proof fn lemma_range() {
    }

    proof fn lemma_width() {
        lemma2_to64();
    }

    proof fn lemma_shl_value(self, amount: u32) {
        let s = amount % 8u32;
        lemma_u64_pow2_no_overflow(s as nat);
        lemma_u64_shl_is_mul(1u64, s as u64);
        lemma_i8_shl_fact(self, s);
    }

    proof fn lemma_shr_value(self, amount: u32) {
        let s = amount % 8u32;
        lemma_pow2_pos(s as nat);
        if self >= 0 {
            lemma_i8_shr_nonneg(self, s);
        } else {
            let c = !self;
            lemma_i8_shift_facts(self, s);
            lemma_i8_cast_facts(self, self);
            lemma_i8_shr_nonneg(c, s);
            lemma_i8_cast_facts(c >> s, c >> s);
            lemma_floor_div_neg(self as int, pow2(s as nat) as int);
        }
    }

    proof fn lemma_sign_fill_value(self) {
    }

    proof fn lemma_top_bit_value(self) {
        lemma_i8_bit(self, (8u32 - 1) as nat);
        lemma_i8_cast_facts(self, self);
        (self as u8).lemma_top_bit_value();
    }

    proof fn lemma_not_value(self) {
        lemma_i8_cast_facts(self, self);
        lemma_wrap_in_range(-(self as int) - 1, -0x80, 0x100);
    }

    proof fn lemma_bitwise_bits(self, rhs: Self, k: nat) {
        lemma_i8_bit(self, k);
        lemma_i8_bit(rhs, k);
        lemma_i8_bit(self & rhs, k);
        lemma_i8_bit(self | rhs, k);
        lemma_i8_bit(self ^ rhs, k);
        lemma_i8_bit(!self, k);
        lemma_i8_cast_facts(self, rhs);
        (self as u8).lemma_bitwise_bits(rhs as u8, k);
    }

    proof fn lemma_value(self, other: Self) {
    }

    proof fn lemma_value_onto(x: int) {
        assert((x as i8).value() == x);
    }

    proof fn lemma_masks() {
        assert(!(-1i8) == 0i8 && !0i8 == -1i8) by (bit_vector);
    }

    proof fn lemma_blend_mask(mask: Self, if_one: Self, if_zero: Self) {
        assert((if_one & mask) | (if_zero & !mask) == (if mask == -1i8 {
            if_one
        } else {
            if_zero
        })) by (bit_vector)
            requires
                mask == -1i8 || mask == 0i8,
        ;
    }

    fn zero() -> (r: Self) {
        0
    }

    fn ones() -> (r: Self) {
        -1
    }

    fn lane_bits() -> (r: u32) {
        8u32
    }

    fn lane_sign_fill(self) -> (r: Self) {
        if self < 0 {
            -1
        } else {
            0
        }
    }

    fn one() -> (r: Self) {
        1
    }

    fn lane_eq(self, rhs: Self) -> (r: bool) {
        self == rhs
    }

    fn lane_lt(self, rhs: Self) -> (r: bool) {
        self < rhs
    }

    fn lane_top_bit(self) -> (r: bool) {
        self < 0
    }

    fn lane_add(self, rhs: Self) -> (r: Self) {
        self.wrapping_add(rhs)
    }

    fn lane_sub(self, rhs: Self) -> (r: Self) {
        self.wrapping_sub(rhs)
    }

    fn lane_mul(self, rhs: Self) -> (r: Self) {
        let r = self.wrapping_mul(rhs);
        proof {
            lemma_signed_crop(self * rhs, 0x100, 0x80);
        }
        r
    }

    fn lane_div(self, rhs: Self) -> (r: Self) {
        proof {
            lemma_trunc_div_rem(self as int, rhs as int);
        }
        if rhs == -1 {
            self.lane_neg()
        } else {
            let r = self.checked_div(rhs).unwrap();
            proof {
                vstd::arithmetic::div_mod::lemma_small_mod((r as int + 0x80) as nat, 0x100);
            }
            r
        }
    }

    fn lane_rem(self, rhs: Self) -> (r: Self) {
        proof {
            lemma_trunc_div_rem(self as int, rhs as int);
        }
        if rhs == -1 {
            0
        } else {
            self.checked_rem(rhs).unwrap()
        }
    }

    fn lane_neg(self) -> (r: Self) {
        0i8.wrapping_sub(self)
    }

    fn lane_abs(self) -> (r: Self) {
        if self < 0 {
            0i8.wrapping_sub(self)
        } else {
            self
        }
    }

    fn lane_saturating_add(self, rhs: Self) -> (r: Self) {
        match self.checked_add(rhs) {
            Some(v) => v,
            None => if rhs > 0 {
                i8::MAX
            } else {
                i8::MIN
            },
        }
    }

    fn lane_saturating_sub(self, rhs: Self) -> (r: Self) {
        match self.checked_sub(rhs) {
            Some(v) => v,
            None => if rhs < 0 {
                i8::MAX
            } else {
                i8::MIN
            },
        }
    }

    fn lane_and(self, rhs: Self) -> (r: Self) {
        self & rhs
    }

    fn lane_or(self, rhs: Self) -> (r: Self) {
        self | rhs
    }

    fn lane_xor(self, rhs: Self) -> (r: Self) {
        self ^ rhs
    }

    fn lane_not(self) -> (r: Self) {
        !self
    }

    fn lane_shl(self, amount: u32) -> (r: Self) {
        self.wrapping_shl(amount)
    }

    fn lane_shr(self, amount: u32) -> (r: Self) {
        self.wrapping_shr(amount)
    }
}

/// The bit-level form of a left shift of `i16`.
proof fn lemma_i16_shl_fact(x: i16, s: u32)
    by (bit_vector)
    requires
        s < 16u32,
    ensures
        (x << s) as int == ((x as int) * ((1u64 << (s as u64)) as int) + 0x8000) % 0x1_0000 - 0x8000,
{
}

/// Bit-level facts about right shifts of `i16`.
proof fn lemma_i16_shift_facts(x: i16, s: u32)
    by (bit_vector)
    requires
        s < 16u32,
    ensures
        x >= 0 ==> ((x >> s) as int) == (((x as u16) >> (s as u16)) as int),
        x >> s == !((!x) >> s),
{
}

/// Bit-level facts relating `i16` to its unsigned reinterpretation.
proof fn lemma_i16_cast_facts(x: i16, y: i16)
    by (bit_vector)
    ensures
        (x as u16) as int == (if x < 0 {
            x as int + 0x1_0000
        } else {
            x as int
        }),
        (!x) as int == -(x as int) - 1,
        (x & y) as u16 == (x as u16) & (y as u16),
        (x | y) as u16 == (x as u16) | (y as u16),
        (x ^ y) as u16 == (x as u16) ^ (y as u16),
        (!x) as u16 == !(x as u16),
{
}

/// A right shift of a non-negative `i16` is a division.
proof fn lemma_i16_shr_nonneg(x: i16, s: u32)
    requires
        x >= 0,
        s < 16u32,
    ensures
        (x >> s) as int == (x as int) / (pow2(s as nat) as int),
{
    lemma_i16_shift_facts(x, s);
    lemma_i16_cast_facts(x, x);
    lemma_u16_shr_is_div(x as u16, s as u16);
}

/// A `i16` has the bits of its unsigned reinterpretation.
proof fn lemma_i16_bit(x: i16, k: nat)
    requires
        k < 16u32,
    ensures
        bit_of(x as int, k) == bit_of((x as u16) as int, k),
{
    lemma2_to64();
    lemma_i16_cast_facts(x, x);
    if x < 0 {
        lemma_bit_of_add_pow2(x as int, k, 16u32 as nat);
    }
}

impl Sealed for i16 {}

impl SimdElement for i16 {
    open spec fn min_value() -> int {
        -0x8000
    }

    open spec fn modulus() -> int {
        0x1_0000
    }

    open spec fn value(self) -> int {
        self as int
    }

    open spec fn spec_zero() -> Self {
        0
    }

    open spec fn spec_ones() -> Self {
        -1i16
    }

    open spec fn top_bit(self) -> bool {
        self < 0
    }

    open spec fn bit_and(self, rhs: Self) -> Self {
        self & rhs
    }

    open spec fn bit_or(self, rhs: Self) -> Self {
        self | rhs
    }

    open spec fn bit_xor(self, rhs: Self) -> Self {
        self ^ rhs
    }

    open spec fn bit_not(self) -> Self {
        !self
    }

    open spec fn shl_bits(self, amount: u32) -> Self {
        self << (amount % 16u32)
    }

    open spec fn shr_bits(self, amount: u32) -> Self {
        self >> (amount % 16u32)
    }

    open spec fn bits() -> u32 {
        16u32
    }

    open spec fn sign_fill(self) -> Self {
        if self < 0 {
            -1i16
        } else {
            0i16
        }
    }

    proof fn lemma_range() {
    }

    proof fn lemma_width() {
        lemma2_to64();
    }

    proof fn lemma_shl_value(self, amount: u32) {
        let s = amount % 16u32;
        lemma_u64_pow2_no_overflow(s as nat);
        lemma_u64_shl_is_mul(1u64, s as u64);
        lemma_i16_shl_fact(self, s);
    }

    proof fn lemma_shr_value(self, amount: u32) {
        let s = amount % 16u32;
        lemma_pow2_pos(s as nat);
        if self >= 0 {
            lemma_i16_shr_nonneg(self, s);
        } else {
            let c = !self;
            lemma_i16_shift_facts(self, s);
            lemma_i16_cast_facts(self, self);
            lemma_i16_shr_nonneg(c, s);
            lemma_i16_cast_facts(c >> s, c >> s);
            lemma_floor_div_neg(self as int, pow2(s as nat) as int);
        }
    }

    proof fn lemma_sign_fill_value(self) {
    }

    proof fn lemma_top_bit_value(self) {
        lemma_i16_bit(self, (16u32 - 1) as nat);
        lemma_i16_cast_facts(self, self);
        (self as u16).lemma_top_bit_value();
    }

    proof fn lemma_not_value(self) {
        lemma_i16_cast_facts(self, self);
        lemma_wrap_in_range(-(self as int) - 1, -0x8000, 0x1_0000);
    }

    proof fn lemma_bitwise_bits(self, rhs: Self, k: nat) {
        lemma_i16_bit(self, k);
        lemma_i16_bit(rhs, k);
        lemma_i16_bit(self & rhs, k);
        lemma_i16_bit(self | rhs, k);
        lemma_i16_bit(self ^ rhs, k);
        lemma_i16_bit(!self, k);
        lemma_i16_cast_facts(self, rhs);
        (self as u16).lemma_bitwise_bits(rhs as u16, k);
    }

    proof fn lemma_value(self, other: Self) {
    }

    proof fn lemma_value_onto(x: int) {
        assert((x as i16).value() == x);
    }

    proof fn lemma_masks() {
        assert(!(-1i16) == 0i16 && !0i16 == -1i16) by (bit_vector);
    }

    proof fn lemma_blend_mask(mask: Self, if_one: Self, if_zero: Self) {
        assert((if_one & mask) | (if_zero & !mask) == (if mask == -1i16 {
            if_one
        } else {
            if_zero
        })) by (bit_vector)
            requires
                mask == -1i16 || mask == 0i16,
        ;
    }

    fn zero() -> (r: Self) {
        0
    }

    fn ones() -> (r: Self) {
        -1
    }

    fn lane_bits() -> (r: u32) {
        16u32
    }

    fn lane_sign_fill(self) -> (r: Self) {
        if self < 0 {
            -1
        } else {
            0
        }
    }

    fn one() -> (r: Self) {
        1
    }

    fn lane_eq(self, rhs: Self) -> (r: bool) {
        self == rhs
    }

    fn lane_lt(self, rhs: Self) -> (r: bool) {
        self < rhs
    }

    fn lane_top_bit(self) -> (r: bool) {
        self < 0
    }

    fn lane_add(self, rhs: Self) -> (r: Self) {
        self.wrapping_add(rhs)
    }

    fn lane_sub(self, rhs: Self) -> (r: Self) {
        self.wrapping_sub(rhs)
    }

    fn lane_mul(self, rhs: Self) -> (r: Self) {
        let r = self.wrapping_mul(rhs);
        proof {
            lemma_signed_crop(self * rhs, 0x1_0000, 0x8000);
        }
        r
    }

    fn lane_div(self, rhs: Self) -> (r: Self) {
        proof {
            lemma_trunc_div_rem(self as int, rhs as int);
        }
        if rhs == -1 {
            self.lane_neg()
        } else {
            let r = self.checked_div(rhs).unwrap();
            proof {
                vstd::arithmetic::div_mod::lemma_small_mod((r as int + 0x8000) as nat, 0x1_0000);
            }
            r
        }
    }

    fn lane_rem(self, rhs: Self) -> (r: Self) {
        proof {
            lemma_trunc_div_rem(self as int, rhs as int);
        }
        if rhs == -1 {
            0
        } else {
            self.checked_rem(rhs).unwrap()
        }
    }

    fn lane_neg(self) -> (r: Self) {
        0i16.wrapping_sub(self)
    }

    fn lane_abs(self) -> (r: Self) {
        if self < 0 {
            0i16.wrapping_sub(self)
        } else {
            self
        }
    }

    fn lane_saturating_add(self, rhs: Self) -> (r: Self) {
        match self.checked_add(rhs) {
            Some(v) => v,
            None => if rhs > 0 {
                i16::MAX
            } else {
                i16::MIN
            },
        }
    }

    fn lane_saturating_sub(self, rhs: Self) -> (r: Self) {
        match self.checked_sub(rhs) {
            Some(v) => v,
            None => if rhs < 0 {
                i16::MAX
            } else {
                i16::MIN
            },
        }
    }

    fn lane_and(self, rhs: Self) -> (r: Self) {
        self & rhs
    }

    fn lane_or(self, rhs: Self) -> (r: Self) {
        self | rhs
    }

    fn lane_xor(self, rhs: Self) -> (r: Self) {
        self ^ rhs
    }

    fn lane_not(self) -> (r: Self) {
        !self
    }

    fn lane_shl(self, amount: u32) -> (r: Self) {
        self.wrapping_shl(amount)
    }

    fn lane_shr(self, amount: u32) -> (r: Self) {
        self.wrapping_shr(amount)
    }
}

/// The bit-level form of a left shift of `i32`.
proof fn lemma_i32_shl_fact(x: i32, s: u32)
    by (bit_vector)
    requires
        s < 32u32,
    ensures
        (x << s) as int == ((x as int) * ((1u64 << (s as u64)) as int) + 0x8000_0000) % 0x1_0000_0000 - 0x8000_0000,
{
}

/// Bit-level facts about right shifts of `i32`.
proof fn lemma_i32_shift_facts(x: i32, s: u32)
    by (bit_vector)
    requires
        s < 32u32,
    ensures
        x >= 0 ==> ((x >> s) as int) == (((x as u32) >> (s as u32)) as int),
        x >> s == !((!x) >> s),
{
}

/// Bit-level facts relating `i32` to its unsigned reinterpretation.
proof fn lemma_i32_cast_facts(x: i32, y: i32)
    by (bit_vector)
    ensures
        (x as u32) as int == (if x < 0 {
            x as int + 0x1_0000_0000
        } else {
            x as int
        }),
        (!x) as int == -(x as int) - 1,
        (x & y) as u32 == (x as u32) & (y as u32),
        (x | y) as u32 == (x as u32) | (y as u32),
        (x ^ y) as u32 == (x as u32) ^ (y as u32),
        (!x) as u32 == !(x as u32),
{
}

/// A right shift of a non-negative `i32` is a division.
proof fn lemma_i32_shr_nonneg(x: i32, s: u32)
    requires
        x >= 0,
        s < 32u32,
    ensures
        (x >> s) as int == (x as int) / (pow2(s as nat) as int),
{
    lemma_i32_shift_facts(x, s);
    lemma_i32_cast_facts(x, x);
    lemma_u32_shr_is_div(x as u32, s as u32);
}

/// A `i32` has the bits of its unsigned reinterpretation.
proof fn lemma_i32_bit(x: i32, k: nat)
    requires
        k < 32u32,
    ensures
        bit_of(x as int, k) == bit_of((x as u32) as int, k),
{
    lemma2_to64();
    lemma_i32_cast_facts(x, x);
    if x < 0 {
        lemma_bit_of_add_pow2(x as int, k, 32u32 as nat);
    }
}

impl Sealed for i32 {}

impl SimdElement for i32 {
    open spec fn min_value() -> int {
        -0x8000_0000
    }

    open spec fn modulus() -> int {
        0x1_0000_0000
    }

    open spec fn value(self) -> int {
        self as int
    }

    open spec fn spec_zero() -> Self {
        0
    }

    open spec fn spec_ones() -> Self {
        -1i32
    }

    open spec fn top_bit(self) -> bool {
        self < 0
    }

    open spec fn bit_and(self, rhs: Self) -> Self {
        self & rhs
    }

    open spec fn bit_or(self, rhs: Self) -> Self {
        self | rhs
    }

    open spec fn bit_xor(self, rhs: Self) -> Self {
        self ^ rhs
    }

    open spec fn bit_not(self) -> Self {
        !self
    }

    open spec fn shl_bits(self, amount: u32) -> Self {
        self << (amount % 32u32)
    }

    open spec fn shr_bits(self, amount: u32) -> Self {
        self >> (amount % 32u32)
    }

    open spec fn bits() -> u32 {
        32u32
    }

    open spec fn sign_fill(self) -> Self {
        if self < 0 {
            -1i32
        } else {
            0i32
        }
    }

    proof fn lemma_range() {
    }

    proof fn lemma_width() {
        lemma2_to64();
    }

    proof fn lemma_shl_value(self, amount: u32) {
        let s = amount % 32u32;
        lemma_u64_pow2_no_overflow(s as nat);
        lemma_u64_shl_is_mul(1u64, s as u64);
        lemma_i32_shl_fact(self, s);
    }

    proof fn lemma_shr_value(self, amount: u32) {
        let s = amount % 32u32;
        lemma_pow2_pos(s as nat);
        if self >= 0 {
            lemma_i32_shr_nonneg(self, s);
        } else {
            let c = !self;
            lemma_i32_shift_facts(self, s);
            lemma_i32_cast_facts(self, self);
            lemma_i32_shr_nonneg(c, s);
            lemma_i32_cast_facts(c >> s, c >> s);
            lemma_floor_div_neg(self as int, pow2(s as nat) as int);
        }
    }

    proof fn lemma_sign_fill_value(self) {
    }

    proof fn lemma_top_bit_value(self) {
        lemma_i32_bit(self, (32u32 - 1) as nat);
        lemma_i32_cast_facts(self, self);
        (self as u32).lemma_top_bit_value();
    }

    proof fn lemma_not_value(self) {
        lemma_i32_cast_facts(self, self);
        lemma_wrap_in_range(-(self as int) - 1, -0x8000_0000, 0x1_0000_0000);
    }

    proof fn lemma_bitwise_bits(self, rhs: Self, k: nat) {
        lemma_i32_bit(self, k);
        lemma_i32_bit(rhs, k);
        lemma_i32_bit(self & rhs, k);
        lemma_i32_bit(self | rhs, k);
        lemma_i32_bit(self ^ rhs, k);
        lemma_i32_bit(!self, k);
        lemma_i32_cast_facts(self, rhs);
        (self as u32).lemma_bitwise_bits(rhs as u32, k);
    }

    proof fn lemma_value(self, other: Self) {
    }

    proof fn lemma_value_onto(x: int) {
        assert((x as i32).value() == x);
    }

    proof fn lemma_masks() {
        assert(!(-1i32) == 0i32 && !0i32 == -1i32) by (bit_vector);
    }

    proof fn lemma_blend_mask(mask: Self, if_one: Self, if_zero: Self) {
        assert((if_one & mask) | (if_zero & !mask) == (if mask == -1i32 {
            if_one
        } else {
            if_zero
        })) by (bit_vector)
            requires
                mask == -1i32 || mask == 0i32,
        ;
    }

    fn zero() -> (r: Self) {
        0
    }

    fn ones() -> (r: Self) {
        -1
    }

    fn lane_bits() -> (r: u32) {
        32u32
    }

    fn lane_sign_fill(self) -> (r: Self) {
        if self < 0 {
            -1
        } else {
            0
        }
    }

    fn one() -> (r: Self) {
        1
    }

    fn lane_eq(self, rhs: Self) -> (r: bool) {
        self == rhs
    }

    fn lane_lt(self, rhs: Self) -> (r: bool) {
        self < rhs
    }

    fn lane_top_bit(self) -> (r: bool) {
        self < 0
    }

    fn lane_add(self, rhs: Self) -> (r: Self) {
        self.wrapping_add(rhs)
    }

    fn lane_sub(self, rhs: Self) -> (r: Self) {
        self.wrapping_sub(rhs)
    }

    fn lane_mul(self, rhs: Self) -> (r: Self) {
        let r = self.wrapping_mul(rhs);
        proof {
            lemma_signed_crop(self * rhs, 0x1_0000_0000, 0x8000_0000);
        }
        r
    }

    fn lane_div(self, rhs: Self) -> (r: Self) {
        proof {
            lemma_trunc_div_rem(self as int, rhs as int);
        }
        if rhs == -1 {
            self.lane_neg()
        } else {
            let r = self.checked_div(rhs).unwrap();
            proof {
                vstd::arithmetic::div_mod::lemma_small_mod((r as int + 0x8000_0000) as nat, 0x1_0000_0000);
            }
            r
        }
    }

    fn lane_rem(self, rhs: Self) -> (r: Self) {
        proof {
            lemma_trunc_div_rem(self as int, rhs as int);
        }
        if rhs == -1 {
            0
        } else {
            self.checked_rem(rhs).unwrap()
        }
    }

    fn lane_neg(self) -> (r: Self) {
        0i32.wrapping_sub(self)
    }

    fn lane_abs(self) -> (r: Self) {
        if self < 0 {
            0i32.wrapping_sub(self)
        } else {
            self
        }
    }

    fn lane_saturating_add(self, rhs: Self) -> (r: Self) {
        match self.checked_add(rhs) {
            Some(v) => v,
            None => if rhs > 0 {
                i32::MAX
            } else {
                i32::MIN
            },
        }
    }

    fn lane_saturating_sub(self, rhs: Self) -> (r: Self) {
        match self.checked_sub(rhs) {
            Some(v) => v,
            None => if rhs < 0 {
                i32::MAX
            } else {
                i32::MIN
            },
        }
    }

    fn lane_and(self, rhs: Self) -> (r: Self) {
        self & rhs
    }

    fn lane_or(self, rhs: Self) -> (r: Self) {
        self | rhs
    }

    fn lane_xor(self, rhs: Self) -> (r: Self) {
        self ^ rhs
    }

    fn lane_not(self) -> (r: Self) {
        !self
    }

    fn lane_shl(self, amount: u32) -> (r: Self) {
        self.wrapping_shl(amount)
    }

    fn lane_shr(self, amount: u32) -> (r: Self) {
        self.wrapping_shr(amount)
    }
}

/// The bit-level form of a left shift of `i64`.
proof fn lemma_i64_shl_fact(x: i64, s: u32)
    by (bit_vector)
    requires
        s < 64u32,
    ensures
        (x << s) as int == ((x as int) * ((1u64 << (s as u64)) as int) + 0x8000_0000_0000_0000) % 0x1_0000_0000_0000_0000 - 0x8000_0000_0000_0000,
{
}

/// Bit-level facts about right shifts of `i64`.
proof fn lemma_i64_shift_facts(x: i64, s: u32)
    by (bit_vector)
    requires
        s < 64u32,
    ensures
        x >= 0 ==> ((x >> s) as int) == (((x as u64) >> (s as u64)) as int),
        x >> s == !((!x) >> s),
{
}

/// Bit-level facts relating `i64` to its unsigned reinterpretation.
proof fn lemma_i64_cast_facts(x: i64, y: i64)
    by (bit_vector)
    ensures
        (x as u64) as int == (if x < 0 {
            x as int + 0x1_0000_0000_0000_0000
        } else {
            x as int
        }),
        (!x) as int == -(x as int) - 1,
        (x & y) as u64 == (x as u64) & (y as u64),
        (x | y) as u64 == (x as u64) | (y as u64),
        (x ^ y) as u64 == (x as u64) ^ (y as u64),
        (!x) as u64 == !(x as u64),
{
}

/// A right shift of a non-negative `i64` is a division.
proof fn lemma_i64_shr_nonneg(x: i64, s: u32)
    requires
        x >= 0,
        s < 64u32,
    ensures
        (x >> s) as int == (x as int) / (pow2(s as nat) as int),
{
    lemma_i64_shift_facts(x, s);
    lemma_i64_cast_facts(x, x);
    lemma_u64_shr_is_div(x as u64, s as u64);
}

/// A `i64` has the bits of its unsigned reinterpretation.
proof fn lemma_i64_bit(x: i64, k: nat)
    requires
        k < 64u32,
    ensures
        bit_of(x as int, k) == bit_of((x as u64) as int, k),
{
    lemma2_to64();
    lemma_i64_cast_facts(x, x);
    if x < 0 {
        lemma_bit_of_add_pow2(x as int, k, 64u32 as nat);
    }
}

impl Sealed for i64 {}

impl SimdElement for i64 {
    open spec fn min_value() -> int {
        -0x8000_0000_0000_0000
    }

    open spec fn modulus() -> int {
        0x1_0000_0000_0000_0000
    }

    open spec fn value(self) -> int {
        self as int
    }

    open spec fn spec_zero() -> Self {
        0
    }

    open spec fn spec_ones() -> Self {
        -1i64
    }

    open spec fn top_bit(self) -> bool {
        self < 0
    }

    open spec fn bit_and(self, rhs: Self) -> Self {
        self & rhs
    }

    open spec fn bit_or(self, rhs: Self) -> Self {
        self | rhs
    }

    open spec fn bit_xor(self, rhs: Self) -> Self {
        self ^ rhs
    }

    open spec fn bit_not(self) -> Self {
        !self
    }

    open spec fn shl_bits(self, amount: u32) -> Self {
        self << (amount % 64u32)
    }

    open spec fn shr_bits(self, amount: u32) -> Self {
        self >> (amount % 64u32)
    }

    open spec fn bits() -> u32 {
        64u32
    }

    open spec fn sign_fill(self) -> Self {
        if self < 0 {
            -1i64
        } else {
            0i64
        }
    }

    proof fn lemma_range() {
    }

    proof fn lemma_width() {
        lemma2_to64();
    }

    proof fn lemma_shl_value(self, amount: u32) {
        let s = amount % 64u32;
        lemma_u64_pow2_no_overflow(s as nat);
        lemma_u64_shl_is_mul(1u64, s as u64);
        lemma_i64_shl_fact(self, s);
    }

    proof fn lemma_shr_value(self, amount: u32) {
        let s = amount % 64u32;
        lemma_pow2_pos(s as nat);
        if self >= 0 {
            lemma_i64_shr_nonneg(self, s);
        } else {
            let c = !self;
            lemma_i64_shift_facts(self, s);
            lemma_i64_cast_facts(self, self);
            lemma_i64_shr_nonneg(c, s);
            lemma_i64_cast_facts(c >> s, c >> s);
            lemma_floor_div_neg(self as int, pow2(s as nat) as int);
        }
    }

    proof fn lemma_sign_fill_value(self) {
    }

    proof fn lemma_top_bit_value(self) {
        lemma_i64_bit(self, (64u32 - 1) as nat);
        lemma_i64_cast_facts(self, self);
        (self as u64).lemma_top_bit_value();
    }

    proof fn lemma_not_value(self) {
        lemma_i64_cast_facts(self, self);
        lemma_wrap_in_range(-(self as int) - 1, -0x8000_0000_0000_0000, 0x1_0000_0000_0000_0000);
    }

    proof fn lemma_bitwise_bits(self, rhs: Self, k: nat) {
        lemma_i64_bit(self, k);
        lemma_i64_bit(rhs, k);
        lemma_i64_bit(self & rhs, k);
        lemma_i64_bit(self | rhs, k);
        lemma_i64_bit(self ^ rhs, k);
        lemma_i64_bit(!self, k);
        lemma_i64_cast_facts(self, rhs);
        (self as u64).lemma_bitwise_bits(rhs as u64, k);
    }

    proof fn lemma_value(self, other: Self) {
    }

    proof fn lemma_value_onto(x: int) {
        assert((x as i64).value() == x);
    }

    proof fn lemma_masks() {
        assert(!(-1i64) == 0i64 && !0i64 == -1i64) by (bit_vector);
    }

    proof fn lemma_blend_mask(mask: Self, if_one: Self, if_zero: Self) {
        assert((if_one & mask) | (if_zero & !mask) == (if mask == -1i64 {
            if_one
        } else {
            if_zero
        })) by (bit_vector)
            requires
                mask == -1i64 || mask == 0i64,
        ;
    }

    fn zero() -> (r: Self) {
        0
    }

    fn ones() -> (r: Self) {
        -1
    }

    fn lane_bits() -> (r: u32) {
        64u32
    }

    fn lane_sign_fill(self) -> (r: Self) {
        if self < 0 {
            -1
        } else {
            0
        }
    }

    fn one() -> (r: Self) {
        1
    }

    fn lane_eq(self, rhs: Self) -> (r: bool) {
        self == rhs
    }

    fn lane_lt(self, rhs: Self) -> (r: bool) {
        self < rhs
    }

    fn lane_top_bit(self) -> (r: bool) {
        self < 0
    }

    fn lane_add(self, rhs: Self) -> (r: Self) {
        self.wrapping_add(rhs)
    }

    fn lane_sub(self, rhs: Self) -> (r: Self) {
        self.wrapping_sub(rhs)
    }

    fn lane_mul(self, rhs: Self) -> (r: Self) {
        let r = self.wrapping_mul(rhs);
        proof {
            lemma_signed_crop(self * rhs, 0x1_0000_0000_0000_0000, 0x8000_0000_0000_0000);
        }
        r
    }

    fn lane_div(self, rhs: Self) -> (r: Self) {
        proof {
            lemma_trunc_div_rem(self as int, rhs as int);
        }
        if rhs == -1 {
            self.lane_neg()
        } else {
            let r = self.checked_div(rhs).unwrap();
            proof {
                vstd::arithmetic::div_mod::lemma_small_mod((r as int + 0x8000_0000_0000_0000) as nat, 0x1_0000_0000_0000_0000);
            }
            r
        }
    }

    fn lane_rem(self, rhs: Self) -> (r: Self) {
        proof {
            lemma_trunc_div_rem(self as int, rhs as int);
        }
        if rhs == -1 {
            0
        } else {
            self.checked_rem(rhs).unwrap()
        }
    }

    fn lane_neg(self) -> (r: Self) {
        0i64.wrapping_sub(self)
    }

    fn lane_abs(self) -> (r: Self) {
        if self < 0 {
            0i64.wrapping_sub(self)
        } else {
            self
        }
    }

    fn lane_saturating_add(self, rhs: Self) -> (r: Self) {
        match self.checked_add(rhs) {
            Some(v) => v,
            None => if rhs > 0 {
                i64::MAX
            } else {
                i64::MIN
            },
        }
    }

    fn lane_saturating_sub(self, rhs: Self) -> (r: Self) {
        match self.checked_sub(rhs) {
            Some(v) => v,
            None => if rhs < 0 {
                i64::MAX
            } else {
                i64::MIN
            },
        }
    }

    fn lane_and(self, rhs: Self) -> (r: Self) {
        self & rhs
    }

    fn lane_or(self, rhs: Self) -> (r: Self) {
        self | rhs
    }

    fn lane_xor(self, rhs: Self) -> (r: Self) {
        self ^ rhs
    }

    fn lane_not(self) -> (r: Self) {
        !self
    }

    fn lane_shl(self, amount: u32) -> (r: Self) {
        self.wrapping_shl(amount)
    }

    fn lane_shr(self, amount: u32) -> (r: Self) {
        self.wrapping_shr(amount)
    }
}

} // verus!
