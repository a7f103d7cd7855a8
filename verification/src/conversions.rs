//! Conversions between vectors of different lane types: widening,
//! saturating and truncating narrowing, and interleaving.

use vstd::prelude::*;

use vstd::std_specs::convert::FromSpecImpl;

use crate::element::{wrapped, clamp};
use crate::simd::{Simd, from_lanes, lemma_is_from_lanes};

verus! {

broadcast use crate::simd::lemma_simd_len;

/// Clamps a 16-bit value into the range of `i8`.
fn saturate_i16_to_i8(a: i16) -> (r: i8)
    ensures
        r as int == clamp(a as int, -128, 127),
{
    if a < -128 {
        -128
    } else if a > 127 {
        127
    } else {
        a as i8
    }
}

/// Clamps a 16-bit value into the range of `u8`.
fn saturate_i16_to_u8(a: i16) -> (r: u8)
    ensures
        r as int == clamp(a as int, 0, 255),
{
    if a < 0 {
        0
    } else if a > 255 {
        255
    } else {
        a as u8
    }
}

/// The low byte of a 16-bit value, as a signed byte (what `as` casting
/// does).
fn truncate_i16_to_i8(a: i16) -> (r: i8)
    ensures
        r as int == wrapped::<i8>(a as int),
{
    let u = ((a as i32) + 0x8000) as u32 % 256;
    if u > 127 {
        (u as i32 - 256) as i8
    } else {
        u as i8
    }
}

impl Simd<i8, 16> {
    /// Converts each element from [`i16`] to [`i8`], saturating out of range
    /// values.
    pub fn from_i16x16_saturate(v: Simd<i16, 16>) -> (r: Simd<i8, 16>)
        ensures
            forall|i: int| 0 <= i < 16 ==> (#[trigger] r@[i]) as int == clamp(v@[i] as int, -128, 127),
    {
        let a = v.to_array();
        let mut out = [0i8; 16];
        for i in 0..16
            invariant
                a@ == v@,
                forall|j: int| 0 <= j < i ==> (#[trigger] out@[j]) as int == clamp(a@[j] as int, -128, 127),
        {
            out[i] = saturate_i16_to_i8(a[i]);
        }
        Simd::new(out)
    }

    /// Converts each element from [`i16`] to [`i8`], truncating out of range
    /// values (as `as` casting does).
    pub fn from_i16x16_truncate(v: Simd<i16, 16>) -> (r: Simd<i8, 16>)
        ensures
            forall|i: int| 0 <= i < 16 ==> (#[trigger] r@[i]) as int == wrapped::<i8>(v@[i] as int),
    {
        let a = v.to_array();
        let mut out = [0i8; 16];
        for i in 0..16
            invariant
                a@ == v@,
                forall|j: int| 0 <= j < i ==> (#[trigger] out@[j]) as int == wrapped::<i8>(a@[j] as int),
        {
            out[i] = truncate_i16_to_i8(a[i]);
        }
        Simd::new(out)
    }

    /// Converts a slice to a SIMD vector, ignoring elements beyond the first
    /// 16. The slice must have at least 16 elements.
    pub fn from_slice_unaligned(input: &[i8]) -> (r: Self)
        requires
            input@.len() >= 16,
        ensures
            forall|i: int| 0 <= i < 16 ==> #[trigger] r@[i] == input@[i],
    {
        let mut out = [0i8; 16];
        for i in 0..16
            invariant
                input@.len() >= 16,
                forall|j: int| 0 <= j < i ==> #[trigger] out@[j] == input@[j],
        {
            out[i] = input[i];
        }
        Simd::new(out)
    }
}

impl Simd<u8, 16> {
    /// Returns `[lhs[0], rhs[0], lhs[1], rhs[1], ...]`, taking the first 8
    /// elements of each input.
    pub fn unpack_low(lhs: Simd<u8, 16>, rhs: Simd<u8, 16>) -> (r: Simd<u8, 16>)
        ensures
            forall|k: int| 0 <= k < 8 ==> #[trigger] r@[2 * k] == lhs@[k] && r@[2 * k + 1] == rhs@[k],
    {
        let a = lhs.to_array();
        let b = rhs.to_array();
        let mut out = [0u8; 16];
        for k in 0..8
            invariant
                a@ == lhs@,
                b@ == rhs@,
                forall|j: int| 0 <= j < k ==> #[trigger] out@[2 * j] == a@[j] && out@[2 * j + 1] == b@[j],
        {
            let ghost before = out;
            out[2 * k] = a[k];
            out[2 * k + 1] = b[k];
            proof {
                assert forall|j: int| 0 <= j < k + 1 implies #[trigger] out@[2 * j] == a@[j] && out@[2 * j
                    + 1] == b@[j] by {
                    if j < k {
                        assert(before@[2 * j] == a@[j]);
                        assert(before@[2 * j + 1] == b@[j]);
                    }
                }
            }
        }
        Simd::new(out)
    }

    /// Returns `[lhs[8], rhs[8], lhs[9], rhs[9], ...]`, taking the last 8
    /// elements of each input.
    pub fn unpack_high(lhs: Simd<u8, 16>, rhs: Simd<u8, 16>) -> (r: Simd<u8, 16>)
        ensures
            forall|k: int| 0 <= k < 8 ==> #[trigger] r@[2 * k] == lhs@[k + 8] && r@[2 * k + 1] == rhs@[k + 8],
    {
        let a = lhs.to_array();
        let b = rhs.to_array();
        let mut out = [0u8; 16];
        for k in 0..8
            invariant
                a@ == lhs@,
                b@ == rhs@,
                forall|j: int| 0 <= j < k ==> #[trigger] out@[2 * j] == a@[j + 8] && out@[2 * j + 1] == b@[j + 8],
        {
            let ghost before = out;
            out[2 * k] = a[k + 8];
            out[2 * k + 1] = b[k + 8];
            proof {
                assert forall|j: int| 0 <= j < k + 1 implies #[trigger] out@[2 * j] == a@[j + 8] && out@[2 * j
                    + 1] == b@[j + 8] by {
                    if j < k {
                        assert(before@[2 * j] == a@[j + 8]);
                        assert(before@[2 * j + 1] == b@[j + 8]);
                    }
                }
            }
        }
        Simd::new(out)
    }

    /// Treats two 8-lane [`i16`] vectors as a single 16-lane one, then
    /// converts each element from [`i16`] to [`u8`], saturating out of range
    /// values.
    pub fn narrow_i16x8(lhs: Simd<i16, 8>, rhs: Simd<i16, 8>) -> (r: Self)
        ensures
            forall|i: int| 0 <= i < 8 ==> (#[trigger] r@[i]) as int == clamp(lhs@[i] as int, 0, 255),
            forall|i: int| 8 <= i < 16 ==> (#[trigger] r@[i]) as int == clamp(rhs@[i - 8] as int, 0, 255),
    {
        let a = lhs.to_array();
        let b = rhs.to_array();
        let mut out = [0u8; 16];
        for i in 0..8
            invariant
                a@ == lhs@,
                b@ == rhs@,
                forall|j: int| 0 <= j < i ==> (#[trigger] out@[j]) as int == clamp(a@[j] as int, 0, 255),
                forall|j: int| 8 <= j < 8 + i ==> (#[trigger] out@[j]) as int == clamp(b@[j - 8] as int, 0, 255),
        {
            out[i] = saturate_i16_to_u8(a[i]);
            out[i + 8] = saturate_i16_to_u8(b[i]);
        }
        Simd::new(out)
    }
}

impl Simd<i16, 16> {
    /// Converts each element from [`i8`] to [`i16`].
    pub fn from_i8x16(v: Simd<i8, 16>) -> (r: Self)
        ensures
            forall|i: int| 0 <= i < 16 ==> (#[trigger] r@[i]) as int == v@[i] as int,
    {
        let a = v.to_array();
        let mut out = [0i16; 16];
        for i in 0..16
            invariant
                a@ == v@,
                forall|j: int| 0 <= j < i ==> (#[trigger] out@[j]) as int == a@[j] as int,
        {
            out[i] = a[i] as i16;
        }
        Simd::new(out)
    }

}

impl Simd<i32, 8> {
    /// Converts each element from [`i16`] to [`i32`].
    pub fn from_i16x8(v: Simd<i16, 8>) -> (r: Self)
        ensures
            forall|i: int| 0 <= i < 8 ==> (#[trigger] r@[i]) as int == v@[i] as int,
    {
        let a = v.to_array();
        let mut out = [0i32; 8];
        for i in 0..8
            invariant
                a@ == v@,
                forall|j: int| 0 <= j < i ==> (#[trigger] out@[j]) as int == a@[j] as int,
        {
            out[i] = a[i] as i32;
        }
        Simd::new(out)
    }

    /// Converts each element from [`u16`] to [`i32`].
    pub fn from_u16x8(v: Simd<u16, 8>) -> (r: Self)
        ensures
            forall|i: int| 0 <= i < 8 ==> (#[trigger] r@[i]) as int == v@[i] as int,
    {
        let a = v.to_array();
        let mut out = [0i32; 8];
        for i in 0..8
            invariant
                a@ == v@,
                forall|j: int| 0 <= j < i ==> (#[trigger] out@[j]) as int == a@[j] as int,
        {
            out[i] = a[i] as i32;
        }
        Simd::new(out)
    }
}

impl From<Simd<i8, 16>> for Simd<i16, 16> {
    /// Widens with sign extension from i8 to i16.
    fn from(v: Simd<i8, 16>) -> (r: Self)
        ensures
            forall|i: int| 0 <= i < 16 ==> (#[trigger] r@[i]) as int == v@[i] as int,
    {
        let a = v.to_array();
        let mut out = [0i16; 16];
        for i in 0..16
            invariant
                a@ == v@,
                forall|j: int| 0 <= j < i ==> (#[trigger] out@[j]) as int == a@[j] as int,
        {
            out[i] = a[i] as i16;
        }
        let r = Simd::new(out);
        proof {
            let s = Seq::new(16nat, |i: int| v@[i] as i16);
            assert(r@ =~= s);
            lemma_is_from_lanes(r, s);
        }
        r
    }
}

impl FromSpecImpl<Simd<i8, 16>> for Simd<i16, 16> {
    open spec fn obeys_from_spec() -> bool {
        true
    }

    open spec fn from_spec(v: Simd<i8, 16>) -> Self {
        from_lanes(Seq::new(16nat, |i: int| v@[i] as i16))
    }
}

impl From<Simd<u8, 16>> for Simd<i16, 16> {
    /// Widens with zero extension from u8 to i16.
    fn from(v: Simd<u8, 16>) -> (r: Self)
        ensures
            forall|i: int| 0 <= i < 16 ==> (#[trigger] r@[i]) as int == v@[i] as int,
    {
        let a = v.to_array();
        let mut out = [0i16; 16];
        for i in 0..16
            invariant
                a@ == v@,
                forall|j: int| 0 <= j < i ==> (#[trigger] out@[j]) as int == a@[j] as int,
        {
            out[i] = a[i] as i16;
        }
        let r = Simd::new(out);
        proof {
            let s = Seq::new(16nat, |i: int| v@[i] as i16);
            assert(r@ =~= s);
            lemma_is_from_lanes(r, s);
        }
        r
    }
}

impl FromSpecImpl<Simd<u8, 16>> for Simd<i16, 16> {
    open spec fn obeys_from_spec() -> bool {
        true
    }

    open spec fn from_spec(v: Simd<u8, 16>) -> Self {
        from_lanes(Seq::new(16nat, |i: int| v@[i] as i16))
    }
}

impl From<Simd<u8, 16>> for Simd<u16, 16> {
    /// Widens with zero extension from u8 to u16.
    fn from(v: Simd<u8, 16>) -> (r: Self)
        ensures
            forall|i: int| 0 <= i < 16 ==> (#[trigger] r@[i]) as int == v@[i] as int,
    {
        let a = v.to_array();
        let mut out = [0u16; 16];
        for i in 0..16
            invariant
                a@ == v@,
                forall|j: int| 0 <= j < i ==> (#[trigger] out@[j]) as int == a@[j] as int,
        {
            out[i] = a[i] as u16;
        }
        let r = Simd::new(out);
        proof {
            let s = Seq::new(16nat, |i: int| v@[i] as u16);
            assert(r@ =~= s);
            lemma_is_from_lanes(r, s);
        }
        r
    }
}

impl FromSpecImpl<Simd<u8, 16>> for Simd<u16, 16> {
    open spec fn obeys_from_spec() -> bool {
        true
    }

    open spec fn from_spec(v: Simd<u8, 16>) -> Self {
        from_lanes(Seq::new(16nat, |i: int| v@[i] as u16))
    }
}

impl From<Simd<i16, 8>> for Simd<i32, 8> {
    /// Widens with sign extension from i16 to i32.
    fn from(v: Simd<i16, 8>) -> (r: Self)
        ensures
            forall|i: int| 0 <= i < 8 ==> (#[trigger] r@[i]) as int == v@[i] as int,
    {
        let a = v.to_array();
        let mut out = [0i32; 8];
        for i in 0..8
            invariant
                a@ == v@,
                forall|j: int| 0 <= j < i ==> (#[trigger] out@[j]) as int == a@[j] as int,
        {
            out[i] = a[i] as i32;
        }
        let r = Simd::new(out);
        proof {
            let s = Seq::new(8nat, |i: int| v@[i] as i32);
            assert(r@ =~= s);
            lemma_is_from_lanes(r, s);
        }
        r
    }
}

impl FromSpecImpl<Simd<i16, 8>> for Simd<i32, 8> {
    open spec fn obeys_from_spec() -> bool {
        true
    }

    open spec fn from_spec(v: Simd<i16, 8>) -> Self {
        from_lanes(Seq::new(8nat, |i: int| v@[i] as i32))
    }
}

impl From<Simd<u16, 8>> for Simd<u32, 8> {
    /// Widens with zero extension from u16 to u32.
    fn from(v: Simd<u16, 8>) -> (r: Self)
        ensures
            forall|i: int| 0 <= i < 8 ==> (#[trigger] r@[i]) as int == v@[i] as int,
    {
        let a = v.to_array();
        let mut out = [0u32; 8];
        for i in 0..8
            invariant
                a@ == v@,
                forall|j: int| 0 <= j < i ==> (#[trigger] out@[j]) as int == a@[j] as int,
        {
            out[i] = a[i] as u32;
        }
        let r = Simd::new(out);
        proof {
            let s = Seq::new(8nat, |i: int| v@[i] as u32);
            assert(r@ =~= s);
            lemma_is_from_lanes(r, s);
        }
        r
    }
}

impl FromSpecImpl<Simd<u16, 8>> for Simd<u32, 8> {
    open spec fn obeys_from_spec() -> bool {
        true
    }

    open spec fn from_spec(v: Simd<u16, 8>) -> Self {
        from_lanes(Seq::new(8nat, |i: int| v@[i] as u32))
    }
}

impl From<Simd<u16, 16>> for Simd<u32, 16> {
    /// Widens with zero extension from u16 to u32.
    fn from(v: Simd<u16, 16>) -> (r: Self)
        ensures
            forall|i: int| 0 <= i < 16 ==> (#[trigger] r@[i]) as int == v@[i] as int,
    {
        let a = v.to_array();
        let mut out = [0u32; 16];
        for i in 0..16
            invariant
                a@ == v@,
                forall|j: int| 0 <= j < i ==> (#[trigger] out@[j]) as int == a@[j] as int,
        {
            out[i] = a[i] as u32;
        }
        let r = Simd::new(out);
        proof {
            let s = Seq::new(16nat, |i: int| v@[i] as u32);
            assert(r@ =~= s);
            lemma_is_from_lanes(r, s);
        }
        r
    }
}

impl FromSpecImpl<Simd<u16, 16>> for Simd<u32, 16> {
    open spec fn obeys_from_spec() -> bool {
        true
    }

    open spec fn from_spec(v: Simd<u16, 16>) -> Self {
        from_lanes(Seq::new(16nat, |i: int| v@[i] as u32))
    }
}

} // verus!
