//! Table lookups of bytes: each output lane picks the lane of a table that
//! an index selects, or zero when the index is out of range.

use vstd::prelude::*;

use crate::element::{SimdElement, wrapped};
use crate::simd::Simd;

verus! {

broadcast use crate::simd::lemma_simd_len;

/// The start of the block of `width` lanes that holds lane `i` (vectors
/// have one or two such blocks).
pub open spec fn block_start(i: int, width: int) -> int {
    if i >= width {
        width
    } else {
        0
    }
}

/// Lane `i` of a lookup in `table` by `index`, within blocks of `width`
/// lanes: the lane at `index` of the block that holds `i`, or zero when
/// `index` is outside `[0, width)`.
pub open spec fn lookup_lane<T: SimdElement>(table: Seq<T>, index: int, i: int, width: int) -> T {
    if 0 <= index < width {
        table[block_start(i, width) + index]
    } else {
        T::spec_zero()
    }
}

/// Looks up each lane of `indices` in `table`, within blocks of `width`
/// lanes.
fn lookup<T: SimdElement, const N: usize>(table: Simd<T, N>, indices: [i32; N], width: usize) -> (r: Simd<T, N>)
    requires
        N == width || N == 2 * width,
    ensures
        forall|i: int| 0 <= i < N ==> #[trigger] r@[i] == lookup_lane(table@, indices@[i] as int, i, width as int),
{
    let t = table.to_array();
    let mut out = t;
    for i in 0..N
        invariant
            N == width || N == 2 * width,
            t@ == table@,
            forall|j: int| 0 <= j < i ==> #[trigger] out@[j] == lookup_lane(table@, indices@[j] as int, j, width as int),
    {
        let index = indices[i];
        let base = if i >= width { width } else { 0 };
        out[i] = if 0 <= index && (index as usize) < width {
            t[base + index as usize]
        } else {
            T::zero()
        };
    }
    Simd::new(out)
}

/// The lanes of a signed byte vector, as indices.
fn indices_of_i8<const N: usize>(v: Simd<i8, N>) -> (r: [i32; N])
    ensures
        forall|i: int| 0 <= i < N ==> #[trigger] r@[i] as int == v@[i] as int,
{
    let a = v.to_array();
    let mut out = [0i32; N];
    for i in 0..N
        invariant
            a@ == v@,
            forall|j: int| 0 <= j < i ==> #[trigger] out@[j] as int == a@[j] as int,
    {
        out[i] = a[i] as i32;
    }
    out
}

/// The lanes of an unsigned byte vector, as indices.
fn indices_of_u8<const N: usize>(v: Simd<u8, N>) -> (r: [i32; N])
    ensures
        forall|i: int| 0 <= i < N ==> #[trigger] r@[i] as int == v@[i] as int,
{
    let a = v.to_array();
    let mut out = [0i32; N];
    for i in 0..N
        invariant
            a@ == v@,
            forall|j: int| 0 <= j < i ==> #[trigger] out@[j] as int == a@[j] as int,
    {
        out[i] = a[i] as i32;
    }
    out
}

/// Reinterprets the bits of an unsigned byte as a signed byte.
pub(crate) fn u8_as_i8(x: u8) -> (r: i8)
    ensures
        r as int == wrapped::<i8>(x as int),
{
    if x > 127 {
        (x as i16 - 256) as i8
    } else {
        x as i8
    }
}

/// Reinterprets the bits of each unsigned byte lane as a signed byte.
pub(crate) fn bytes_as_i8<const N: usize>(v: Simd<u8, N>) -> (r: Simd<i8, N>)
    ensures
        forall|i: int| 0 <= i < N ==> (#[trigger] r@[i]) as int == wrapped::<i8>(v@[i] as int),
{
    let a = v.to_array();
    let mut out = [0i8; N];
    for i in 0..N
        invariant
            a@ == v@,
            forall|j: int| 0 <= j < i ==> (#[trigger] out@[j]) as int == wrapped::<i8>(a@[j] as int),
    {
        out[i] = u8_as_i8(a[i]);
    }
    Simd::new(out)
}

impl Simd<i8, 16> {
    /// Returns a new vector where each element is the element of `self` that
    /// the index in `rhs` selects: index values in `[0, 15]` select that
    /// element, and out of range index values give `0`.
    pub fn swizzle(self, rhs: Simd<i8, 16>) -> (r: Simd<i8, 16>)
        ensures
            forall|i: int| 0 <= i < 16 ==> #[trigger] r@[i] == lookup_lane(self@, rhs@[i] as int, i, 16),
    {
        lookup(self, indices_of_i8(rhs), 16)
    }

    /// Works like [`swizzle`](Self::swizzle). Out of range indices give `0`
    /// here, which is one of the results that this function allows.
    pub fn swizzle_relaxed(self, rhs: Simd<i8, 16>) -> (r: Simd<i8, 16>)
        ensures
            forall|i: int| 0 <= i < 16 ==> #[trigger] r@[i] == lookup_lane(self@, rhs@[i] as int, i, 16),
    {
        lookup(self, indices_of_i8(rhs), 16)
    }
}

impl Simd<i8, 32> {
    /// Two parallel swizzles on the two 16-lane halves: an index in
    /// `[0, 15]` selects that element of its own half of `self`; other
    /// indices give `0`.
    pub fn swizzle_half(self, rhs: Simd<i8, 32>) -> (r: Simd<i8, 32>)
        ensures
            forall|i: int| 0 <= i < 32 ==> #[trigger] r@[i] == lookup_lane(self@, rhs@[i] as int, i, 16),
    {
        lookup(self, indices_of_i8(rhs), 16)
    }

    /// Works like [`swizzle_half`](Self::swizzle_half). Out of range
    /// indices give `0` here, which is one of the results that this function
    /// allows.
    pub fn swizzle_half_relaxed(self, rhs: Simd<i8, 32>) -> (r: Simd<i8, 32>)
        ensures
            forall|i: int| 0 <= i < 32 ==> #[trigger] r@[i] == lookup_lane(self@, rhs@[i] as int, i, 16),
    {
        lookup(self, indices_of_i8(rhs), 16)
    }

    /// Full 32-entry byte table lookup: an index in `[0, 31]` selects that
    /// element of `self`; any other index (negative ones too) gives `0`.
    pub fn swizzle(self, rhs: Simd<i8, 32>) -> (r: Simd<i8, 32>)
        ensures
            forall|i: int| 0 <= i < 32 ==> #[trigger] r@[i] == lookup_lane(self@, rhs@[i] as int, i, 32),
    {
        lookup(self, indices_of_i8(rhs), 32)
    }

    /// Works like [`swizzle`](Self::swizzle). Out of range indices give `0`
    /// here, which is one of the results that this function allows.
    pub fn swizzle_relaxed(self, rhs: Simd<i8, 32>) -> (r: Simd<i8, 32>)
        ensures
            forall|i: int| 0 <= i < 32 ==> #[trigger] r@[i] == lookup_lane(self@, rhs@[i] as int, i, 32),
    {
        lookup(self, indices_of_i8(rhs), 32)
    }
}

impl Simd<u8, 16> {
    /// Returns a new vector (of signed bytes) where each element is the
    /// element of `self` that the index in `rhs` selects, reinterpreted as a
    /// signed byte: index values in `[0, 15]` select that element, and out of
    /// range index values give `0`.
    pub fn swizzle(self, rhs: Simd<i8, 16>) -> (r: Simd<i8, 16>)
        ensures
            forall|i: int|
                0 <= i < 16 ==> (#[trigger] r@[i]) as int == if 0 <= rhs@[i] < 16 {
                    wrapped::<i8>(self@[rhs@[i] as int] as int)
                } else {
                    0
                },
    {
        let table = bytes_as_i8(self);
        lookup(table, indices_of_i8(rhs), 16)
    }

    /// Works like [`swizzle`](Self::swizzle) with unsigned indices: an index
    /// in `[0, 15]` selects that element; indices with the high bit set, and
    /// (here) all other out of range ones, give `0`.
    pub fn swizzle_relaxed(self, rhs: Simd<u8, 16>) -> (r: Simd<u8, 16>)
        ensures
            forall|i: int| 0 <= i < 16 ==> #[trigger] r@[i] == lookup_lane(self@, rhs@[i] as int, i, 16),
    {
        lookup(self, indices_of_u8(rhs), 16)
    }
}

impl Simd<u8, 32> {
    /// Two parallel swizzles on the two 16-lane halves, giving signed bytes:
    /// an index in `[0, 15]` selects that element of its own half of `self`
    /// (reinterpreted as a signed byte); other indices give `0`.
    pub fn swizzle_half(self, rhs: Simd<i8, 32>) -> (r: Simd<i8, 32>)
        ensures
            forall|i: int|
                0 <= i < 32 ==> (#[trigger] r@[i]) as int == if 0 <= rhs@[i] < 16 {
                    wrapped::<i8>(self@[block_start(i, 16) + rhs@[i]] as int)
                } else {
                    0
                },
    {
        let table = bytes_as_i8(self);
        lookup(table, indices_of_i8(rhs), 16)
    }

    /// Works like [`swizzle_half`](Self::swizzle_half) with unsigned
    /// indices and results; out of range indices give `0` here.
    pub fn swizzle_half_relaxed(self, rhs: Simd<u8, 32>) -> (r: Simd<u8, 32>)
        ensures
            forall|i: int| 0 <= i < 32 ==> #[trigger] r@[i] == lookup_lane(self@, rhs@[i] as int, i, 16),
    {
        lookup(self, indices_of_u8(rhs), 16)
    }

    /// Full 32-entry byte table lookup: an index in `[0, 31]` selects that
    /// element of `self`; any index `>= 32` gives `0`.
    pub fn swizzle(self, rhs: Simd<u8, 32>) -> (r: Simd<u8, 32>)
        ensures
            forall|i: int| 0 <= i < 32 ==> #[trigger] r@[i] == lookup_lane(self@, rhs@[i] as int, i, 32),
    {
        lookup(self, indices_of_u8(rhs), 32)
    }

    /// Works like [`swizzle`](Self::swizzle); out of range indices give `0`
    /// here, which is one of the results that this function allows.
    pub fn swizzle_relaxed(self, rhs: Simd<u8, 32>) -> (r: Simd<u8, 32>)
        ensures
            forall|i: int| 0 <= i < 32 ==> #[trigger] r@[i] == lookup_lane(self@, rhs@[i] as int, i, 32),
    {
        lookup(self, indices_of_u8(rhs), 32)
    }
}

} // verus!
