//! Products of 16-bit signed lanes: pairwise dot products and fixed-point
//! multiplication.

use vstd::prelude::*;

use crate::element::{SimdElement, wrapped};
use crate::simd::Simd;

verus! {

broadcast use crate::simd::lemma_simd_len;

/// Lane `i` of a pairwise dot product: the sum of the products of lanes
/// `2i` and `2i + 1`, wrapped into `i32`.
pub open spec fn dot_lane(a: Seq<i16>, b: Seq<i16>, i: int) -> int {
    wrapped::<i32>(a[2 * i] * b[2 * i] + a[2 * i + 1] * b[2 * i + 1])
}

/// A lane of a fixed-point multiplication: `((a * b) + 0x4000) >> 15`,
/// wrapped into `i16`.
pub open spec fn scale_round_lane(a: i16, b: i16) -> int {
    wrapped::<i16>((a * b + 0x4000) / 0x8000)
}

/// The pairwise dot product of the lanes of `a` and `b`, into half as many
/// 32-bit lanes.
pub(crate) fn dot_pairs<const N: usize, const M: usize>(a: Simd<i16, N>, b: Simd<i16, N>) -> (r: Simd<i32, M>)
    requires
        N == 2 * M,
    ensures
        forall|i: int| 0 <= i < M ==> (#[trigger] r@[i]) as int == dot_lane(a@, b@, i),
{
    let x = a.to_array();
    let y = b.to_array();
    let mut out = [0i32; M];
    for i in 0..M
        invariant
            N == 2 * M,
            x@ == a@,
            y@ == b@,
            forall|j: int| 0 <= j < i ==> (#[trigger] out@[j]) as int == dot_lane(a@, b@, j),
    {
        let x0 = x[2 * i] as i32;
        let y0 = y[2 * i] as i32;
        let x1 = x[2 * i + 1] as i32;
        let y1 = y[2 * i + 1] as i32;
        proof {
            assert(-0x4000_0000 <= x0 * y0 <= 0x4000_0000) by (nonlinear_arith)
                requires
                    -0x8000 <= x0 <= 0x7fff,
                    -0x8000 <= y0 <= 0x7fff,
            ;
            assert(-0x4000_0000 <= x1 * y1 <= 0x4000_0000) by (nonlinear_arith)
                requires
                    -0x8000 <= x1 <= 0x7fff,
                    -0x8000 <= y1 <= 0x7fff,
            ;
        }
        out[i] = (x0 * y0).lane_add(x1 * y1);
    }
    Simd::new(out)
}

/// One lane of [`Simd::mul_scale_round`].
fn scale_round(a: i16, b: i16) -> (r: i16)
    ensures
        r as int == scale_round_lane(a, b),
{
    let a32 = a as i32;
    let b32 = b as i32;
    proof {
        assert(-0x3fff_8000 <= a32 * b32 <= 0x4000_0000) by (nonlinear_arith)
            requires
                -0x8000 <= a32 <= 0x7fff,
                -0x8000 <= b32 <= 0x7fff,
        ;
    }
    let p = a32 * b32 + 0x4000;
    // Shift into the non-negative range, where division rounds down.
    let q = ((p as i64 + 0x4000_0000) as u32) / 0x8000;
    let s = (q as i32) - 0x8000;
    assert(s as int == (p as int) / 0x8000);
    if s > 0x7fff {
        (s - 0x1_0000) as i16
    } else {
        s as i16
    }
}

impl<const N: usize> Simd<i16, N> {
    /// Multiply and scale equivalent to `((self * rhs) + 0x4000) >> 15` on
    /// each lane, effectively multiplying by a 16 bit fixed point number
    /// between `-1` and `1`.
    pub fn mul_scale_round(self, rhs: Self) -> (r: Self)
        ensures
            forall|i: int| 0 <= i < N ==> (#[trigger] r@[i]) as int == scale_round_lane(self@[i], rhs@[i]),
    {
        let a = self.to_array();
        let b = rhs.to_array();
        let mut out = a;
        for i in 0..N
            invariant
                a@ == self@,
                b@ == rhs@,
                forall|j: int| 0 <= j < i ==> (#[trigger] out@[j]) as int == scale_round_lane(a@[j], b@[j]),
        {
            out[i] = scale_round(a[i], b[i]);
        }
        Simd::new(out)
    }

    /// Multiply and scale equivalent to `((self * rhs) + 0x4000) >> 15` on
    /// each lane, with the same `rhs` for every lane.
    pub fn mul_scale_round_n(self, rhs: i16) -> (r: Self)
        ensures
            forall|i: int| 0 <= i < N ==> (#[trigger] r@[i]) as int == scale_round_lane(self@[i], rhs),
    {
        self.mul_scale_round(Self::splat(rhs))
    }
}

impl Simd<i16, 16> {
    /// Partially computes the dot product: multiplies the 16-bit lanes into
    /// 32-bit products, then adds adjacent pairs, giving eight 32-bit lanes.
    pub fn dot(self, rhs: Self) -> (r: Simd<i32, 8>)
        ensures
            forall|i: int| 0 <= i < 8 ==> (#[trigger] r@[i]) as int == dot_lane(self@, rhs@, i),
    {
        dot_pairs(self, rhs)
    }
}

impl Simd<i16, 32> {
    /// Partially computes the dot product: multiplies the 16-bit lanes into
    /// 32-bit products, then adds adjacent pairs, giving sixteen 32-bit lanes.
    pub fn dot(self, rhs: Self) -> (r: Simd<i32, 16>)
        ensures
            forall|i: int| 0 <= i < 16 ==> (#[trigger] r@[i]) as int == dot_lane(self@, rhs@, i),
    {
        dot_pairs(self, rhs)
    }
}

} // verus!
