//! The supported vector types, by the names of their lane type and count.

use vstd::prelude::*;

use crate::simd::Simd;

verus! {

/// A marker trait for the supported [`Simd<T, N>`] types.
pub trait SupportedSimd {
    /// The type returned by [`Simd::to_bitmask`]: [`u32`] for all supported
    /// types.
    type Bitmask;
}

/// A SIMD vector with 16 elements of type [`i8`].
#[allow(non_camel_case_types)]
pub type i8x16 = Simd<i8, 16>;

impl SupportedSimd for i8x16 {
    type Bitmask = u32;
}

/// A SIMD vector with 32 elements of type [`i8`].
#[allow(non_camel_case_types)]
pub type i8x32 = Simd<i8, 32>;

impl SupportedSimd for i8x32 {
    type Bitmask = u32;
}

/// A SIMD vector with 8 elements of type [`i16`].
#[allow(non_camel_case_types)]
pub type i16x8 = Simd<i16, 8>;

impl SupportedSimd for i16x8 {
    type Bitmask = u32;
}

/// A SIMD vector with 16 elements of type [`i16`].
#[allow(non_camel_case_types)]
pub type i16x16 = Simd<i16, 16>;

impl SupportedSimd for i16x16 {
    type Bitmask = u32;
}

/// A SIMD vector with 32 elements of type [`i16`].
#[allow(non_camel_case_types)]
pub type i16x32 = Simd<i16, 32>;

impl SupportedSimd for i16x32 {
    type Bitmask = u32;
}

/// A SIMD vector with 4 elements of type [`i32`].
#[allow(non_camel_case_types)]
pub type i32x4 = Simd<i32, 4>;

impl SupportedSimd for i32x4 {
    type Bitmask = u32;
}

/// A SIMD vector with 8 elements of type [`i32`].
#[allow(non_camel_case_types)]
pub type i32x8 = Simd<i32, 8>;

impl SupportedSimd for i32x8 {
    type Bitmask = u32;
}

/// A SIMD vector with 16 elements of type [`i32`].
#[allow(non_camel_case_types)]
pub type i32x16 = Simd<i32, 16>;

impl SupportedSimd for i32x16 {
    type Bitmask = u32;
}

/// A SIMD vector with 2 elements of type [`i64`].
#[allow(non_camel_case_types)]
pub type i64x2 = Simd<i64, 2>;

impl SupportedSimd for i64x2 {
    type Bitmask = u32;
}

/// A SIMD vector with 4 elements of type [`i64`].
#[allow(non_camel_case_types)]
pub type i64x4 = Simd<i64, 4>;

impl SupportedSimd for i64x4 {
    type Bitmask = u32;
}

/// A SIMD vector with 8 elements of type [`i64`].
#[allow(non_camel_case_types)]
pub type i64x8 = Simd<i64, 8>;

impl SupportedSimd for i64x8 {
    type Bitmask = u32;
}

/// A SIMD vector with 16 elements of type [`u8`].
#[allow(non_camel_case_types)]
pub type u8x16 = Simd<u8, 16>;

impl SupportedSimd for u8x16 {
    type Bitmask = u32;
}

/// A SIMD vector with 32 elements of type [`u8`].
#[allow(non_camel_case_types)]
pub type u8x32 = Simd<u8, 32>;

impl SupportedSimd for u8x32 {
    type Bitmask = u32;
}

/// A SIMD vector with 8 elements of type [`u16`].
#[allow(non_camel_case_types)]
pub type u16x8 = Simd<u16, 8>;

impl SupportedSimd for u16x8 {
    type Bitmask = u32;
}

/// A SIMD vector with 16 elements of type [`u16`].
#[allow(non_camel_case_types)]
pub type u16x16 = Simd<u16, 16>;

impl SupportedSimd for u16x16 {
    type Bitmask = u32;
}

/// A SIMD vector with 32 elements of type [`u16`].
#[allow(non_camel_case_types)]
pub type u16x32 = Simd<u16, 32>;

impl SupportedSimd for u16x32 {
    type Bitmask = u32;
}

/// A SIMD vector with 4 elements of type [`u32`].
#[allow(non_camel_case_types)]
pub type u32x4 = Simd<u32, 4>;

impl SupportedSimd for u32x4 {
    type Bitmask = u32;
}

/// A SIMD vector with 8 elements of type [`u32`].
#[allow(non_camel_case_types)]
pub type u32x8 = Simd<u32, 8>;

impl SupportedSimd for u32x8 {
    type Bitmask = u32;
}

/// A SIMD vector with 16 elements of type [`u32`].
#[allow(non_camel_case_types)]
pub type u32x16 = Simd<u32, 16>;

impl SupportedSimd for u32x16 {
    type Bitmask = u32;
}

/// A SIMD vector with 2 elements of type [`u64`].
#[allow(non_camel_case_types)]
pub type u64x2 = Simd<u64, 2>;

impl SupportedSimd for u64x2 {
    type Bitmask = u32;
}

/// A SIMD vector with 4 elements of type [`u64`].
#[allow(non_camel_case_types)]
pub type u64x4 = Simd<u64, 4>;

impl SupportedSimd for u64x4 {
    type Bitmask = u32;
}

/// A SIMD vector with 8 elements of type [`u64`].
#[allow(non_camel_case_types)]
pub type u64x8 = Simd<u64, 8>;

impl SupportedSimd for u64x8 {
    type Bitmask = u32;
}

} // verus!
