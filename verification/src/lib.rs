//! Portable SIMD vectors of integers, with every operation specified lane by
//! lane and verified.
//!
//! A vector [`Simd<T, N>`] holds `N` lanes of the integer type `T`. The
//! supported combinations have names such as [`u32x4`] or [`i16x16`].
//! Arithmetic wraps around as the vector instructions do. Comparisons give
//! masks, vectors whose lanes have all bits set (true) or all bits clear
//! (false), which [`Simd::select`], [`Simd::any`], [`Simd::all`] and
//! [`Simd::to_bitmask`] consume.

pub mod element;
pub mod simd;
pub mod compare;
pub mod ops;
pub mod op_forms;
pub mod traits;
pub mod primitive_traits;
pub mod types;
pub mod integer;
pub mod widening;
pub mod swizzle;
pub mod conversions;
pub mod shifts;
pub mod laws;
pub mod i16_products;

pub use crate::element::SimdElement;
pub use crate::simd::Simd;
pub use crate::compare::{CmpEq, CmpNe, CmpLt, CmpGt, CmpLe, CmpGe};
pub use crate::primitive_traits::{PrimitiveFloat, PrimitiveInteger, PrimitiveSigned, PrimitiveUnsigned};
pub use crate::types::{
    SupportedSimd,
    i8x16,
    i8x32,
    i16x8,
    i16x16,
    i16x32,
    i32x4,
    i32x8,
    i32x16,
    i64x2,
    i64x4,
    i64x8,
    u8x16,
    u8x32,
    u16x8,
    u16x16,
    u16x32,
    u32x4,
    u32x8,
    u32x16,
    u64x2,
    u64x4,
    u64x8,
};
