//! Marker traits that group the lane types, for generic code over vectors.

use vstd::prelude::*;

use crate::element::SimdElement;

verus! {

/// A marker trait for primitive floating-point lane types.
///
/// Floating-point lanes are not among the lane types of this crate, so no
/// type implements this trait here.
pub trait PrimitiveFloat: SimdElement {}

/// A marker trait for all primitive integer lane types.
///
/// Implemented for [`i8`], [`i16`], [`i32`], [`i64`], [`u8`], [`u16`], [`u32`]
/// and [`u64`].
pub trait PrimitiveInteger: SimdElement {}

/// A marker trait for the primitive signed-integer lane types.
///
/// Implemented for [`i8`], [`i16`], [`i32`] and [`i64`].
pub trait PrimitiveSigned: PrimitiveInteger {}

/// A marker trait for the primitive unsigned-integer lane types.
///
/// Implemented for [`u8`], [`u16`], [`u32`] and [`u64`].
pub trait PrimitiveUnsigned: PrimitiveInteger {}

impl PrimitiveInteger for i8 {}

impl PrimitiveInteger for i16 {}

impl PrimitiveInteger for i32 {}

impl PrimitiveInteger for i64 {}

impl PrimitiveInteger for u8 {}

impl PrimitiveInteger for u16 {}

impl PrimitiveInteger for u32 {}

impl PrimitiveInteger for u64 {}

impl PrimitiveSigned for i8 {}

impl PrimitiveSigned for i16 {}

impl PrimitiveSigned for i32 {}

impl PrimitiveSigned for i64 {}

impl PrimitiveUnsigned for u8 {}

impl PrimitiveUnsigned for u16 {}

impl PrimitiveUnsigned for u32 {}

impl PrimitiveUnsigned for u64 {}

} // verus!
