# wide

Portable SIMD vectors of integers, `Simd<T, N>`, written in Verus: every
operation is specified lane by lane and proved.

## Layout

- `src/element.rs`: the lane types (`i8` to `u64`) and the operation that a
  vector applies to each lane, with its specification.
- `src/simd.rs`: the vector type, construction, comparisons (masks),
  selection, reductions, bitmasks and transposition.
- `src/ops.rs`: the arithmetic and bitwise operators (wrapping arithmetic;
  division and remainder rounded toward zero).
- `src/op_forms.rs`: the same operators on references and with the scalar
  on the left.
- `src/compare.rs`: the comparison traits, against a vector or a scalar.
- `src/integer.rs`, `src/widening.rs`, `src/shifts.rs`: minimum and maximum,
  saturating arithmetic, sign tests, multiplication that keeps the high half
  or widens, and shifts.
- `src/i16_products.rs`, `src/swizzle.rs`, `src/conversions.rs`: dot
  products and fixed-point multiplication, byte table lookups, and
  conversions between lane types.
- `src/traits.rs`: equality, default and `From` conversions.
- `src/types.rs`: the named vector types (`u32x4`, `i16x16`, ...).
- `src/laws.rs`: properties that relate several operations.
- `app/`: formatting and serde support, and the floating-point vector
  `f32x4`, which stay in ordinary Rust.
- `tests/`: tests of the library on concrete values.
